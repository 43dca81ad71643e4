use lncashu::balance::Balance;
use lncashu::channels::ChannelSnapshot;
use lncashu::errors::Error;
use lncashu::lsp::{jit_invoice_amount_msat, lsp_fee_request, lsp_proposal_request, LspFeeResponse, LspProposalResponse};
use lncashu::poller::SettlementRegistry;
use lncashu::router::{accept_jit_invoice, accept_mint_quote, receive_route, swap_plan, swap_settle, MeltState, ReceiveRoute, SwapPlan};

// A correctly signed payment request (250_000_000 msat) from the BOLT11 test
// vectors.
const INVOICE_250000_SAT: &str = "lnbc2500u1pvjluezsp5zyg3zyg3zyg3zyg3zyg3zyg3zyg3zyg3zyg3zyg3zyg3zyg3zygspp5qqqsyqcyq5rqwzqfqqqsyqcyq5rqwzqfqqqsyqcyq5rqwzqfqypqdq5xysxxatsyp3k7enxv4jsxqzpu9qrsgquk0rl77nj30yxdy8j9vdx85fkpmdla2087ne0xh8nhedh8w27kyke0lp53ut353s06fv3qfegext0eh0ymjpf39tuven09sam30g4vgpfna3rh";

fn channel_with_inbound_msat(inbound_capacity_msat: u64, user_channel_id: u128) -> ChannelSnapshot {
    ChannelSnapshot {
        channel_id: vec![0u8; 32],
        counterparty_node_id: vec![2u8; 33],
        funding_txo: None,
        channel_value_sats: 1_000_000,
        unspendable_punishment_reserve: None,
        user_channel_id,
        outbound_capacity_msat: 0,
        inbound_capacity_msat,
        is_channel_ready: true,
    }
}

fn balance_with(cashu: u64, lightning: u64) -> Balance {
    Balance {
        cashu_balance: cashu,
        lightning_balance: lightning,
        onchain_balance: 0,
        spendable_onchain_balance: 0,
    }
}

#[test]
fn receive_uses_direct_invoice_when_a_channel_covers_the_amount() {
    let channels = vec![channel_with_inbound_msat(5_000_000, 1)];
    let route = receive_route(&channels, 3000);
    assert_eq!(route, ReceiveRoute::Direct { amount_msat: 3_000_000 });
}

#[test]
fn receive_falls_back_to_ecash_when_no_channel_covers_the_amount() {
    let channels = vec![channel_with_inbound_msat(5_000_000, 1)];
    let route = receive_route(&channels, 6000);
    assert_eq!(route, ReceiveRoute::EcashMint { amount_sat: 6000 });
}

#[test]
fn receive_capacity_test_is_strict() {
    // Inbound capacity of exactly the requested amount is not enough.
    let channels = vec![channel_with_inbound_msat(3_000_000, 1)];
    let route = receive_route(&channels, 3000);
    assert_eq!(route, ReceiveRoute::EcashMint { amount_sat: 3000 });
}

#[test]
fn receive_with_no_channels_uses_ecash() {
    let channels: Vec<ChannelSnapshot> = vec![];
    let route = receive_route(&channels, 1);
    assert_eq!(route, ReceiveRoute::EcashMint { amount_sat: 1 });
}

#[test]
fn accepting_a_mint_quote_schedules_one_poller() {
    let mut registry = SettlementRegistry::new();
    let quote_id = "quote-1".to_string();
    let request = INVOICE_250000_SAT.to_string();
    let invoice = accept_mint_quote(&mut registry, &quote_id, &request);
    let invoice = invoice.expect("a valid mint quote request must be accepted");
    assert_eq!(invoice.bolt11, request);
    assert_eq!(invoice.amount_msat, Some(250_000_000));
    assert!(registry.contains(&quote_id));

    // Accepting the same quote again schedules no second poller.
    let again = accept_mint_quote(&mut registry, &quote_id, &request);
    assert!(again.is_ok());
    assert!(registry.contains(&quote_id));
}

#[test]
fn a_garbled_mint_quote_schedules_nothing_and_errors() {
    let mut registry = SettlementRegistry::new();
    let quote_id = "quote-2".to_string();
    let request = "not an invoice".to_string();
    let r = accept_mint_quote(&mut registry, &quote_id, &request);
    assert_eq!(
        r,
        Err(Error::CdkError("the mint returned an invalid invoice".to_string()))
    );
    assert!(!registry.contains(&quote_id));
}

#[test]
fn swap_fails_with_insufficient_funds_regardless_of_channels() {
    // Ecash balance below the target fails even with ample capacity.
    let channels = vec![channel_with_inbound_msat(u64::MAX, 1)];
    let balance = balance_with(4999, 0);
    let r = swap_plan(&balance, &channels, 5000);
    assert_eq!(r, Err(Error::InsufficientFunds));
}

#[test]
fn swap_with_capacity_uses_a_direct_invoice_and_no_lsp() {
    let channels = vec![channel_with_inbound_msat(5_000_001_000, 1)];
    let balance = balance_with(5_000_000, 0);
    let r = swap_plan(&balance, &channels, 5_000_000);
    assert_eq!(r, Ok(SwapPlan::Direct { amount_msat: 5_000_000_000 }));
}

#[test]
fn swap_above_threshold_without_capacity_negotiates_a_jit_channel() {
    let channels: Vec<ChannelSnapshot> = vec![];
    let balance = balance_with(2_000_000, 0);
    let r = swap_plan(&balance, &channels, 1_000_001);
    assert_eq!(r, Ok(SwapPlan::JitChannel { amount_msat: 1_000_001_000 }));
}

#[test]
fn swap_below_threshold_without_capacity_is_too_low() {
    let channels: Vec<ChannelSnapshot> = vec![];
    let balance = balance_with(2_000_000, 0);
    let r = swap_plan(&balance, &channels, 999_999);
    assert_eq!(r, Err(Error::AmountTooLowForChannel));
}

#[test]
fn swap_at_threshold_without_capacity_lacks_inbound() {
    let channels: Vec<ChannelSnapshot> = vec![];
    let balance = balance_with(2_000_000, 0);
    let r = swap_plan(&balance, &channels, 1_000_000);
    assert_eq!(r, Err(Error::InsufficientInboundForSwap));
}

#[test]
fn swap_settles_only_on_a_paid_melt() {
    assert_eq!(swap_settle(MeltState::Paid), Ok(()));
    assert_eq!(swap_settle(MeltState::Unpaid), Err(Error::MintCouldNotPayInvoice));
    assert_eq!(swap_settle(MeltState::Pending), Err(Error::MintCouldNotPayInvoice));
}

#[test]
fn jit_invoice_amount_is_the_target_net_of_the_fee() {
    let fee = LspFeeResponse { fee_amount_msat: 2_500_000, id: "fee-1".to_string() };
    assert_eq!(jit_invoice_amount_msat(1_000_001_000, &fee), Ok(997_501_000));
}

#[test]
fn jit_fee_exceeding_the_target_fails_with_an_error() {
    let fee = LspFeeResponse { fee_amount_msat: 2_000, id: "fee-2".to_string() };
    assert_eq!(
        jit_invoice_amount_msat(1_000, &fee),
        Err(Error::ReqwestError("the LSP fee exceeds the swap amount".to_string()))
    );
}

#[test]
fn a_wrapped_invoice_from_the_lsp_is_checked() {
    let reply = LspProposalResponse { jit_bolt11: INVOICE_250000_SAT.to_string() };
    let invoice = accept_jit_invoice(&reply).expect("a valid wrapped invoice is accepted");
    assert_eq!(invoice.bolt11, INVOICE_250000_SAT);
    assert_eq!(invoice.amount_msat, Some(250_000_000));
}

#[test]
fn a_garbled_wrapped_invoice_fails_with_an_error_not_a_halt() {
    let reply = LspProposalResponse { jit_bolt11: "lnbc-garbage".to_string() };
    assert_eq!(
        accept_jit_invoice(&reply),
        Err(Error::ReqwestError("the LSP returned an invalid wrapped invoice".to_string()))
    );
}

#[test]
fn lsp_requests_carry_the_given_fields() {
    let fee_req = lsp_fee_request(1_000_001_000, "02aa".to_string());
    assert_eq!(fee_req.amount_msat, 1_000_001_000);
    assert_eq!(fee_req.pubkey, "02aa");

    let fee = LspFeeResponse { fee_amount_msat: 1, id: "fee-3".to_string() };
    let mut registry = SettlementRegistry::new();
    let invoice =
        accept_mint_quote(&mut registry, &"q".to_string(), &INVOICE_250000_SAT.to_string())
            .expect("valid invoice");
    let proposal = lsp_proposal_request(&fee, &invoice);
    assert_eq!(proposal.bolt11, INVOICE_250000_SAT);
    assert_eq!(proposal.fee_id, "fee-3");
}
