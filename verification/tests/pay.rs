use lncashu::balance::Balance;
use lncashu::errors::{Error, RequestError};
use lncashu::requests::{parse_invoice_request, InvoiceRequest};
use lncashu::router::{pay_invoice_after_melt, pay_invoice_start, MeltOutcome, MeltState, PayNext, PayRail};

// Correctly signed payment requests from the BOLT11 test vectors: one over
// 250_000_000 msat, one without an amount.
const INVOICE_250000_SAT: &str = "lnbc2500u1pvjluezsp5zyg3zyg3zyg3zyg3zyg3zyg3zyg3zyg3zyg3zyg3zyg3zyg3zygspp5qqqsyqcyq5rqwzqfqqqsyqcyq5rqwzqfqqqsyqcyq5rqwzqfqypqdq5xysxxatsyp3k7enxv4jsxqzpu9qrsgquk0rl77nj30yxdy8j9vdx85fkpmdla2087ne0xh8nhedh8w27kyke0lp53ut353s06fv3qfegext0eh0ymjpf39tuven09sam30g4vgpfna3rh";
const INVOICE_AMOUNTLESS: &str = "lnbc1pvjluezsp5zyg3zyg3zyg3zyg3zyg3zyg3zyg3zyg3zyg3zyg3zyg3zyg3zygspp5qqqsyqcyq5rqwzqfqqqsyqcyq5rqwzqfqqqsyqcyq5rqwzqfqypqdpl2pkx2ctnv5sxxmmwwd5kgetjypeh2ursdae8g6twvus8g6rfwvs8qun0dfjkxaq9qrsgq357wnc5r2ueh7ck6q93dj32dlqnls087fxdwk8qakdyafkq3yap9us6v52vjjsrvywa6rt52cm9r9zqt8r2t7mlcwspyetp5h2tztugp9lfyql";

fn balance_with(cashu: u64, lightning: u64) -> Balance {
    Balance {
        cashu_balance: cashu,
        lightning_balance: lightning,
        onchain_balance: 0,
        spendable_onchain_balance: 0,
    }
}

#[test]
fn parsing_reads_the_invoice_amount() {
    let req = InvoiceRequest { invoice: INVOICE_250000_SAT.to_string() };
    let invoice = parse_invoice_request(&req).expect("a valid invoice must parse");
    assert_eq!(invoice.amount_msat, Some(250_000_000));
    assert_eq!(invoice.bolt11, INVOICE_250000_SAT);
}

#[test]
fn parsing_rejects_a_garbled_invoice() {
    let req = InvoiceRequest { invoice: "lnbc-nonsense".to_string() };
    assert_eq!(parse_invoice_request(&req), Err(RequestError::InvalidInvoice));
}

#[test]
fn paying_an_amountless_invoice_fails_before_any_rail() {
    let req = InvoiceRequest { invoice: INVOICE_AMOUNTLESS.to_string() };
    let invoice = parse_invoice_request(&req).expect("the amountless vector is well-formed");
    assert_eq!(invoice.amount_msat, None);
    let balance = balance_with(u64::MAX, u64::MAX);
    assert_eq!(pay_invoice_start(&invoice, &balance), Err(Error::AmountlessInvoice));
}

#[test]
fn pay_prefers_ecash_when_its_balance_exceeds_the_amount() {
    let req = InvoiceRequest { invoice: INVOICE_250000_SAT.to_string() };
    let invoice = parse_invoice_request(&req).unwrap();
    let balance = balance_with(250_001, 0);
    assert_eq!(pay_invoice_start(&invoice, &balance), Ok(PayRail::Ecash));
}

#[test]
fn pay_balance_test_is_strict() {
    // An ecash balance of exactly the amount is not enough; Lightning wins.
    let req = InvoiceRequest { invoice: INVOICE_250000_SAT.to_string() };
    let invoice = parse_invoice_request(&req).unwrap();
    let balance = balance_with(250_000, 250_001);
    assert_eq!(pay_invoice_start(&invoice, &balance), Ok(PayRail::Lightning));
}

#[test]
fn pay_fails_when_neither_balance_exceeds_the_amount() {
    let req = InvoiceRequest { invoice: INVOICE_250000_SAT.to_string() };
    let invoice = parse_invoice_request(&req).unwrap();
    let balance = balance_with(250_000, 250_000);
    assert_eq!(pay_invoice_start(&invoice, &balance), Err(Error::InsufficientFunds));
}

#[test]
fn a_paid_melt_settles_with_its_preimage() {
    let req = InvoiceRequest { invoice: INVOICE_250000_SAT.to_string() };
    let invoice = parse_invoice_request(&req).unwrap();
    let balance = balance_with(250_001, 0);
    let melt = MeltOutcome { state: MeltState::Paid, preimage: Some("00ff".to_string()) };
    assert_eq!(
        pay_invoice_after_melt(&invoice, &balance, melt),
        Ok(PayNext::Settled("00ff".to_string()))
    );
}

#[test]
fn an_unpaid_melt_falls_through_to_lightning() {
    let req = InvoiceRequest { invoice: INVOICE_250000_SAT.to_string() };
    let invoice = parse_invoice_request(&req).unwrap();
    let balance = balance_with(250_001, 250_001);
    let melt = MeltOutcome { state: MeltState::Unpaid, preimage: None };
    assert_eq!(pay_invoice_after_melt(&invoice, &balance, melt), Ok(PayNext::Lightning));
}

#[test]
fn a_pending_melt_without_lightning_balance_fails() {
    let req = InvoiceRequest { invoice: INVOICE_250000_SAT.to_string() };
    let invoice = parse_invoice_request(&req).unwrap();
    let balance = balance_with(250_001, 250_000);
    let melt = MeltOutcome { state: MeltState::Pending, preimage: None };
    assert_eq!(
        pay_invoice_after_melt(&invoice, &balance, melt),
        Err(Error::InsufficientFunds)
    );
}
