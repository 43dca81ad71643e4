//! The liquidity router: which rail serves a receive, a payment or a swap.
//!
//! Each operation interleaves decisions with calls to the two rails and to
//! the LSP. The decisions stand here as functions from the observed state to
//! the next step; the caller performs the step's outside work and hands the
//! result back to the next function.

use vstd::prelude::*;

use crate::balance::Balance;
use crate::channels::{
    has_inbound_for, inbound_for_amount, lemma_covered_amount_fits_msat, ChannelSnapshot,
};
use crate::config::MIN_CHANNEL_OPENING_SAT;
use crate::errors::Error;
use crate::invoice::{bolt11_valid, Invoice};
use crate::lsp::LspProposalResponse;
use crate::poller::{SettlementPoller, SettlementRegistry};

verus! {

/// The rail that serves a receive of a given amount.
#[derive(Debug, Clone, Copy, PartialEq, Eq, Structural)]
pub enum ReceiveRoute {
    /// Some channel can receive the amount: request a direct invoice over
    /// this many millisatoshis from the channel engine.
    Direct {
        /// The invoice amount handed to the channel engine.
        amount_msat: u64,
    },
    /// No channel can receive the amount: request a mint quote over this
    /// many satoshis from the ecash client and poll its settlement.
    EcashMint {
        /// The quote amount handed to the ecash client.
        amount_sat: u64,
    },
}

/// Routes a receive: the Lightning rail serves it exactly when some single
/// channel's inbound capacity strictly exceeds the amount; otherwise the
/// ecash mint serves it.
///
/// No bound on the amount is demanded: a directly served amount fits in
/// millisatoshis because the covering channel's own millisatoshi capacity
/// bounds it, and the mint branch converts nothing.
pub fn receive_route(channels: &Vec<ChannelSnapshot>, amount_sat: u64) -> (r: ReceiveRoute)
    ensures
        has_inbound_for(channels@, amount_sat) ==> r == (ReceiveRoute::Direct {
            amount_msat: (amount_sat * 1000) as u64,
        }),
        !has_inbound_for(channels@, amount_sat) ==> r == (ReceiveRoute::EcashMint { amount_sat }),
{
    if inbound_for_amount(channels, amount_sat) {
        proof {
            lemma_covered_amount_fits_msat(channels@, amount_sat);
        }
        ReceiveRoute::Direct { amount_msat: amount_sat * 1000 }
    } else {
        ReceiveRoute::EcashMint { amount_sat }
    }
}

/// Terminal state of a melt quote, as the ecash client reports it.
///
/// Only `Paid` is success; `Unpaid` and `Pending` are kept apart so a caller
/// can still tell a definitely failed melt from one that may settle later.
#[derive(Debug, Clone, Copy, PartialEq, Eq, Structural)]
pub enum MeltState {
    /// The melt did not pay the invoice.
    Unpaid,
    /// The melt is still in flight at the mint.
    Pending,
    /// The melt paid the invoice.
    Paid,
}

/// What the ecash client reports after executing a melt.
#[derive(Debug, Clone, PartialEq, Eq)]
pub struct MeltOutcome {
    /// The quote's terminal state.
    pub state: MeltState,
    /// The payment preimage, revealed when the melt paid the invoice.
    pub preimage: Option<String>,
}

/// The rail a payment is tried on first.
#[derive(Debug, Clone, Copy, PartialEq, Eq, Structural)]
pub enum PayRail {
    /// Melt ecash to pay the invoice.
    Ecash,
    /// Send the payment through the channel engine.
    Lightning,
}

/// How a payment continues after an ecash melt that was tried first.
#[derive(Debug, Clone, PartialEq, Eq)]
pub enum PayNext {
    /// The melt paid the invoice: done, with the payment preimage as the
    /// proof of payment.
    Settled(String),
    /// The melt did not pay the invoice; send through the channel engine.
    Lightning,
}

/// The invoice amount in satoshis, read from its millisatoshi field.
pub open spec fn invoice_amount_sat(invoice: Invoice) -> int
    recommends
        invoice.amount_msat is Some,
{
    invoice.amount_msat.unwrap() as int / 1000
}

/// The first rail of a payment: ecash when its balance strictly exceeds the
/// invoice amount, else Lightning when its balance does, else no rail at
/// all — and no rail either for an invoice without an amount.
pub open spec fn spec_pay_invoice_start(invoice: Invoice, balance: Balance) -> Result<
    PayRail,
    Error,
> {
    if invoice.amount_msat is None {
        Err(Error::AmountlessInvoice)
    } else {
        let amount_sat = invoice_amount_sat(invoice);
        if balance.cashu_balance > amount_sat {
            Ok(PayRail::Ecash)
        } else if balance.lightning_balance > amount_sat {
            Ok(PayRail::Lightning)
        } else {
            Err(Error::InsufficientFunds)
        }
    }
}

/// Decides which rail a payment tries first, preferring ecash.
///
/// An amountless invoice fails here, before any rail is contacted. With an
/// amount known, the ecash rail is chosen when the ecash balance strictly
/// exceeds it; otherwise the Lightning rail, when the Lightning balance
/// strictly exceeds it; otherwise the payment fails for insufficient funds.
pub fn pay_invoice_start(invoice: &Invoice, balance: &Balance) -> (r: Result<PayRail, Error>)
    ensures
        r == spec_pay_invoice_start(*invoice, *balance),
        invoice.amount_msat is None ==> r == Err::<PayRail, Error>(Error::AmountlessInvoice),
{
    let amount_msat = match &invoice.amount_msat {
        Some(a) => *a,
        None => {
            return Err(Error::AmountlessInvoice);
        },
    };
    let amount_sat = amount_msat / 1000;
    if balance.cashu_balance > amount_sat {
        Ok(PayRail::Ecash)
    } else if balance.lightning_balance > amount_sat {
        Ok(PayRail::Lightning)
    } else {
        Err(Error::InsufficientFunds)
    }
}

/// How a payment continues after its ecash melt: a paid melt settles with
/// its preimage; any other terminal state falls through to Lightning when
/// that balance strictly exceeds the invoice amount, and fails otherwise.
pub open spec fn spec_pay_invoice_after_melt(
    invoice: Invoice,
    balance: Balance,
    melt: MeltOutcome,
) -> Result<PayNext, Error>
    recommends
        invoice.amount_msat is Some,
{
    if melt.state == MeltState::Paid {
        Ok(PayNext::Settled(melt.preimage.unwrap()))
    } else if balance.lightning_balance > invoice_amount_sat(invoice) {
        Ok(PayNext::Lightning)
    } else {
        Err(Error::InsufficientFunds)
    }
}

/// Decides how a payment continues after its ecash melt.
///
/// A melt that reached `Paid` settles the payment with its preimage. Any
/// other terminal state falls through to the Lightning rail — evaluated by
/// its own balance condition, not as a mere else-branch — and fails for
/// insufficient funds when that condition does not hold either.
pub fn pay_invoice_after_melt(invoice: &Invoice, balance: &Balance, melt: MeltOutcome) -> (r:
    Result<PayNext, Error>)
    requires
        invoice.amount_msat is Some,
        melt.state == MeltState::Paid ==> melt.preimage is Some,
    ensures
        r == spec_pay_invoice_after_melt(*invoice, *balance, melt),
{
    match melt.state {
        MeltState::Paid => {
            let preimage = match melt.preimage {
                Some(p) => p,
                None => {
                    return vstd::pervasive::unreached();
                },
            };
            Ok(PayNext::Settled(preimage))
        },
        _ => {
            let amount_sat = match &invoice.amount_msat {
                Some(a) => *a / 1000,
                None => {
                    return vstd::pervasive::unreached();
                },
            };
            if balance.lightning_balance > amount_sat {
                Ok(PayNext::Lightning)
            } else {
                Err(Error::InsufficientFunds)
            }
        },
    }
}

/// Law: over one whole pay operation, the payment settles via ecash exactly
/// when the ecash balance strictly exceeds the invoice amount and the melt
/// reaches `Paid`; failing that, it is sent via Lightning exactly when the
/// Lightning balance strictly exceeds the amount; and otherwise it fails
/// with `InsufficientFunds`.
pub proof fn lemma_pay_policy(invoice: Invoice, balance: Balance, melt: MeltOutcome)
    requires
        invoice.amount_msat is Some,
        melt.state == MeltState::Paid ==> melt.preimage is Some,
    ensures
        balance.cashu_balance > invoice_amount_sat(invoice) && melt.state == MeltState::Paid
            ==> spec_pay_invoice_start(invoice, balance) == Ok::<PayRail, Error>(PayRail::Ecash)
            && spec_pay_invoice_after_melt(invoice, balance, melt) == Ok::<PayNext, Error>(
            PayNext::Settled(melt.preimage.unwrap()),
        ),
        balance.cashu_balance > invoice_amount_sat(invoice) && melt.state != MeltState::Paid
            && balance.lightning_balance > invoice_amount_sat(invoice)
            ==> spec_pay_invoice_start(invoice, balance) == Ok::<PayRail, Error>(PayRail::Ecash)
            && spec_pay_invoice_after_melt(invoice, balance, melt) == Ok::<PayNext, Error>(
            PayNext::Lightning,
        ),
        !(balance.cashu_balance > invoice_amount_sat(invoice)) && balance.lightning_balance
            > invoice_amount_sat(invoice) ==> spec_pay_invoice_start(invoice, balance) == Ok::<
            PayRail,
            Error,
        >(PayRail::Lightning),
        !(balance.cashu_balance > invoice_amount_sat(invoice)) && !(balance.lightning_balance
            > invoice_amount_sat(invoice)) ==> spec_pay_invoice_start(invoice, balance) == Err::<
            PayRail,
            Error,
        >(Error::InsufficientFunds),
        balance.cashu_balance > invoice_amount_sat(invoice) && melt.state != MeltState::Paid && !(
        balance.lightning_balance > invoice_amount_sat(invoice)) ==> spec_pay_invoice_after_melt(
            invoice,
            balance,
            melt,
        ) == Err::<PayNext, Error>(Error::InsufficientFunds),
{
}

/// How a swap obtains the invoice it then melts.
#[derive(Debug, Clone, Copy, PartialEq, Eq, Structural)]
pub enum SwapPlan {
    /// Existing inbound capacity covers the target: a direct invoice over
    /// this many millisatoshis from the channel engine.
    Direct {
        /// The invoice amount handed to the channel engine.
        amount_msat: u64,
    },
    /// No capacity, and the target is large enough to fund a channel:
    /// negotiate a just-in-time channel with the LSP for this many
    /// millisatoshis.
    JitChannel {
        /// The amount the LSP fee request is made for.
        amount_msat: u64,
    },
}

/// Plans a swap of `target_amount_sat` from the ecash balance into Lightning
/// liquidity.
///
/// In order: the ecash balance must cover the target; existing inbound
/// capacity (the same strict test as for a receive) yields a direct invoice
/// and involves no LSP; a target strictly above the channel-opening
/// threshold yields a just-in-time channel negotiation; below the threshold
/// the swap fails as too low, at exactly the threshold as lacking inbound
/// capacity.
///
/// Only a target above the threshold needs to fit in millisatoshis: that is
/// the one branch converting an unbounded amount; a directly served target
/// is bounded by the covering channel's capacity.
pub fn swap_plan(balance: &Balance, channels: &Vec<ChannelSnapshot>, target_amount_sat: u64) -> (r:
    Result<SwapPlan, Error>)
    requires
        target_amount_sat > MIN_CHANNEL_OPENING_SAT ==> target_amount_sat * 1000 <= u64::MAX,
    ensures
        balance.cashu_balance < target_amount_sat ==> r == Err::<SwapPlan, Error>(
            Error::InsufficientFunds,
        ),
        balance.cashu_balance >= target_amount_sat ==> {
            if has_inbound_for(channels@, target_amount_sat) {
                r == Ok::<SwapPlan, Error>(SwapPlan::Direct {
                    amount_msat: (target_amount_sat * 1000) as u64,
                })
            } else if target_amount_sat > MIN_CHANNEL_OPENING_SAT {
                r == Ok::<SwapPlan, Error>(SwapPlan::JitChannel {
                    amount_msat: (target_amount_sat * 1000) as u64,
                })
            } else if target_amount_sat < MIN_CHANNEL_OPENING_SAT {
                r == Err::<SwapPlan, Error>(Error::AmountTooLowForChannel)
            } else {
                r == Err::<SwapPlan, Error>(Error::InsufficientInboundForSwap)
            }
        },
{
    if balance.cashu_balance < target_amount_sat {
        return Err(Error::InsufficientFunds);
    }
    if inbound_for_amount(channels, target_amount_sat) {
        proof {
            lemma_covered_amount_fits_msat(channels@, target_amount_sat);
        }
        Ok(SwapPlan::Direct { amount_msat: target_amount_sat * 1000 })
    } else if target_amount_sat > MIN_CHANNEL_OPENING_SAT {
        Ok(SwapPlan::JitChannel { amount_msat: target_amount_sat * 1000 })
    } else if target_amount_sat < MIN_CHANNEL_OPENING_SAT {
        Err(Error::AmountTooLowForChannel)
    } else {
        Err(Error::InsufficientInboundForSwap)
    }
}

/// Checks the wrapped invoice the LSP proposed: a reply whose invoice the
/// parser rejects fails the swap with a surfaced LSP-transport error, never
/// a halt.
pub fn accept_jit_invoice(resp: &LspProposalResponse) -> (r: Result<Invoice, Error>)
    ensures
        r is Ok <==> bolt11_valid(resp.jit_bolt11@),
        r matches Ok(inv) ==> inv.wf() && inv.bolt11@ == resp.jit_bolt11@,
        !bolt11_valid(resp.jit_bolt11@) ==> (r matches Err(e) && e matches Error::ReqwestError(m)
            && m@ == "the LSP returned an invalid wrapped invoice"@),
{
    match crate::invoice::parse_bolt11(resp.jit_bolt11.as_str()) {
        Some(inv) => Ok(inv),
        None => Err(Error::ReqwestError("the LSP returned an invalid wrapped invoice".to_owned())),
    }
}

/// Accepts the mint quote obtained for an ecash-backed receive: checks the
/// invoice embedded in the quote and schedules its settlement task.
///
/// On success, exactly one settlement task is scheduled for the quote id —
/// a fresh one, or the one already scheduled for that id. A quote whose
/// invoice the parser rejects schedules nothing and fails the receive with
/// a surfaced ecash-client error.
pub fn accept_mint_quote(
    registry: &mut SettlementRegistry,
    quote_id: &String,
    request: &String,
) -> (r: Result<Invoice, Error>)
    requires
        old(registry).wf(),
    ensures
        final(registry).wf(),
        r is Ok <==> bolt11_valid(request@),
        r matches Ok(inv) ==> inv.wf() && inv.bolt11@ == request@,
        r is Ok ==> final(registry).contains_id(quote_id@),
        r is Ok && !old(registry).contains_id(quote_id@) ==> final(registry).ids()
            == old(registry).ids().push(quote_id@) && final(registry).poller_for(quote_id@)
            == SettlementPoller::spec_new(),
        r is Err ==> *final(registry) == *old(registry) && (r matches Err(e) && e matches
            Error::CdkError(m) && m@ == "the mint returned an invalid invoice"@),
        forall|other: Seq<char>|
            other != quote_id@ && old(registry).contains_id(other)
                ==> #[trigger] final(registry).contains_id(other)
                && final(registry).poller_for(other) == old(registry).poller_for(other),
{
    match crate::invoice::parse_bolt11(request.as_str()) {
        Some(inv) => {
            let _ = registry.schedule(quote_id);
            Ok(inv)
        },
        None => Err(Error::CdkError("the mint returned an invalid invoice".to_owned())),
    }
}

/// Settles a swap from its melt's terminal state: only a melt that reached
/// `Paid` succeeds.
pub fn swap_settle(melt_state: MeltState) -> (r: Result<(), Error>)
    ensures
        melt_state == MeltState::Paid ==> r == Ok::<(), Error>(()),
        melt_state != MeltState::Paid ==> r == Err::<(), Error>(Error::MintCouldNotPayInvoice),
{
    match melt_state {
        MeltState::Paid => Ok(()),
        _ => Err(Error::MintCouldNotPayInvoice),
    }
}

} // verus!
