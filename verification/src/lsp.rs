//! The messages exchanged with the LSP when negotiating a just-in-time
//! channel, and the arithmetic that connects them.
//!
//! The LSP is consulted in two steps: a fee request for the swap amount
//! yields a fee quote, and a proposal request carrying a local invoice over
//! the amount net of that fee yields a wrapped invoice that, when paid,
//! makes the LSP open a channel on the fly. The HTTP transport lives outside
//! this crate; these functions build the requests and check the quote.

use vstd::prelude::*;

use crate::errors::Error;
use crate::invoice::Invoice;

verus! {

/// A fee request: asks the LSP what a just-in-time channel for this amount
/// costs.
#[derive(Debug, Clone, PartialEq, Eq)]
pub struct LspFeeRequest {
    /// The amount to be received through the new channel, in millisatoshis.
    pub amount_msat: u64,
    /// The receiving node's id, serialized.
    pub pubkey: String,
}

/// The LSP's fee quote. Short-lived: it must be consumed before the LSP
/// expires it.
#[derive(Debug, Clone, PartialEq, Eq)]
pub struct LspFeeResponse {
    /// The fee the LSP takes, in millisatoshis.
    pub fee_amount_msat: u64,
    /// The quote id to submit with the proposal request.
    pub id: String,
}

/// A proposal request: submits a local invoice together with the fee quote
/// it was sized for.
#[derive(Debug, Clone, PartialEq, Eq)]
pub struct LspProposalRequest {
    /// The local node's invoice over the amount net of the fee.
    pub bolt11: String,
    /// The id of the fee quote being consumed.
    pub fee_id: String,
}

/// The LSP's answer: the wrapped invoice to hand out.
#[derive(Debug, Clone, PartialEq, Eq)]
pub struct LspProposalResponse {
    /// The wrapped invoice that triggers the channel opening when paid.
    pub jit_bolt11: String,
}

/// Builds the fee request for a just-in-time channel receiving
/// `amount_msat` at the node identified by `node_pubkey`.
pub fn lsp_fee_request(amount_msat: u64, node_pubkey: String) -> (r: LspFeeRequest)
    ensures
        r == (LspFeeRequest { amount_msat, pubkey: node_pubkey }),
{
    LspFeeRequest { amount_msat, pubkey: node_pubkey }
}

/// The amount of the local invoice the LSP is asked to wrap: the swap target
/// net of the quoted fee. A fee quote that exceeds the target cannot be
/// consumed; the swap fails with a surfaced LSP-transport error.
pub fn jit_invoice_amount_msat(target_amount_msat: u64, fee: &LspFeeResponse) -> (r: Result<
    u64,
    Error,
>)
    ensures
        fee.fee_amount_msat <= target_amount_msat ==> r == Ok::<u64, Error>(
            (target_amount_msat - fee.fee_amount_msat) as u64,
        ),
        fee.fee_amount_msat > target_amount_msat ==> (r matches Err(e) && e matches
            Error::ReqwestError(m) && m@ == "the LSP fee exceeds the swap amount"@),
{
    if fee.fee_amount_msat <= target_amount_msat {
        Ok(target_amount_msat - fee.fee_amount_msat)
    } else {
        Err(Error::ReqwestError("the LSP fee exceeds the swap amount".to_owned()))
    }
}

/// Builds the proposal request that submits the local invoice and consumes
/// the fee quote.
pub fn lsp_proposal_request(fee: &LspFeeResponse, node_invoice: &Invoice) -> (r: LspProposalRequest)
    ensures
        r.bolt11@ == node_invoice.bolt11@,
        r.fee_id@ == fee.id@,
{
    LspProposalRequest { bolt11: node_invoice.bolt11.clone(), fee_id: fee.id.clone() }
}

} // verus!
