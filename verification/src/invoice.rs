//! The wallet's model of a Lightning payment request.
//!
//! A payment request travels as an encoded string. What this crate's logic
//! reads from it — whether the string is a valid request, and which amount it
//! carries — is computed by an outside parser and named here, so that every
//! decision about an invoice is stated over those names.

use vstd::prelude::*;

verus! {

/// Whether the outside parser accepts the string as a well-formed, correctly
/// signed payment request.
pub uninterp spec fn bolt11_valid(s: Seq<char>) -> bool;

/// The destination amount, in millisatoshis, that the parser reads from the
/// string; `None` when it reads no amount — an amountless request, or one
/// whose written amount does not fit the millisatoshi range.
pub uninterp spec fn bolt11_amount_msat(s: Seq<char>) -> Option<u64>;

/// A parsed Lightning payment request.
///
/// It carries a destination amount, which may be absent ("amountless" —
/// operations that need the amount fail on such an invoice), and keeps its
/// encoded form for the rails that settle it.
#[derive(Debug, Clone, PartialEq, Eq)]
pub struct Invoice {
    /// The encoded payment request.
    pub bolt11: String,
    /// The destination amount in millisatoshis, absent on an amountless
    /// request.
    pub amount_msat: Option<u64>,
}

impl Invoice {
    /// The value stands for a payment request the parser accepted, and
    /// carries exactly that request's amount.
    pub open spec fn wf(self) -> bool {
        &&& bolt11_valid(self.bolt11@)
        &&& self.amount_msat == bolt11_amount_msat(self.bolt11@)
    }
}

/// Relies on lightning-invoice's `Bolt11Invoice::from_str` (re-exported by
/// cdk), which accepts exactly the well-formed, correctly signed payment
/// requests, and on `Bolt11Invoice::amount_milli_satoshis`, which reads the
/// request's amount field; both results depend on the string alone.
#[verifier::external_body]
pub(crate) fn parse_bolt11(s: &str) -> (r: Option<Invoice>)
    ensures
        r.is_some() == bolt11_valid(s@),
        r matches Some(inv) ==> inv.bolt11@ == s@ && inv.amount_msat == bolt11_amount_msat(s@),
{
    match <cdk::Bolt11Invoice as core::str::FromStr>::from_str(s) {
        Ok(parsed) => Some(
            Invoice { bolt11: s.to_string(), amount_msat: parsed.amount_milli_satoshis() },
        ),
        Err(_) => None,
    }
}

} // verus!
