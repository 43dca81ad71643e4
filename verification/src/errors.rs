//! Failure kinds of the wallet operations and of request parsing.

use vstd::prelude::*;

verus! {

/// Failure of a wallet operation.
///
/// The first five kinds are decisions of this crate; the last three carry a
/// message from the channel engine, the ecash client or the HTTP transport,
/// surfaced verbatim.
#[derive(Debug, Clone, PartialEq, Eq)]
pub enum Error {
    /// The requested payment or swap exceeds the usable balance on every
    /// attempted rail.
    InsufficientFunds,
    /// No channel capacity is available for a swap whose amount is at or
    /// above the channel-opening threshold.
    InsufficientInboundForSwap,
    /// A swap amount lies below the minimum channel-opening threshold.
    AmountTooLowForChannel,
    /// A melt did not reach the paid terminal state.
    MintCouldNotPayInvoice,
    /// A close was requested for a channel id that is not currently known.
    ChannelNotExist,
    /// The invoice to pay carries no amount; amountless invoices are not
    /// supported.
    AmountlessInvoice,
    /// An error of the Lightning channel engine, surfaced verbatim.
    NodeStart(String),
    /// An error of the ecash client, surfaced verbatim.
    CdkError(String),
    /// An error of the LSP's HTTP transport, surfaced verbatim.
    ReqwestError(String),
}

/// The human-readable message of each failure kind.
pub open spec fn spec_error_message(e: Error) -> Seq<char> {
    match e {
        Error::InsufficientFunds => "insufficient funds"@,
        Error::InsufficientInboundForSwap => "insufficient inbound liquidity to make swap"@,
        Error::AmountTooLowForChannel => "amount too low to create channel"@,
        Error::MintCouldNotPayInvoice => "mint could not pay invoice for swap"@,
        Error::ChannelNotExist => "channel does not exist"@,
        Error::AmountlessInvoice => "amountless invoices are not supported"@,
        Error::NodeStart(m) => m@,
        Error::CdkError(m) => m@,
        Error::ReqwestError(m) => m@,
    }
}

impl Error {
    /// The message a failed operation reports to its caller.
    pub fn message(&self) -> (r: String)
        ensures
            r@ == spec_error_message(*self),
    {
        match self {
            Error::InsufficientFunds => "insufficient funds".to_owned(),
            Error::InsufficientInboundForSwap => {
                "insufficient inbound liquidity to make swap".to_owned()
            },
            Error::AmountTooLowForChannel => "amount too low to create channel".to_owned(),
            Error::MintCouldNotPayInvoice => "mint could not pay invoice for swap".to_owned(),
            Error::ChannelNotExist => "channel does not exist".to_owned(),
            Error::AmountlessInvoice => "amountless invoices are not supported".to_owned(),
            Error::NodeStart(m) => m.clone(),
            Error::CdkError(m) => m.clone(),
            Error::ReqwestError(m) => m.clone(),
        }
    }
}

/// Rejection of a malformed request before any wallet operation runs.
#[derive(Debug, Clone, Copy, PartialEq, Eq, Structural)]
pub enum RequestError {
    /// A request that needs an amount names none.
    MissingAmount,
    /// The amount parameter is not a decimal number that fits the amount
    /// range.
    InvalidAmount,
    /// The payment request string is not a valid invoice.
    InvalidInvoice,
    /// The peer id is not a valid public key.
    InvalidPublicKey,
    /// The peer address is not a valid network address.
    InvalidAddress,
    /// The channel id is not a 32-digit hexadecimal string.
    InvalidChannelId,
}

/// The human-readable message of each request rejection.
pub open spec fn spec_request_error_message(e: RequestError) -> Seq<char> {
    match e {
        RequestError::MissingAmount => "amount not specified"@,
        RequestError::InvalidAmount => "invalid amount"@,
        RequestError::InvalidInvoice => "invalid invoice"@,
        RequestError::InvalidPublicKey => "invalid public key"@,
        RequestError::InvalidAddress => "invalid address"@,
        RequestError::InvalidChannelId => "invalid channel id"@,
    }
}

impl RequestError {
    /// The message a rejected request reports to its caller.
    pub fn message(&self) -> (r: String)
        ensures
            r@ == spec_request_error_message(*self),
    {
        match self {
            RequestError::MissingAmount => "amount not specified".to_owned(),
            RequestError::InvalidAmount => "invalid amount".to_owned(),
            RequestError::InvalidInvoice => "invalid invoice".to_owned(),
            RequestError::InvalidPublicKey => "invalid public key".to_owned(),
            RequestError::InvalidAddress => "invalid address".to_owned(),
            RequestError::InvalidChannelId => "invalid channel id".to_owned(),
        }
    }
}

} // verus!
