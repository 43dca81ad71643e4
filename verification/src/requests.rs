//! The request payloads of the wallet's operation surface, and their
//! validation before any wallet operation runs.
//!
//! The transport that carries these payloads lives outside the crate and
//! hands them over as plain values; every rejection of a malformed request
//! is decided here.

use vstd::prelude::*;

use crate::encoding::{
    dec_seq_value, hex_seq_value, is_dec_seq, is_hex_seq, parse_hex_u128, parse_u64_decimal,
};
use crate::errors::RequestError;
use crate::invoice::{bolt11_valid, parse_bolt11, Invoice};

verus! {

/// A pay request: the payment request string to settle.
#[derive(Debug, Clone, PartialEq, Eq)]
pub struct InvoiceRequest {
    /// The encoded payment request.
    pub invoice: String,
}

/// An ecash-receive request: the bearer token to redeem.
#[derive(Debug, Clone, PartialEq, Eq)]
pub struct ReceiveEcash {
    /// The encoded ecash token.
    pub ecash: String,
}

/// An open-channel request; a missing peer id or address falls back to the
/// configured default peer.
#[derive(Debug, Clone, PartialEq, Eq)]
pub struct OpenChannel {
    /// The funding amount, in satoshis.
    pub amount_sat: u64,
    /// The peer to open the channel to, serialized, if not the default.
    pub node_pubkey: Option<String>,
    /// That peer's network address, if not the default.
    pub node_address: Option<String>,
}

/// A close-channel request: the process-local channel id, rendered in
/// hexadecimal.
#[derive(Debug, Clone, PartialEq, Eq)]
pub struct CloseChannel {
    /// The channel's process-local id, as 32 hexadecimal digits.
    pub channel_id: String,
}

/// An on-chain send request.
#[derive(Debug, Clone, PartialEq, Eq)]
pub struct SendToAddress {
    /// The destination address.
    pub address: String,
    /// The amount to send, in satoshis.
    pub amount_sat: u64,
}

/// Parses the amount parameter of a receive, swap or ecash-send call: it
/// must be present and denote a decimal number within the amount range.
pub fn parse_amount_param(param: Option<&String>) -> (r: Result<u64, RequestError>)
    ensures
        param is None ==> r == Err::<u64, RequestError>(RequestError::MissingAmount),
        param matches Some(s) ==> {
            if is_dec_seq(s@) && dec_seq_value(s@) <= u64::MAX {
                r == Ok::<u64, RequestError>((dec_seq_value(s@)) as u64)
            } else {
                r == Err::<u64, RequestError>(RequestError::InvalidAmount)
            }
        },
{
    match param {
        Some(s) => match parse_u64_decimal(s.as_str()) {
            Some(v) => Ok(v),
            None => Err(RequestError::InvalidAmount),
        },
        None => Err(RequestError::MissingAmount),
    }
}

/// Parses the payment request of a pay call, rejecting a string the parser
/// does not accept before any rail is contacted.
pub fn parse_invoice_request(req: &InvoiceRequest) -> (r: Result<Invoice, RequestError>)
    ensures
        r is Ok <==> bolt11_valid(req.invoice@),
        r matches Ok(inv) ==> inv.wf() && inv.bolt11@ == req.invoice@,
        r is Err ==> r == Err::<Invoice, RequestError>(RequestError::InvalidInvoice),
{
    match parse_bolt11(req.invoice.as_str()) {
        Some(inv) => Ok(inv),
        None => Err(RequestError::InvalidInvoice),
    }
}

/// Whether the outside parser accepts the string as an on-chain address
/// tagged for the signet network this wallet runs on.
pub uninterp spec fn signet_address_valid(s: Seq<char>) -> bool;

/// Relies on bitcoin's `Address::from_str` (re-exported by ldk-node) and
/// `Address::is_valid_for_network`: whether the string is an address usable
/// on the signet network depends on the string alone.
#[verifier::external_body]
fn is_valid_signet_address(s: &str) -> (r: bool)
    ensures
        r == signet_address_valid(s@),
{
    match s.parse::<ldk_node::bitcoin::Address<ldk_node::bitcoin::address::NetworkUnchecked>>() {
        Ok(address) => address.is_valid_for_network(ldk_node::bitcoin::Network::Signet),
        Err(_) => false,
    }
}

/// Validates an on-chain send before it is forwarded: the destination must
/// be an address tagged for the network in use, and only such a send hands
/// its amount on.
pub fn parse_send_to_address_request(req: &SendToAddress) -> (r: Result<u64, RequestError>)
    ensures
        r is Ok <==> signet_address_valid(req.address@),
        r matches Ok(v) ==> v == req.amount_sat,
        !signet_address_valid(req.address@) ==> r == Err::<u64, RequestError>(
            RequestError::InvalidAddress,
        ),
{
    if is_valid_signet_address(req.address.as_str()) {
        Ok(req.amount_sat)
    } else {
        Err(RequestError::InvalidAddress)
    }
}

/// Parses the channel id of a close call: exactly 32 hexadecimal digits,
/// read as the 128-bit process-local id, most significant digit first.
pub fn parse_close_channel_request(req: &CloseChannel) -> (r: Result<u128, RequestError>)
    ensures
        r is Ok <==> req.channel_id@.len() == 32 && is_hex_seq(req.channel_id@),
        r matches Ok(v) ==> v as int == hex_seq_value(req.channel_id@),
        r is Err ==> r == Err::<u128, RequestError>(RequestError::InvalidChannelId),
{
    match parse_hex_u128(req.channel_id.as_str()) {
        Some(v) => Ok(v),
        None => Err(RequestError::InvalidChannelId),
    }
}

} // verus!
