//! Read-only channel projections and the channel lifecycle decisions.
//!
//! Channels are owned and mutated by the Lightning engine; this crate only
//! reads snapshots of them and plans lifecycle commands that reference a
//! channel by its process-local id.

use vstd::prelude::*;

use crate::config::{DEFAULT_OPEN_PEER_ADDRESS, DEFAULT_OPEN_PEER_PUBKEY};
use crate::encoding::{bytes_to_lower_hex, format_user_channel_id, hex_of_bytes, u128_be_bytes};
use crate::errors::{Error, RequestError};
use crate::requests::OpenChannel;

verus! {

/// The funding transaction output of a channel.
#[derive(Debug, Clone, PartialEq, Eq)]
pub struct FundingOutpoint {
    /// Transaction id, as 32 bytes.
    pub txid: Vec<u8>,
    /// Index of the output within that transaction.
    pub vout: u32,
}

/// A read-only projection of one channel, as the Lightning engine reports it.
#[derive(Debug, Clone, PartialEq, Eq)]
pub struct ChannelSnapshot {
    /// The engine's 32-byte channel id.
    pub channel_id: Vec<u8>,
    /// The counterparty's node id, as 33 serialized public-key bytes.
    pub counterparty_node_id: Vec<u8>,
    /// The funding output, once negotiated.
    pub funding_txo: Option<FundingOutpoint>,
    /// The channel's value as it appears in the funding output, in satoshis.
    pub channel_value_sats: u64,
    /// The reserve that must stay in the channel, in satoshis, once the
    /// counterparty has accepted the channel.
    pub unspendable_punishment_reserve: Option<u64>,
    /// The process-local 128-bit id used to address the channel.
    pub user_channel_id: u128,
    /// What the channel can currently send, in millisatoshis.
    pub outbound_capacity_msat: u64,
    /// What the channel can currently receive, in millisatoshis.
    pub inbound_capacity_msat: u64,
    /// Whether both parties have exchanged readiness messages.
    pub is_channel_ready: bool,
}

/// Holds when some single channel can receive strictly more than
/// `amount_sat` satoshis.
///
/// The comparison is strict: a request exactly equal to the largest inbound
/// capacity is not considered covered.
pub open spec fn has_inbound_for(channels: Seq<ChannelSnapshot>, amount_sat: u64) -> bool {
    exists|i: int|
        0 <= i < channels.len() && channels[i].inbound_capacity_msat / 1000 > amount_sat
}

/// Decides whether current inbound capacity covers a receive of
/// `amount_sat`.
pub fn inbound_for_amount(channels: &Vec<ChannelSnapshot>, amount_sat: u64) -> (r: bool)
    ensures
        r == has_inbound_for(channels@, amount_sat),
{
    let mut i: usize = 0;
    while i < channels.len()
        invariant
            0 <= i <= channels@.len(),
            forall|j: int|
                0 <= j < i ==> !(channels@[j].inbound_capacity_msat / 1000 > amount_sat),
        decreases channels@.len() - i,
    {
        if channels[i].inbound_capacity_msat / 1000 > amount_sat {
            return true;
        }
        i = i + 1;
    }
    false
}

/// An amount some channel can receive fits in millisatoshis: the channel's
/// own millisatoshi capacity, a 64-bit value, strictly bounds it.
pub proof fn lemma_covered_amount_fits_msat(channels: Seq<ChannelSnapshot>, amount_sat: u64)
    requires
        has_inbound_for(channels, amount_sat),
    ensures
        amount_sat * 1000 <= u64::MAX,
{
    let i = choose|i: int|
        0 <= i < channels.len() && channels[i].inbound_capacity_msat / 1000 > amount_sat;
    let capacity = channels[i].inbound_capacity_msat;
    assert(amount_sat + 1 <= capacity / 1000);
    assert((capacity / 1000) * 1000 <= capacity) by {
        vstd::arithmetic::div_mod::lemma_fundamental_div_mod(capacity as int, 1000);
    }
    assert(amount_sat * 1000 + 1000 <= capacity);
}

/// Holds when some channel in the list carries the given process-local id.
pub open spec fn has_channel_with_id(channels: Seq<ChannelSnapshot>, user_channel_id: u128) -> bool {
    exists|i: int| 0 <= i < channels.len() && channels[i].user_channel_id == user_channel_id
}

/// Finds the channel a close request refers to.
///
/// Returns the index of the first channel carrying the id, whose
/// counterparty the close commands must name, or `ChannelNotExist` exactly
/// when the id is unknown: an unknown id causes no close call at all.
pub fn find_channel_by_user_id(channels: &Vec<ChannelSnapshot>, user_channel_id: u128) -> (r:
    Result<usize, Error>)
    ensures
        match r {
            Ok(i) => has_channel_with_id(channels@, user_channel_id) && 0 <= i < channels@.len()
                && channels@[i as int].user_channel_id == user_channel_id && (forall|j: int|
                0 <= j < i ==> channels@[j].user_channel_id != user_channel_id),
            Err(e) => e == Error::ChannelNotExist && !has_channel_with_id(
                channels@,
                user_channel_id,
            ),
        },
{
    let mut i: usize = 0;
    while i < channels.len()
        invariant
            0 <= i <= channels@.len(),
            forall|j: int| 0 <= j < i ==> channels@[j].user_channel_id != user_channel_id,
        decreases channels@.len() - i,
    {
        if channels[i].user_channel_id == user_channel_id {
            return Ok(i);
        }
        i = i + 1;
    }
    Err(Error::ChannelNotExist)
}

/// The stable external shape a channel is reported in: ids rendered as
/// lower-case hexadecimal, capacities in satoshis.
#[derive(Debug, Clone, PartialEq, Eq)]
pub struct ChannelInfo {
    /// The engine's channel id, in lower-case hexadecimal.
    pub channel_id: String,
    /// The counterparty's node id, in lower-case hexadecimal.
    pub counterparty_node_id: String,
    /// The funding output, once negotiated.
    pub funding_txo: Option<FundingOutpoint>,
    /// The channel's value as it appears in the funding output, in satoshis.
    pub channel_value_sats: u64,
    /// The reserve that must stay in the channel, in satoshis.
    pub unspendable_punishment_reserve: Option<u64>,
    /// The process-local channel id, as 32 hexadecimal digits.
    pub user_channel_id: String,
    /// Outbound capacity in whole satoshis; sub-satoshi remainders are
    /// dropped, not rounded.
    pub outbound_capacity_sat: u64,
    /// Inbound capacity in whole satoshis; sub-satoshi remainders are
    /// dropped, not rounded.
    pub inbound_capacity_sat: u64,
    /// Whether both parties have exchanged readiness messages.
    pub is_channel_ready: bool,
}

/// How the external shape relates to the engine's snapshot: ids are the
/// lower-case hexadecimal of their bytes, and each millisatoshi capacity is
/// converted to satoshis by truncating division.
pub open spec fn channel_info_matches(info: ChannelInfo, ch: ChannelSnapshot) -> bool {
    &&& info.channel_id@ == hex_of_bytes(ch.channel_id@)
    &&& info.counterparty_node_id@ == hex_of_bytes(ch.counterparty_node_id@)
    &&& (match (info.funding_txo, ch.funding_txo) {
        (Some(a), Some(b)) => a.txid@ == b.txid@ && a.vout == b.vout,
        (None, None) => true,
        _ => false,
    })
    &&& info.channel_value_sats == ch.channel_value_sats
    &&& info.unspendable_punishment_reserve == ch.unspendable_punishment_reserve
    &&& info.user_channel_id@ == hex_of_bytes(u128_be_bytes(ch.user_channel_id))
    &&& info.outbound_capacity_sat == ch.outbound_capacity_msat / 1000
    &&& info.inbound_capacity_sat == ch.inbound_capacity_msat / 1000
}

fn copy_bytes(v: &Vec<u8>) -> (r: Vec<u8>)
    ensures
        r@ == v@,
{
    let mut r: Vec<u8> = Vec::new();
    let mut i: usize = 0;
    while i < v.len()
        invariant
            0 <= i <= v@.len(),
            r@ == v@.subrange(0, i as int),
        decreases v@.len() - i,
    {
        r.push(v[i]);
        i = i + 1;
        proof {
            assert(r@ =~= v@.subrange(0, i as int));
        }
    }
    proof {
        assert(v@.subrange(0, v@.len() as int) =~= v@);
    }
    r
}

/// Projects one channel snapshot into its stable external shape.
pub fn channel_info_from(ch: &ChannelSnapshot) -> (r: ChannelInfo)
    ensures
        channel_info_matches(r, *ch),
        r.is_channel_ready == ch.is_channel_ready,
{
    let funding_txo: Option<FundingOutpoint> = match &ch.funding_txo {
        Some(o) => Some(FundingOutpoint { txid: copy_bytes(&o.txid), vout: o.vout }),
        None => None,
    };
    ChannelInfo {
        channel_id: bytes_to_lower_hex(&ch.channel_id),
        counterparty_node_id: bytes_to_lower_hex(&ch.counterparty_node_id),
        funding_txo,
        channel_value_sats: ch.channel_value_sats,
        unspendable_punishment_reserve: ch.unspendable_punishment_reserve,
        user_channel_id: format_user_channel_id(ch.user_channel_id),
        outbound_capacity_sat: ch.outbound_capacity_msat / 1000,
        inbound_capacity_sat: ch.inbound_capacity_msat / 1000,
        is_channel_ready: ch.is_channel_ready,
    }
}

/// Projects every known channel into its stable external shape, in the
/// engine's order.
pub fn list_channel_infos(channels: &Vec<ChannelSnapshot>) -> (r: Vec<ChannelInfo>)
    ensures
        r@.len() == channels@.len(),
        forall|i: int|
            0 <= i < channels@.len() ==> channel_info_matches(#[trigger] r@[i], channels@[i])
                && r@[i].is_channel_ready == channels@[i].is_channel_ready,
{
    let mut r: Vec<ChannelInfo> = Vec::new();
    let mut i: usize = 0;
    while i < channels.len()
        invariant
            0 <= i <= channels@.len(),
            r@.len() == i,
            forall|j: int|
                0 <= j < i ==> channel_info_matches(#[trigger] r@[j], channels@[j])
                    && r@[j].is_channel_ready == channels@[j].is_channel_ready,
        decreases channels@.len() - i,
    {
        let info = channel_info_from(&channels[i]);
        r.push(info);
        i = i + 1;
    }
    r
}

/// Whether the outside parser accepts the string as a serialized public key.
pub uninterp spec fn public_key_valid(s: Seq<char>) -> bool;

/// Whether the outside parser accepts the string as a peer network address.
pub uninterp spec fn socket_address_valid(s: Seq<char>) -> bool;

/// Relies on secp256k1's `PublicKey::from_str`: whether the string parses as
/// a public key depends on the string alone.
#[verifier::external_body]
fn is_valid_public_key(s: &str) -> (r: bool)
    ensures
        r == public_key_valid(s@),
{
    <secp256k1::PublicKey as core::str::FromStr>::from_str(s).is_ok()
}

/// Relies on ldk-node's `SocketAddress::from_str`: whether the string parses
/// as a peer network address depends on the string alone.
#[verifier::external_body]
fn is_valid_socket_address(s: &str) -> (r: bool)
    ensures
        r == socket_address_valid(s@),
{
    <ldk_node::lightning::ln::msgs::SocketAddress as core::str::FromStr>::from_str(s).is_ok()
}

/// A validated open-channel command for the engine: the peer to connect to
/// and the channel's funding amount.
#[derive(Debug, Clone, PartialEq, Eq)]
pub struct OpenChannelPlan {
    /// The funding amount, in satoshis.
    pub amount_sat: u64,
    /// The peer's node id, serialized.
    pub node_pubkey: String,
    /// The peer's network address.
    pub node_address: String,
}

/// Whether the request's peer id, if given, parses as a public key.
pub open spec fn open_request_pubkey_ok(pubkey: Option<String>) -> bool {
    match pubkey {
        Some(p) => public_key_valid(p@),
        None => true,
    }
}

/// Whether the request's peer address, if given, parses as a network
/// address.
pub open spec fn open_request_address_ok(address: Option<String>) -> bool {
    match address {
        Some(a) => socket_address_valid(a@),
        None => true,
    }
}

/// Plans an open-channel command: a supplied peer id or address must parse,
/// and a missing one falls back to the configured default peer.
pub fn plan_open_channel(req: OpenChannel) -> (r: Result<OpenChannelPlan, RequestError>)
    ensures
        !open_request_pubkey_ok(req.node_pubkey) ==> r == Err::<OpenChannelPlan, RequestError>(
            RequestError::InvalidPublicKey,
        ),
        open_request_pubkey_ok(req.node_pubkey) && !open_request_address_ok(req.node_address)
            ==> r == Err::<OpenChannelPlan, RequestError>(RequestError::InvalidAddress),
        open_request_pubkey_ok(req.node_pubkey) && open_request_address_ok(req.node_address) ==> (
        r matches Ok(plan) && plan.amount_sat == req.amount_sat && (match req.node_pubkey {
            Some(p) => plan.node_pubkey@ == p@,
            None => plan.node_pubkey@ == DEFAULT_OPEN_PEER_PUBKEY@,
        }) && (match req.node_address {
            Some(a) => plan.node_address@ == a@,
            None => plan.node_address@ == DEFAULT_OPEN_PEER_ADDRESS@,
        })),
{
    let amount_sat = req.amount_sat;
    let pubkey: String = match req.node_pubkey {
        Some(p) => {
            if !is_valid_public_key(p.as_str()) {
                return Err(RequestError::InvalidPublicKey);
            }
            p
        },
        None => DEFAULT_OPEN_PEER_PUBKEY.to_owned(),
    };
    let address: String = match req.node_address {
        Some(a) => {
            if !is_valid_socket_address(a.as_str()) {
                return Err(RequestError::InvalidAddress);
            }
            a
        },
        None => DEFAULT_OPEN_PEER_ADDRESS.to_owned(),
    };
    Ok(OpenChannelPlan { amount_sat, node_pubkey: pubkey, node_address: address })
}

/// The close command to issue next.
#[derive(Debug, Clone, Copy, PartialEq, Eq, Structural)]
pub enum CloseStep {
    /// The cooperative close succeeded; nothing more to do.
    Done,
    /// The cooperative close failed; issue a unilateral force close with the
    /// same counterparty.
    ForceClose,
}

/// Decides what follows the cooperative close attempt: a failed cooperative
/// close falls back to a force close, a successful one ends the operation.
pub fn close_fallback(cooperative_close_succeeded: bool) -> (r: CloseStep)
    ensures
        r == CloseStep::Done <==> cooperative_close_succeeded,
{
    if cooperative_close_succeeded {
        CloseStep::Done
    } else {
        CloseStep::ForceClose
    }
}

} // verus!
