//! Configuration values of the routing core, with their documented defaults.
//!
//! The original deployment hard-codes these; they are kept here as named
//! constants so that every decision function states which threshold or peer
//! it relies on.

use vstd::prelude::*;

verus! {

/// Smallest swap amount, in satoshis, for which a just-in-time channel is
/// requested from the LSP. Swaps below it that lack inbound capacity fail.
pub const MIN_CHANNEL_OPENING_SAT: u64 = 1_000_000;

/// Seconds the settlement poller sleeps between two checks of a mint quote.
pub const POLL_INTERVAL_SECS: u64 = 10;

/// Seconds after which the settlement poller gives up on a mint quote.
pub const POLL_TIMEOUT_SECS: u64 = 180;

/// Expiry, in seconds, of every receive invoice requested from the channel
/// engine.
pub const INVOICE_EXPIRY_SECS: u32 = 3600;

/// Node id of the default peer a channel is opened to when the caller names
/// none.
pub const DEFAULT_OPEN_PEER_PUBKEY: &'static str =
    "02465ed5be53d04fde66c9418ff14a5f2267723810176c9212b722e542dc1afb1b";

/// Network address of the default peer a channel is opened to when the
/// caller names none.
pub const DEFAULT_OPEN_PEER_ADDRESS: &'static str = "45.79.52.207:9735";

} // verus!
