//! Routing core of a hybrid Lightning/ecash wallet.
//!
//! A single balance is backed by two settlement rails: a Lightning channel
//! engine and an ecash mint client. This crate holds the verified decision
//! logic: which rail serves a receive, a payment or a liquidity swap, how an
//! ecash-backed receive is settled by a bounded polling task, and how channel
//! lifecycle requests are planned. The engines themselves, the LSP transport
//! and all I/O live outside the crate and drive these functions with plain
//! values.

pub mod balance;
pub mod channels;
pub mod config;
pub mod encoding;
pub mod errors;
pub mod invoice;
pub mod lsp;
pub mod poller;
pub mod requests;
pub mod router;
