//! The aggregated balance snapshot over both settlement rails.

use vstd::prelude::*;

verus! {

/// A point-in-time snapshot of the wallet's balances, in satoshis.
///
/// Each sub-balance is read independently from its rail; the snapshot is not
/// transactionally consistent across the two rails.
#[derive(Debug, Clone, Copy, PartialEq, Eq, Structural)]
pub struct Balance {
    /// Spendable ecash issued by the mint.
    pub cashu_balance: u64,
    /// Total balance held in Lightning channels.
    pub lightning_balance: u64,
    /// Total on-chain balance of the channel engine's wallet.
    pub onchain_balance: u64,
    /// The part of the on-chain balance that is currently spendable.
    pub spendable_onchain_balance: u64,
}

/// Combines the independently read sub-balances into one snapshot.
pub fn aggregate_balance(
    cashu_balance: u64,
    lightning_balance: u64,
    onchain_balance: u64,
    spendable_onchain_balance: u64,
) -> (r: Balance)
    ensures
        r == (Balance {
            cashu_balance,
            lightning_balance,
            onchain_balance,
            spendable_onchain_balance,
        }),
{
    Balance { cashu_balance, lightning_balance, onchain_balance, spendable_onchain_balance }
}

} // verus!
