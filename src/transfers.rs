use vstd::prelude::*;

use crate::keys::Pubkey;

verus! {

/// A move of native value (in its smallest unit) from one address to another.
#[derive(Clone, Copy, Debug, PartialEq, Eq)]
pub struct NativeTransfer {
    pub from: Pubkey,
    pub to: Pubkey,
    pub lamports: u64,
}

/// A native transfer out of the vault, authorised by the vault's derivation
/// seeds (the buyer's address and the stored bump) rather than by a signature.
#[derive(Clone, Copy, Debug, PartialEq, Eq)]
pub struct VaultTransfer {
    pub transfer: NativeTransfer,
    pub seed_owner: Pubkey,
    pub bump: u8,
}

/// A token transfer of `amount` smallest units, authorised by `authority`.
#[derive(Clone, Copy, Debug, PartialEq, Eq)]
pub struct TokenTransfer {
    pub from: Pubkey,
    pub to: Pubkey,
    pub authority: Pubkey,
    pub amount: u64,
}

} // verus!
