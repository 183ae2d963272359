use vstd::prelude::*;
use crate::keys::Key;

verus! {

/// A fungible-asset account: an address, the asset class it holds, the
/// authority that controls it, and its balance.
#[derive(Clone, Copy, Debug, PartialEq, Eq)]
pub struct TokenAccount {
    /// The account's own address.
    pub key: Key,
    /// The asset class held by the account.
    pub mint: Key,
    /// The authority allowed to move or close the account.
    pub owner: Key,
    /// The balance, in base units of the asset.
    pub amount: u64,
}

/// The persistent record of one escrow: its parties, asset, amount,
/// derivation proofs and release state.
#[derive(Clone, Copy, Debug, PartialEq, Eq)]
pub struct EscrowAccount {
    /// The escrowed quantity, fixed at deposit time.
    pub amount: u64,
    /// The asset class every account presented against this record must hold.
    pub mint_key: Key,
    /// Disambiguates concurrent escrows of one depositor; part of the
    /// record's derivation seed.
    pub nonce: u64,
    /// The depositor: may release, and may cancel before release.
    pub giver_key: Key,
    /// The counterparty: may withdraw after release.
    pub taker_key: Key,
    /// The account that must receive the funds on cancellation, fixed at
    /// deposit time.
    pub refund_token_account: Key,
    /// Proof that the record's own address derives from the depositor's key
    /// and the nonce.
    pub escrow_account_bump: u8,
    /// Proof that the custody account's address derives from the record's
    /// address.
    pub vault_token_account_bump: u8,
    /// The only field that ever changes: set once by the release handler.
    pub is_released: bool,
}

/// The scalar arguments of a deposit instruction.
#[derive(Clone, Copy, Debug, PartialEq, Eq)]
pub struct DepositArgs {
    /// Disambiguates this escrow among the depositor's escrows.
    pub nonce: u64,
    /// The quantity to lock; must be positive and covered by the source.
    pub amount: u64,
    /// Derivation proof for the custody account's address.
    pub vault_token_account_bump: u8,
    /// Derivation proof for the record's address.
    pub escrow_account_bump: u8,
}

} // verus!
