use vstd::prelude::*;

verus! {

/// The distinct, named failure conditions of the four handlers.
///
/// Every rejected operation surfaces one of these, so a caller can tell a
/// wrong state from a wrong account from an insufficient balance.
#[derive(Clone, Copy, Debug, PartialEq, Eq, Structural)]
pub enum ErrorCode {
    /// Cancel was attempted after the record was released.
    CancelReleasedAccountError,
    /// Withdraw was attempted while the record is not yet released.
    WithdrawUnreleasedAccountError,
    /// An account's asset class differs from the one the record binds.
    MintMismatchError,
    /// The deposit amount is zero or exceeds the source account's balance.
    InsufficientDepositAmountError,
    /// The acting party or account owner is not the recorded depositor.
    GiverMismatchError,
    /// The acting party or account owner is not the recorded counterparty.
    TakerMismatchError,
    /// The refund account is not the one recorded at deposit time.
    RefundAccountMismatchError,
    /// The custody account's authority is not the escrow record.
    VaultTokenAccountOwnerMismatchError,
    /// A claimed address does not re-derive from its seeds and bump.
    DerivationMismatchError,
    /// The transfer would overflow the destination account's balance.
    AmountOverflowError,
    /// No escrow record exists where one was expected.
    EscrowAccountNotFoundError,
    /// An escrow record already exists where a new one was to be created.
    EscrowAccountInUseError,
}

} // verus!
