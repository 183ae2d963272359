use vstd::prelude::*;
use crate::accounts::{DepositArgs, EscrowAccount, TokenAccount};
use crate::derivation::{
    check_escrow_address, check_vault_address, escrow_address_ok, vault_address_ok,
};
use crate::errors::ErrorCode;
use crate::keys::{Key, key_eq};

verus! {

/// The accounts of a deposit instruction.  The depositor (`giver`) is the
/// instruction's authorizing signer; `escrow_account` and
/// `vault_token_account` are the record and custody account being created,
/// the latter already carrying its claimed address in `key`.
#[derive(Clone, Copy, Debug, PartialEq, Eq)]
pub struct Deposit {
    /// The program id under which all addresses derive.
    pub program_id: Key,
    /// The asset class being escrowed.
    pub mint: Key,
    /// The depositor; the host has verified this party signed.
    pub giver: Key,
    /// The counterparty entitled to withdraw after release.
    pub taker: Key,
    /// The depositor's source account; also the recorded refund destination.
    pub giver_token_account: TokenAccount,
    /// The claimed address of the record being created.
    pub escrow_account_key: Key,
    /// The record being created; populated on success.
    pub escrow_account: EscrowAccount,
    /// The custody account being created; initialized on success.
    pub vault_token_account: TokenAccount,
}

/// The accounts of a release instruction.  The depositor is the signer.
#[derive(Clone, Copy, Debug, PartialEq, Eq)]
pub struct Release {
    /// The party acting; the host has verified this party signed.
    pub giver: Key,
    /// The record being released.
    pub escrow_account: EscrowAccount,
}

/// The accounts of a cancel instruction.  The depositor is the signer.
#[derive(Clone, Copy, Debug, PartialEq, Eq)]
pub struct Cancel {
    /// The program id under which all addresses derive.
    pub program_id: Key,
    /// The party acting; the host has verified this party signed.
    pub giver: Key,
    /// The account to receive the refund.
    pub refund_token_account: TokenAccount,
    /// The custody account holding the escrowed funds.
    pub vault_token_account: TokenAccount,
    /// The claimed address of the record.
    pub escrow_account_key: Key,
    /// The record being cancelled.
    pub escrow_account: EscrowAccount,
}

/// The accounts of a withdraw instruction.  The counterparty is the signer;
/// the depositor receives the reclaimed storage, not the funds.
#[derive(Clone, Copy, Debug, PartialEq, Eq)]
pub struct Withdraw {
    /// The program id under which all addresses derive.
    pub program_id: Key,
    /// The recorded depositor, target of the reclaimed storage.
    pub giver: Key,
    /// The party acting; the host has verified this party signed.
    pub taker: Key,
    /// The counterparty's account to receive the funds.
    pub taker_token_account: TokenAccount,
    /// The custody account holding the escrowed funds.
    pub vault_token_account: TokenAccount,
    /// The claimed address of the record.
    pub escrow_account_key: Key,
    /// The record being withdrawn from.
    pub escrow_account: EscrowAccount,
}

/// The deposit handler's decision: the first violated check names the error.
pub open spec fn deposit_check(ctx: Deposit, args: DepositArgs) -> Result<(), ErrorCode> {
    if ctx.giver_token_account.mint@ != ctx.mint@ {
        Err(ErrorCode::MintMismatchError)
    } else if ctx.giver_token_account.owner@ != ctx.giver@ {
        Err(ErrorCode::GiverMismatchError)
    } else if args.amount == 0 || ctx.giver_token_account.amount < args.amount {
        Err(ErrorCode::InsufficientDepositAmountError)
    } else if !escrow_address_ok(
        ctx.program_id@,
        ctx.giver@,
        args.nonce,
        args.escrow_account_bump,
        ctx.escrow_account_key@,
    ) {
        Err(ErrorCode::DerivationMismatchError)
    } else if !vault_address_ok(
        ctx.program_id@,
        ctx.escrow_account_key@,
        args.vault_token_account_bump,
        ctx.vault_token_account.key@,
    ) {
        Err(ErrorCode::DerivationMismatchError)
    } else {
        Ok(())
    }
}

/// The state a successful deposit leaves behind: the record populated and
/// unreleased, the custody account holding exactly the amount under the
/// record's authority, and the source account debited by the amount.
pub open spec fn deposit_apply(ctx: Deposit, args: DepositArgs) -> Deposit {
    Deposit {
        giver_token_account: TokenAccount {
            amount: (ctx.giver_token_account.amount - args.amount) as u64,
            ..ctx.giver_token_account
        },
        escrow_account: EscrowAccount {
            amount: args.amount,
            mint_key: ctx.mint,
            nonce: args.nonce,
            giver_key: ctx.giver,
            taker_key: ctx.taker,
            refund_token_account: ctx.giver_token_account.key,
            escrow_account_bump: args.escrow_account_bump,
            vault_token_account_bump: args.vault_token_account_bump,
            is_released: false,
        },
        vault_token_account: TokenAccount {
            key: ctx.vault_token_account.key,
            mint: ctx.mint,
            owner: ctx.escrow_account_key,
            amount: args.amount,
        },
        ..ctx
    }
}

/// Deposit: create the record and the custody account, and move the amount
/// from the source into custody — atomically, with every check ahead of any
/// effect.
pub fn deposit(ctx: &mut Deposit, args: DepositArgs) -> (r: Result<(), ErrorCode>)
    ensures
        r == deposit_check(*old(ctx), args),
        r is Ok ==> *final(ctx) == deposit_apply(*old(ctx), args),
        r is Err ==> *final(ctx) == *old(ctx),
{
    if !key_eq(&ctx.giver_token_account.mint, &ctx.mint) {
        return Err(ErrorCode::MintMismatchError);
    }
    if !key_eq(&ctx.giver_token_account.owner, &ctx.giver) {
        return Err(ErrorCode::GiverMismatchError);
    }
    if args.amount == 0 || ctx.giver_token_account.amount < args.amount {
        return Err(ErrorCode::InsufficientDepositAmountError);
    }
    if !check_escrow_address(
        &ctx.program_id,
        &ctx.giver,
        args.nonce,
        args.escrow_account_bump,
        &ctx.escrow_account_key,
    ) {
        return Err(ErrorCode::DerivationMismatchError);
    }
    if !check_vault_address(
        &ctx.program_id,
        &ctx.escrow_account_key,
        args.vault_token_account_bump,
        &ctx.vault_token_account.key,
    ) {
        return Err(ErrorCode::DerivationMismatchError);
    }
    ctx.escrow_account = EscrowAccount {
        amount: args.amount,
        mint_key: ctx.mint,
        nonce: args.nonce,
        giver_key: ctx.giver,
        taker_key: ctx.taker,
        refund_token_account: ctx.giver_token_account.key,
        escrow_account_bump: args.escrow_account_bump,
        vault_token_account_bump: args.vault_token_account_bump,
        is_released: false,
    };
    ctx.vault_token_account = TokenAccount {
        key: ctx.vault_token_account.key,
        mint: ctx.mint,
        owner: ctx.escrow_account_key,
        amount: args.amount,
    };
    ctx.giver_token_account.amount = ctx.giver_token_account.amount - args.amount;
    Ok(())
}

/// The release handler's decision: only the recorded depositor may release.
pub open spec fn release_check(ctx: Release) -> Result<(), ErrorCode> {
    if ctx.escrow_account.giver_key@ != ctx.giver@ {
        Err(ErrorCode::GiverMismatchError)
    } else {
        Ok(())
    }
}

/// The state a successful release leaves behind: the flag set, nothing else
/// touched and no asset moved.
pub open spec fn release_apply(ctx: Release) -> Release {
    Release { escrow_account: EscrowAccount { is_released: true, ..ctx.escrow_account }, ..ctx }
}

/// Release: flag the record as released, unlocking the counterparty's
/// withdrawal right.  Idempotent on an already-released record.
pub fn release(ctx: &mut Release) -> (r: Result<(), ErrorCode>)
    ensures
        r == release_check(*old(ctx)),
        r is Ok ==> *final(ctx) == release_apply(*old(ctx)),
        r is Err ==> *final(ctx) == *old(ctx),
{
    if !key_eq(&ctx.escrow_account.giver_key, &ctx.giver) {
        return Err(ErrorCode::GiverMismatchError);
    }
    ctx.escrow_account.is_released = true;
    Ok(())
}

/// The relationship checks cancel makes on the supplied accounts, ahead of
/// the release-state check.
pub open spec fn cancel_accounts_ok(ctx: Cancel) -> bool {
    &&& ctx.refund_token_account.mint@ == ctx.escrow_account.mint_key@
    &&& ctx.vault_token_account.mint@ == ctx.escrow_account.mint_key@
    &&& ctx.vault_token_account.owner@ == ctx.escrow_account_key@
    &&& vault_address_ok(
        ctx.program_id@,
        ctx.escrow_account_key@,
        ctx.escrow_account.vault_token_account_bump,
        ctx.vault_token_account.key@,
    )
    &&& ctx.escrow_account.refund_token_account@ == ctx.refund_token_account.key@
    &&& ctx.escrow_account.giver_key@ == ctx.giver@
    &&& escrow_address_ok(
        ctx.program_id@,
        ctx.giver@,
        ctx.escrow_account.nonce,
        ctx.escrow_account.escrow_account_bump,
        ctx.escrow_account_key@,
    )
}

/// The cancel handler's decision: the first violated check names the error.
pub open spec fn cancel_check(ctx: Cancel) -> Result<(), ErrorCode> {
    if ctx.refund_token_account.mint@ != ctx.escrow_account.mint_key@ {
        Err(ErrorCode::MintMismatchError)
    } else if ctx.vault_token_account.mint@ != ctx.escrow_account.mint_key@ {
        Err(ErrorCode::MintMismatchError)
    } else if ctx.vault_token_account.owner@ != ctx.escrow_account_key@ {
        Err(ErrorCode::VaultTokenAccountOwnerMismatchError)
    } else if !vault_address_ok(
        ctx.program_id@,
        ctx.escrow_account_key@,
        ctx.escrow_account.vault_token_account_bump,
        ctx.vault_token_account.key@,
    ) {
        Err(ErrorCode::DerivationMismatchError)
    } else if ctx.escrow_account.refund_token_account@ != ctx.refund_token_account.key@ {
        Err(ErrorCode::RefundAccountMismatchError)
    } else if ctx.escrow_account.giver_key@ != ctx.giver@ {
        Err(ErrorCode::GiverMismatchError)
    } else if !escrow_address_ok(
        ctx.program_id@,
        ctx.giver@,
        ctx.escrow_account.nonce,
        ctx.escrow_account.escrow_account_bump,
        ctx.escrow_account_key@,
    ) {
        Err(ErrorCode::DerivationMismatchError)
    } else if ctx.escrow_account.is_released {
        Err(ErrorCode::CancelReleasedAccountError)
    } else if ctx.refund_token_account.amount + ctx.vault_token_account.amount > u64::MAX {
        Err(ErrorCode::AmountOverflowError)
    } else {
        Ok(())
    }
}

/// The state a successful cancel leaves behind: the full custody balance
/// moved to the refund account and the custody account emptied, ready to be
/// closed together with the record.
pub open spec fn cancel_apply(ctx: Cancel) -> Cancel {
    Cancel {
        refund_token_account: TokenAccount {
            amount: (ctx.refund_token_account.amount + ctx.vault_token_account.amount) as u64,
            ..ctx.refund_token_account
        },
        vault_token_account: TokenAccount { amount: 0, ..ctx.vault_token_account },
        ..ctx
    }
}

/// Cancel: before release only, and only for the depositor, move the full
/// custody balance back to the recorded refund account.  On success the
/// caller closes the custody account and the record, reclaiming both to the
/// depositor.
pub fn cancel(ctx: &mut Cancel) -> (r: Result<(), ErrorCode>)
    ensures
        r == cancel_check(*old(ctx)),
        r is Ok ==> *final(ctx) == cancel_apply(*old(ctx)),
        r is Err ==> *final(ctx) == *old(ctx),
{
    if !key_eq(&ctx.refund_token_account.mint, &ctx.escrow_account.mint_key) {
        return Err(ErrorCode::MintMismatchError);
    }
    if !key_eq(&ctx.vault_token_account.mint, &ctx.escrow_account.mint_key) {
        return Err(ErrorCode::MintMismatchError);
    }
    if !key_eq(&ctx.vault_token_account.owner, &ctx.escrow_account_key) {
        return Err(ErrorCode::VaultTokenAccountOwnerMismatchError);
    }
    if !check_vault_address(
        &ctx.program_id,
        &ctx.escrow_account_key,
        ctx.escrow_account.vault_token_account_bump,
        &ctx.vault_token_account.key,
    ) {
        return Err(ErrorCode::DerivationMismatchError);
    }
    if !key_eq(&ctx.escrow_account.refund_token_account, &ctx.refund_token_account.key) {
        return Err(ErrorCode::RefundAccountMismatchError);
    }
    if !key_eq(&ctx.escrow_account.giver_key, &ctx.giver) {
        return Err(ErrorCode::GiverMismatchError);
    }
    if !check_escrow_address(
        &ctx.program_id,
        &ctx.giver,
        ctx.escrow_account.nonce,
        ctx.escrow_account.escrow_account_bump,
        &ctx.escrow_account_key,
    ) {
        return Err(ErrorCode::DerivationMismatchError);
    }
    if ctx.escrow_account.is_released {
        return Err(ErrorCode::CancelReleasedAccountError);
    }
    if ctx.refund_token_account.amount > u64::MAX - ctx.vault_token_account.amount {
        return Err(ErrorCode::AmountOverflowError);
    }
    ctx.refund_token_account.amount = ctx.refund_token_account.amount
        + ctx.vault_token_account.amount;
    ctx.vault_token_account.amount = 0;
    Ok(())
}

/// The relationship checks withdraw makes on the supplied accounts, ahead of
/// the release-state and party checks.
pub open spec fn withdraw_accounts_ok(ctx: Withdraw) -> bool {
    &&& ctx.taker_token_account.owner@ == ctx.escrow_account.taker_key@
    &&& ctx.taker_token_account.mint@ == ctx.escrow_account.mint_key@
    &&& ctx.vault_token_account.mint@ == ctx.escrow_account.mint_key@
    &&& ctx.vault_token_account.owner@ == ctx.escrow_account_key@
    &&& vault_address_ok(
        ctx.program_id@,
        ctx.escrow_account_key@,
        ctx.escrow_account.vault_token_account_bump,
        ctx.vault_token_account.key@,
    )
}

/// The withdraw handler's decision: the first violated check names the error.
pub open spec fn withdraw_check(ctx: Withdraw) -> Result<(), ErrorCode> {
    if ctx.taker_token_account.owner@ != ctx.escrow_account.taker_key@ {
        Err(ErrorCode::TakerMismatchError)
    } else if ctx.taker_token_account.mint@ != ctx.escrow_account.mint_key@ {
        Err(ErrorCode::MintMismatchError)
    } else if ctx.vault_token_account.mint@ != ctx.escrow_account.mint_key@ {
        Err(ErrorCode::MintMismatchError)
    } else if ctx.vault_token_account.owner@ != ctx.escrow_account_key@ {
        Err(ErrorCode::VaultTokenAccountOwnerMismatchError)
    } else if !vault_address_ok(
        ctx.program_id@,
        ctx.escrow_account_key@,
        ctx.escrow_account.vault_token_account_bump,
        ctx.vault_token_account.key@,
    ) {
        Err(ErrorCode::DerivationMismatchError)
    } else if !ctx.escrow_account.is_released {
        Err(ErrorCode::WithdrawUnreleasedAccountError)
    } else if ctx.escrow_account.taker_key@ != ctx.taker@ {
        Err(ErrorCode::TakerMismatchError)
    } else if ctx.escrow_account.giver_key@ != ctx.giver@ {
        Err(ErrorCode::GiverMismatchError)
    } else if !escrow_address_ok(
        ctx.program_id@,
        ctx.giver@,
        ctx.escrow_account.nonce,
        ctx.escrow_account.escrow_account_bump,
        ctx.escrow_account_key@,
    ) {
        Err(ErrorCode::DerivationMismatchError)
    } else if ctx.taker_token_account.amount + ctx.vault_token_account.amount > u64::MAX {
        Err(ErrorCode::AmountOverflowError)
    } else {
        Ok(())
    }
}

/// The state a successful withdraw leaves behind: the full custody balance
/// moved to the counterparty's account and the custody account emptied,
/// ready to be closed together with the record.
pub open spec fn withdraw_apply(ctx: Withdraw) -> Withdraw {
    Withdraw {
        taker_token_account: TokenAccount {
            amount: (ctx.taker_token_account.amount + ctx.vault_token_account.amount) as u64,
            ..ctx.taker_token_account
        },
        vault_token_account: TokenAccount { amount: 0, ..ctx.vault_token_account },
        ..ctx
    }
}

/// Withdraw: after release only, and only for the recorded counterparty,
/// move the full custody balance to the counterparty's account.  On success
/// the caller closes the custody account and the record, reclaiming both to
/// the depositor.
pub fn withdraw(ctx: &mut Withdraw) -> (r: Result<(), ErrorCode>)
    ensures
        r == withdraw_check(*old(ctx)),
        r is Ok ==> *final(ctx) == withdraw_apply(*old(ctx)),
        r is Err ==> *final(ctx) == *old(ctx),
{
    if !key_eq(&ctx.taker_token_account.owner, &ctx.escrow_account.taker_key) {
        return Err(ErrorCode::TakerMismatchError);
    }
    if !key_eq(&ctx.taker_token_account.mint, &ctx.escrow_account.mint_key) {
        return Err(ErrorCode::MintMismatchError);
    }
    if !key_eq(&ctx.vault_token_account.mint, &ctx.escrow_account.mint_key) {
        return Err(ErrorCode::MintMismatchError);
    }
    if !key_eq(&ctx.vault_token_account.owner, &ctx.escrow_account_key) {
        return Err(ErrorCode::VaultTokenAccountOwnerMismatchError);
    }
    if !check_vault_address(
        &ctx.program_id,
        &ctx.escrow_account_key,
        ctx.escrow_account.vault_token_account_bump,
        &ctx.vault_token_account.key,
    ) {
        return Err(ErrorCode::DerivationMismatchError);
    }
    if !ctx.escrow_account.is_released {
        return Err(ErrorCode::WithdrawUnreleasedAccountError);
    }
    if !key_eq(&ctx.escrow_account.taker_key, &ctx.taker) {
        return Err(ErrorCode::TakerMismatchError);
    }
    if !key_eq(&ctx.escrow_account.giver_key, &ctx.giver) {
        return Err(ErrorCode::GiverMismatchError);
    }
    if !check_escrow_address(
        &ctx.program_id,
        &ctx.giver,
        ctx.escrow_account.nonce,
        ctx.escrow_account.escrow_account_bump,
        &ctx.escrow_account_key,
    ) {
        return Err(ErrorCode::DerivationMismatchError);
    }
    if ctx.taker_token_account.amount > u64::MAX - ctx.vault_token_account.amount {
        return Err(ErrorCode::AmountOverflowError);
    }
    ctx.taker_token_account.amount = ctx.taker_token_account.amount
        + ctx.vault_token_account.amount;
    ctx.vault_token_account.amount = 0;
    Ok(())
}

} // verus!
