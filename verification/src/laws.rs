use vstd::prelude::*;
use crate::accounts::{DepositArgs, TokenAccount};
use crate::errors::ErrorCode;
use crate::handlers::{
    Cancel, Release, Withdraw, cancel_accounts_ok, cancel_check, release_check,
    withdraw_accounts_ok, withdraw_check,
};
use crate::keys::Key;
use crate::lifecycle::{
    EscrowSlot, slot_cancel_apply, slot_cancel_check, slot_deposit_apply, slot_deposit_check,
    slot_release_apply, slot_release_check, slot_withdraw_apply, slot_withdraw_check,
};

verus! {

/// Round trip: a deposit followed by a cancel back into the source account
/// restores that account's balance exactly and leaves neither a record nor a
/// custody account behind.
pub proof fn lemma_deposit_cancel_round_trip(
    slot: EscrowSlot,
    mint: Key,
    giver: Key,
    taker: Key,
    source: TokenAccount,
    vault_key: Key,
    args: DepositArgs,
)
    requires
        slot_deposit_check(slot, mint, giver, taker, source, vault_key, args) is Ok,
    ensures
        ({
            let (slot1, source1) = slot_deposit_apply(
                slot,
                mint,
                giver,
                taker,
                source,
                vault_key,
                args,
            );
            &&& slot_cancel_check(slot1, giver, source1) is Ok
            &&& ({
                let (slot2, refund2) = slot_cancel_apply(slot1, giver, source1);
                &&& refund2.amount == source.amount
                &&& slot2.record is None
                &&& slot2.vault is None
            })
        }),
{
}

/// Full flow: a deposit followed by a release lets the counterparty — and
/// the stated destination account — withdraw exactly the deposited amount,
/// and leaves neither a record nor a custody account behind.
pub proof fn lemma_deposit_release_withdraw(
    slot: EscrowSlot,
    mint: Key,
    giver: Key,
    taker: Key,
    source: TokenAccount,
    vault_key: Key,
    args: DepositArgs,
    destination: TokenAccount,
)
    requires
        slot_deposit_check(slot, mint, giver, taker, source, vault_key, args) is Ok,
        destination.owner@ == taker@,
        destination.mint@ == mint@,
        destination.amount + args.amount <= u64::MAX,
    ensures
        ({
            let (slot1, source1) = slot_deposit_apply(
                slot,
                mint,
                giver,
                taker,
                source,
                vault_key,
                args,
            );
            &&& slot_release_check(slot1, giver) is Ok
            &&& ({
                let slot2 = slot_release_apply(slot1, giver);
                &&& slot_withdraw_check(slot2, giver, taker, destination) is Ok
                &&& ({
                    let (slot3, destination3) = slot_withdraw_apply(
                        slot2,
                        giver,
                        taker,
                        destination,
                    );
                    &&& destination3.amount == destination.amount + args.amount
                    &&& slot3.record is None
                    &&& slot3.vault is None
                })
            })
        }),
{
}

/// Conditional release: while the record is not released, withdraw never
/// succeeds — and fails with the dedicated state error whenever the supplied
/// accounts are the right ones.
pub proof fn lemma_withdraw_requires_release(ctx: Withdraw)
    requires
        !ctx.escrow_account.is_released,
    ensures
        withdraw_check(ctx) !is Ok,
        withdraw_accounts_ok(ctx) ==> withdraw_check(ctx) == Err::<(), ErrorCode>(
            ErrorCode::WithdrawUnreleasedAccountError,
        ),
{
}

/// Exclusivity: once the record is released, cancel never succeeds — and
/// fails with the dedicated already-released error, not a generic one,
/// whenever the supplied accounts are the right ones.
pub proof fn lemma_cancel_after_release(ctx: Cancel)
    requires
        ctx.escrow_account.is_released,
    ensures
        cancel_check(ctx) !is Ok,
        cancel_accounts_ok(ctx) ==> cancel_check(ctx) == Err::<(), ErrorCode>(
            ErrorCode::CancelReleasedAccountError,
        ),
{
}

/// Conditional release at the slot level: while the record exists and is not
/// yet released, no withdraw on the slot succeeds, whoever attempts it and
/// whatever accounts are supplied.
pub proof fn lemma_slot_withdraw_requires_release(
    slot: EscrowSlot,
    giver: Key,
    taker: Key,
    destination: TokenAccount,
)
    requires
        slot.phase() is Active,
    ensures
        slot_withdraw_check(slot, giver, taker, destination) !is Ok,
{
}

/// Exclusivity at the slot level: once the record is released, no cancel on
/// the slot succeeds, whoever attempts it and whatever accounts are supplied.
pub proof fn lemma_slot_cancel_excluded_after_release(
    slot: EscrowSlot,
    giver: Key,
    refund: TokenAccount,
)
    requires
        slot.phase() is Released,
    ensures
        slot_cancel_check(slot, giver, refund) !is Ok,
{
}

/// Mutual exclusion: from any one state of a record, cancel and withdraw are
/// never both open — cancel demands an unreleased record and withdraw a
/// released one — so at most one of the two terminal transitions can ever be
/// taken.
pub proof fn lemma_cancel_withdraw_exclusive(
    slot: EscrowSlot,
    giver: Key,
    refund: TokenAccount,
    other_giver: Key,
    taker: Key,
    destination: TokenAccount,
)
    requires
        slot_cancel_check(slot, giver, refund) is Ok,
    ensures
        slot_withdraw_check(slot, other_giver, taker, destination) !is Ok,
{
}

/// No double spend, cancel side: a successful cancel leaves the slot vacant,
/// and every later cancel or withdraw on it — by anyone, with any accounts —
/// fails because the record no longer exists.
pub proof fn lemma_cancel_is_terminal(
    slot: EscrowSlot,
    giver: Key,
    refund: TokenAccount,
    later_giver: Key,
    later_taker: Key,
    later_refund: TokenAccount,
    later_destination: TokenAccount,
)
    requires
        slot_cancel_check(slot, giver, refund) is Ok,
    ensures
        ({
            let (slot1, _) = slot_cancel_apply(slot, giver, refund);
            &&& slot1.record is None
            &&& slot1.vault is None
            &&& slot_cancel_check(slot1, later_giver, later_refund) == Err::<(), ErrorCode>(
                ErrorCode::EscrowAccountNotFoundError,
            )
            &&& slot_withdraw_check(slot1, later_giver, later_taker, later_destination)
                == Err::<(), ErrorCode>(ErrorCode::EscrowAccountNotFoundError)
        }),
{
}

/// No double spend, withdraw side: a successful withdraw leaves the slot
/// vacant, and every later cancel or withdraw on it — by anyone, with any
/// accounts — fails because the record no longer exists.
pub proof fn lemma_withdraw_is_terminal(
    slot: EscrowSlot,
    giver: Key,
    taker: Key,
    destination: TokenAccount,
    later_giver: Key,
    later_taker: Key,
    later_refund: TokenAccount,
    later_destination: TokenAccount,
)
    requires
        slot_withdraw_check(slot, giver, taker, destination) is Ok,
    ensures
        ({
            let (slot1, _) = slot_withdraw_apply(slot, giver, taker, destination);
            &&& slot1.record is None
            &&& slot1.vault is None
            &&& slot_cancel_check(slot1, later_giver, later_refund) == Err::<(), ErrorCode>(
                ErrorCode::EscrowAccountNotFoundError,
            )
            &&& slot_withdraw_check(slot1, later_giver, later_taker, later_destination)
                == Err::<(), ErrorCode>(ErrorCode::EscrowAccountNotFoundError)
        }),
{
}

/// Identity enforcement, release side: any signer other than the recorded
/// depositor is rejected with the depositor-mismatch error.
pub proof fn lemma_release_identity(ctx: Release)
    requires
        ctx.giver@ != ctx.escrow_account.giver_key@,
    ensures
        release_check(ctx) == Err::<(), ErrorCode>(ErrorCode::GiverMismatchError),
{
}

/// Identity enforcement, withdraw side: any signer other than the recorded
/// counterparty never succeeds — and is rejected with the counterparty-
/// mismatch error whenever the supplied accounts are the right ones and the
/// record is released.
pub proof fn lemma_withdraw_identity(ctx: Withdraw)
    requires
        ctx.taker@ != ctx.escrow_account.taker_key@,
    ensures
        withdraw_check(ctx) !is Ok,
        withdraw_accounts_ok(ctx) && ctx.escrow_account.is_released ==> withdraw_check(ctx)
            == Err::<(), ErrorCode>(ErrorCode::TakerMismatchError),
{
}

/// Asset binding, cancel side: a refund account of another asset class is
/// rejected with the asset-mismatch error before anything else is looked at.
pub proof fn lemma_cancel_asset_binding(ctx: Cancel)
    requires
        ctx.refund_token_account.mint@ != ctx.escrow_account.mint_key@,
    ensures
        cancel_check(ctx) == Err::<(), ErrorCode>(ErrorCode::MintMismatchError),
{
}

/// Asset binding, withdraw side: a destination account of another asset
/// class — even one the counterparty owns — is rejected with the
/// asset-mismatch error.
pub proof fn lemma_withdraw_asset_binding(ctx: Withdraw)
    requires
        ctx.taker_token_account.owner@ == ctx.escrow_account.taker_key@,
        ctx.taker_token_account.mint@ != ctx.escrow_account.mint_key@,
    ensures
        withdraw_check(ctx) == Err::<(), ErrorCode>(ErrorCode::MintMismatchError),
{
}

} // verus!
