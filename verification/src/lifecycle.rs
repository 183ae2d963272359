use vstd::prelude::*;
use crate::accounts::{DepositArgs, EscrowAccount, TokenAccount};
use crate::derivation::{escrow_address_ok, vault_address_ok};
use crate::errors::ErrorCode;
use crate::handlers;
use crate::handlers::{
    Cancel, Deposit, Release, Withdraw, cancel_check, deposit_apply, deposit_check, release_apply,
    release_check, withdraw_check,
};
use crate::keys::Key;

verus! {

/// The three observable states of one escrow: no record (before deposit, and
/// again — for good — after cancel or withdraw), an active record awaiting
/// release or cancellation, and a released record awaiting withdrawal.
#[derive(Clone, Copy, Debug, PartialEq, Eq, Structural)]
pub enum EscrowPhase {
    /// No record exists: nothing to release, cancel or withdraw from.
    Vacant,
    /// Deposited and not released: the depositor may release or cancel.
    Active,
    /// Released: only the counterparty may withdraw.
    Released,
}

/// One escrow's full lifecycle as the host sees it: the storage at the
/// record's derived address and at its custody address.  `None` is
/// non-existence — the state before deposit and after cancel or withdraw,
/// both of which are terminal and absorbing.
#[derive(Clone, Copy, Debug, PartialEq, Eq)]
pub struct EscrowSlot {
    /// The program id under which both addresses derive.
    pub program_id: Key,
    /// The record's address, derived from the depositor's key and a nonce.
    pub record_key: Key,
    /// The record, while the escrow is active or released.
    pub record: Option<EscrowAccount>,
    /// The custody account, while the escrow is active or released.
    pub vault: Option<TokenAccount>,
}

impl EscrowSlot {
    /// The invariant of every reachable slot: record and custody account
    /// exist together or not at all, and while they exist the custody
    /// account is controlled by the record, holds the record's asset in
    /// exactly the escrowed amount, and both addresses re-derive from the
    /// record's stored proofs.
    pub open spec fn wf(self) -> bool {
        match (self.record, self.vault) {
            (Some(rec), Some(v)) => {
                &&& rec.amount > 0
                &&& v.owner@ == self.record_key@
                &&& v.mint@ == rec.mint_key@
                &&& v.amount == rec.amount
                &&& vault_address_ok(
                    self.program_id@,
                    self.record_key@,
                    rec.vault_token_account_bump,
                    v.key@,
                )
                &&& escrow_address_ok(
                    self.program_id@,
                    rec.giver_key@,
                    rec.nonce,
                    rec.escrow_account_bump,
                    self.record_key@,
                )
            },
            (None, None) => true,
            _ => false,
        }
    }

    /// Where this slot stands in the escrow's life: vacant, active, or
    /// released.
    pub open spec fn phase(self) -> EscrowPhase {
        match self.record {
            None => EscrowPhase::Vacant,
            Some(rec) => if rec.is_released {
                EscrowPhase::Released
            } else {
                EscrowPhase::Active
            },
        }
    }

    /// An empty slot: no escrow has been deposited at this address yet.
    pub fn new(program_id: Key, record_key: Key) -> (s: EscrowSlot)
        ensures
            s.wf(),
            s.program_id == program_id,
            s.record_key == record_key,
            s.record is None,
            s.vault is None,
    {
        EscrowSlot { program_id, record_key, record: None, vault: None }
    }

    /// Deposit: create the record and custody account in this slot and move
    /// the amount out of `source`, or leave everything unchanged.
    pub fn deposit(
        &mut self,
        mint: Key,
        giver: Key,
        taker: Key,
        source: &mut TokenAccount,
        vault_key: Key,
        args: DepositArgs,
    ) -> (r: Result<(), ErrorCode>)
        ensures
            r == slot_deposit_check(*old(self), mint, giver, taker, *old(source), vault_key, args),
            r is Ok ==> (*final(self), *final(source)) == slot_deposit_apply(
                *old(self),
                mint,
                giver,
                taker,
                *old(source),
                vault_key,
                args,
            ),
            r is Err ==> *final(self) == *old(self) && *final(source) == *old(source),
            r is Ok ==> final(self).wf(),
            old(self).wf() ==> final(self).wf(),
            r is Ok ==> old(self).phase() is Vacant && final(self).phase() is Active,
    {
        if self.record.is_some() {
            return Err(ErrorCode::EscrowAccountInUseError);
        }
        let mut ctx = slot_deposit_ctx_exec(self, mint, giver, taker, source, vault_key, args);
        match handlers::deposit(&mut ctx, args) {
            Ok(()) => {
                self.record = Some(ctx.escrow_account);
                self.vault = Some(ctx.vault_token_account);
                *source = ctx.giver_token_account;
                Ok(())
            },
            Err(e) => Err(e),
        }
    }

    /// Release: flag this slot's record as released.
    pub fn release(&mut self, giver: Key) -> (r: Result<(), ErrorCode>)
        ensures
            r == slot_release_check(*old(self), giver),
            r is Ok ==> *final(self) == slot_release_apply(*old(self), giver),
            r is Err ==> *final(self) == *old(self),
            old(self).wf() ==> final(self).wf(),
            r is Ok ==> old(self).phase() !is Vacant && final(self).phase() is Released,
    {
        let rec = match self.record {
            Some(rec) => rec,
            None => {
                return Err(ErrorCode::EscrowAccountNotFoundError);
            },
        };
        let mut ctx = Release { giver, escrow_account: rec };
        match handlers::release(&mut ctx) {
            Ok(()) => {
                self.record = Some(ctx.escrow_account);
                Ok(())
            },
            Err(e) => Err(e),
        }
    }

    /// Cancel: move the full custody balance back to `refund` and close both
    /// the record and the custody account — terminal on success.
    pub fn cancel(&mut self, giver: Key, refund: &mut TokenAccount) -> (r: Result<(), ErrorCode>)
        requires
            old(self).wf(),
        ensures
            final(self).wf(),
            r == slot_cancel_check(*old(self), giver, *old(refund)),
            r is Ok ==> (*final(self), *final(refund)) == slot_cancel_apply(
                *old(self),
                giver,
                *old(refund),
            ),
            r is Err ==> *final(self) == *old(self) && *final(refund) == *old(refund),
            r is Ok ==> old(self).phase() is Active && final(self).phase() is Vacant,
    {
        let (rec, vault) = match (self.record, self.vault) {
            (Some(rec), Some(v)) => (rec, v),
            _ => {
                return Err(ErrorCode::EscrowAccountNotFoundError);
            },
        };
        let mut ctx = Cancel {
            program_id: self.program_id,
            giver,
            refund_token_account: *refund,
            vault_token_account: vault,
            escrow_account_key: self.record_key,
            escrow_account: rec,
        };
        match handlers::cancel(&mut ctx) {
            Ok(()) => {
                *refund = ctx.refund_token_account;
                self.record = None;
                self.vault = None;
                Ok(())
            },
            Err(e) => Err(e),
        }
    }

    /// Withdraw: move the full custody balance to the counterparty's
    /// `destination` and close both the record and the custody account —
    /// terminal on success.
    pub fn withdraw(
        &mut self,
        giver: Key,
        taker: Key,
        destination: &mut TokenAccount,
    ) -> (r: Result<(), ErrorCode>)
        requires
            old(self).wf(),
        ensures
            final(self).wf(),
            r == slot_withdraw_check(*old(self), giver, taker, *old(destination)),
            r is Ok ==> (*final(self), *final(destination)) == slot_withdraw_apply(
                *old(self),
                giver,
                taker,
                *old(destination),
            ),
            r is Err ==> *final(self) == *old(self) && *final(destination) == *old(destination),
            r is Ok ==> old(self).phase() is Released && final(self).phase() is Vacant,
    {
        let (rec, vault) = match (self.record, self.vault) {
            (Some(rec), Some(v)) => (rec, v),
            _ => {
                return Err(ErrorCode::EscrowAccountNotFoundError);
            },
        };
        let mut ctx = Withdraw {
            program_id: self.program_id,
            giver,
            taker,
            taker_token_account: *destination,
            vault_token_account: vault,
            escrow_account_key: self.record_key,
            escrow_account: rec,
        };
        match handlers::withdraw(&mut ctx) {
            Ok(()) => {
                *destination = ctx.taker_token_account;
                self.record = None;
                self.vault = None;
                Ok(())
            },
            Err(e) => Err(e),
        }
    }
}

/// The deposit context a slot hands to the deposit handler; the record and
/// custody slots start out blank.
pub open spec fn slot_deposit_ctx(
    slot: EscrowSlot,
    mint: Key,
    giver: Key,
    taker: Key,
    source: TokenAccount,
    vault_key: Key,
    args: DepositArgs,
) -> Deposit {
    Deposit {
        program_id: slot.program_id,
        mint,
        giver,
        taker,
        giver_token_account: source,
        escrow_account_key: slot.record_key,
        escrow_account: EscrowAccount {
            amount: 0,
            mint_key: mint,
            nonce: args.nonce,
            giver_key: giver,
            taker_key: taker,
            refund_token_account: source.key,
            escrow_account_bump: 0,
            vault_token_account_bump: 0,
            is_released: false,
        },
        vault_token_account: TokenAccount { key: vault_key, mint, owner: slot.record_key, amount: 0 },
    }
}

/// Builds `slot_deposit_ctx` in executable code.
fn slot_deposit_ctx_exec(
    slot: &EscrowSlot,
    mint: Key,
    giver: Key,
    taker: Key,
    source: &TokenAccount,
    vault_key: Key,
    args: DepositArgs,
) -> (ctx: Deposit)
    ensures
        ctx == slot_deposit_ctx(*slot, mint, giver, taker, *source, vault_key, args),
{
    Deposit {
        program_id: slot.program_id,
        mint,
        giver,
        taker,
        giver_token_account: *source,
        escrow_account_key: slot.record_key,
        escrow_account: EscrowAccount {
            amount: 0,
            mint_key: mint,
            nonce: args.nonce,
            giver_key: giver,
            taker_key: taker,
            refund_token_account: source.key,
            escrow_account_bump: 0,
            vault_token_account_bump: 0,
            is_released: false,
        },
        vault_token_account: TokenAccount { key: vault_key, mint, owner: slot.record_key, amount: 0 },
    }
}

/// The slot-level deposit decision: the slot must be vacant and the deposit
/// handler's checks must pass.
pub open spec fn slot_deposit_check(
    slot: EscrowSlot,
    mint: Key,
    giver: Key,
    taker: Key,
    source: TokenAccount,
    vault_key: Key,
    args: DepositArgs,
) -> Result<(), ErrorCode> {
    if slot.record is Some {
        Err(ErrorCode::EscrowAccountInUseError)
    } else {
        deposit_check(slot_deposit_ctx(slot, mint, giver, taker, source, vault_key, args), args)
    }
}

/// The slot and source a successful deposit leaves behind.
pub open spec fn slot_deposit_apply(
    slot: EscrowSlot,
    mint: Key,
    giver: Key,
    taker: Key,
    source: TokenAccount,
    vault_key: Key,
    args: DepositArgs,
) -> (EscrowSlot, TokenAccount) {
    let ctx = deposit_apply(
        slot_deposit_ctx(slot, mint, giver, taker, source, vault_key, args),
        args,
    );
    (
        EscrowSlot {
            record: Some(ctx.escrow_account),
            vault: Some(ctx.vault_token_account),
            ..slot
        },
        ctx.giver_token_account,
    )
}

/// The slot-level release decision: the record must exist and the release
/// handler's check must pass.
pub open spec fn slot_release_check(slot: EscrowSlot, giver: Key) -> Result<(), ErrorCode> {
    match slot.record {
        Some(rec) => release_check(Release { giver, escrow_account: rec }),
        None => Err(ErrorCode::EscrowAccountNotFoundError),
    }
}

/// The slot a successful release leaves behind.
pub open spec fn slot_release_apply(slot: EscrowSlot, giver: Key) -> EscrowSlot {
    EscrowSlot {
        record: Some(
            release_apply(
                Release { giver, escrow_account: slot.record->Some_0 },
            ).escrow_account,
        ),
        ..slot
    }
}

/// The cancel context a slot hands to the cancel handler.
pub open spec fn slot_cancel_ctx(slot: EscrowSlot, giver: Key, refund: TokenAccount) -> Cancel {
    Cancel {
        program_id: slot.program_id,
        giver,
        refund_token_account: refund,
        vault_token_account: slot.vault->Some_0,
        escrow_account_key: slot.record_key,
        escrow_account: slot.record->Some_0,
    }
}

/// The slot-level cancel decision: the record must exist and the cancel
/// handler's checks must pass.
pub open spec fn slot_cancel_check(slot: EscrowSlot, giver: Key, refund: TokenAccount) -> Result<
    (),
    ErrorCode,
> {
    if slot.record is None {
        Err(ErrorCode::EscrowAccountNotFoundError)
    } else {
        cancel_check(slot_cancel_ctx(slot, giver, refund))
    }
}

/// The slot and refund account a successful cancel leaves behind: the slot
/// vacant, the refund account credited with the full custody balance.
pub open spec fn slot_cancel_apply(slot: EscrowSlot, giver: Key, refund: TokenAccount) -> (
    EscrowSlot,
    TokenAccount,
) {
    (
        EscrowSlot { record: None, vault: None, ..slot },
        TokenAccount {
            amount: (refund.amount + slot.vault->Some_0.amount) as u64,
            ..refund
        },
    )
}

/// The withdraw context a slot hands to the withdraw handler.
pub open spec fn slot_withdraw_ctx(
    slot: EscrowSlot,
    giver: Key,
    taker: Key,
    destination: TokenAccount,
) -> Withdraw {
    Withdraw {
        program_id: slot.program_id,
        giver,
        taker,
        taker_token_account: destination,
        vault_token_account: slot.vault->Some_0,
        escrow_account_key: slot.record_key,
        escrow_account: slot.record->Some_0,
    }
}

/// The slot-level withdraw decision: the record must exist and the withdraw
/// handler's checks must pass.
pub open spec fn slot_withdraw_check(
    slot: EscrowSlot,
    giver: Key,
    taker: Key,
    destination: TokenAccount,
) -> Result<(), ErrorCode> {
    if slot.record is None {
        Err(ErrorCode::EscrowAccountNotFoundError)
    } else {
        withdraw_check(slot_withdraw_ctx(slot, giver, taker, destination))
    }
}

/// The slot and destination account a successful withdraw leaves behind: the
/// slot vacant, the destination credited with the full custody balance.
pub open spec fn slot_withdraw_apply(
    slot: EscrowSlot,
    giver: Key,
    taker: Key,
    destination: TokenAccount,
) -> (EscrowSlot, TokenAccount) {
    (
        EscrowSlot { record: None, vault: None, ..slot },
        TokenAccount {
            amount: (destination.amount + slot.vault->Some_0.amount) as u64,
            ..destination
        },
    )
}

} // verus!
