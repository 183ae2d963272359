use escrow::accounts::{DepositArgs, TokenAccount};
use escrow::derivation::{check_escrow_address, check_vault_address, derive_escrow_address, derive_vault_address};
use escrow::errors::ErrorCode;
use escrow::handlers::{self, Cancel, Release, Withdraw};
use escrow::keys::{key_eq, Key};
use escrow::lifecycle::EscrowSlot;

fn key(b: u8) -> Key {
    Key::new([b; 32])
}

struct Setup {
    program_id: Key,
    mint: Key,
    giver: Key,
    taker: Key,
    record_key: Key,
    vault_key: Key,
    source: TokenAccount,
    slot: EscrowSlot,
    args: DepositArgs,
}

fn setup(nonce: u64, amount: u64) -> Setup {
    let program_id = key(9);
    let mint = key(3);
    let giver = key(1);
    let taker = key(2);
    let (record_key, escrow_bump) =
        derive_escrow_address(&program_id, &giver, nonce).expect("no record address");
    let (vault_key, vault_bump) =
        derive_vault_address(&program_id, &record_key).expect("no custody address");
    let source = TokenAccount {
        key: key(11),
        mint,
        owner: giver,
        amount: 10_000,
    };
    let slot = EscrowSlot::new(program_id, record_key);
    let args = DepositArgs {
        nonce,
        amount,
        vault_token_account_bump: vault_bump,
        escrow_account_bump: escrow_bump,
    };
    Setup {
        program_id,
        mint,
        giver,
        taker,
        record_key,
        vault_key,
        source,
        slot,
        args,
    }
}

fn deposit_ok(s: &mut Setup) {
    let r = s
        .slot
        .deposit(s.mint, s.giver, s.taker, &mut s.source, s.vault_key, s.args);
    assert_eq!(r, Ok(()));
}

fn taker_account(s: &Setup) -> TokenAccount {
    TokenAccount {
        key: key(12),
        mint: s.mint,
        owner: s.taker,
        amount: 500,
    }
}

#[test]
fn deposit_creates_record_and_custody() {
    let mut s = setup(7, 1000);
    deposit_ok(&mut s);
    assert_eq!(s.source.amount, 9_000);
    let rec = s.slot.record.expect("record missing");
    assert_eq!(rec.amount, 1000);
    assert_eq!(rec.nonce, 7);
    assert!(!rec.is_released);
    assert_eq!(rec.giver_key, s.giver);
    assert_eq!(rec.taker_key, s.taker);
    assert_eq!(rec.mint_key, s.mint);
    assert_eq!(rec.refund_token_account, s.source.key);
    let vault = s.slot.vault.expect("custody account missing");
    assert_eq!(vault.amount, 1000);
    assert_eq!(vault.mint, s.mint);
    assert_eq!(vault.owner, s.record_key);
    assert_eq!(vault.key, s.vault_key);
}

#[test]
fn full_scenario_deposit_release_withdraw() {
    let mut s = setup(7, 1000);
    deposit_ok(&mut s);
    assert_eq!(s.slot.release(s.giver), Ok(()));
    assert!(s.slot.record.expect("record missing").is_released);

    let mut destination = taker_account(&s);
    let r = s.slot.withdraw(s.giver, s.taker, &mut destination);
    assert_eq!(r, Ok(()));
    assert_eq!(destination.amount, 1500);
    assert!(s.slot.record.is_none());
    assert!(s.slot.vault.is_none());

    // The record no longer exists: nothing more can be taken from it.
    let mut destination2 = taker_account(&s);
    assert_eq!(
        s.slot.withdraw(s.giver, s.taker, &mut destination2),
        Err(ErrorCode::EscrowAccountNotFoundError)
    );
    assert_eq!(
        s.slot.cancel(s.giver, &mut s.source),
        Err(ErrorCode::EscrowAccountNotFoundError)
    );
    assert_eq!(destination2.amount, 500);
    assert_eq!(s.source.amount, 9_000);
}

#[test]
fn deposit_cancel_round_trip() {
    let mut s = setup(4, 2500);
    deposit_ok(&mut s);
    assert_eq!(s.source.amount, 7_500);
    assert_eq!(s.slot.cancel(s.giver, &mut s.source), Ok(()));
    assert_eq!(s.source.amount, 10_000);
    assert!(s.slot.record.is_none());
    assert!(s.slot.vault.is_none());

    // Terminal: a second cancel finds no record.
    assert_eq!(
        s.slot.cancel(s.giver, &mut s.source),
        Err(ErrorCode::EscrowAccountNotFoundError)
    );
    assert_eq!(s.source.amount, 10_000);
}

#[test]
fn withdraw_before_release_fails() {
    let mut s = setup(1, 100);
    deposit_ok(&mut s);
    let mut destination = taker_account(&s);
    assert_eq!(
        s.slot.withdraw(s.giver, s.taker, &mut destination),
        Err(ErrorCode::WithdrawUnreleasedAccountError)
    );
    assert_eq!(destination.amount, 500);
    assert_eq!(s.slot.vault.expect("custody account missing").amount, 100);

    // After release the same withdraw goes through.
    assert_eq!(s.slot.release(s.giver), Ok(()));
    assert_eq!(s.slot.withdraw(s.giver, s.taker, &mut destination), Ok(()));
    assert_eq!(destination.amount, 600);
}

#[test]
fn cancel_after_release_fails_with_released_error() {
    let mut s = setup(1, 100);
    deposit_ok(&mut s);
    assert_eq!(s.slot.release(s.giver), Ok(()));
    assert_eq!(
        s.slot.cancel(s.giver, &mut s.source),
        Err(ErrorCode::CancelReleasedAccountError)
    );
    assert_eq!(s.source.amount, 9_900);
    assert!(s.slot.record.is_some());
}

#[test]
fn release_is_idempotent() {
    let mut s = setup(1, 100);
    deposit_ok(&mut s);
    assert_eq!(s.slot.release(s.giver), Ok(()));
    assert_eq!(s.slot.release(s.giver), Ok(()));
    assert!(s.slot.record.expect("record missing").is_released);
}

#[test]
fn authority_isolation_between_nonces() {
    let program_id = key(9);
    let giver = key(1);
    let (record_key_a, _) = derive_escrow_address(&program_id, &giver, 1).unwrap();
    let (record_key_b, _) = derive_escrow_address(&program_id, &giver, 2).unwrap();
    assert_ne!(record_key_a, record_key_b);
    let (vault_key_a, _) = derive_vault_address(&program_id, &record_key_a).unwrap();
    let (vault_key_b, _) = derive_vault_address(&program_id, &record_key_b).unwrap();
    assert_ne!(vault_key_a, vault_key_b);

    // One escrow's custody account cannot be spent through the other escrow's
    // record, even when its owner field is forged to match.
    let mut s1 = setup(1, 100);
    let mut s2 = setup(2, 100);
    deposit_ok(&mut s1);
    deposit_ok(&mut s2);
    let mut foreign_vault = s2.slot.vault.unwrap();
    foreign_vault.owner = s1.record_key;
    let rec1 = s1.slot.record.unwrap();
    let mut ctx = Cancel {
        program_id: s1.program_id,
        giver: s1.giver,
        refund_token_account: s1.source,
        vault_token_account: foreign_vault,
        escrow_account_key: s1.record_key,
        escrow_account: rec1,
    };
    assert_eq!(
        handlers::cancel(&mut ctx),
        Err(ErrorCode::DerivationMismatchError)
    );
}

#[test]
fn release_by_other_signer_fails() {
    let mut s = setup(1, 100);
    deposit_ok(&mut s);
    assert_eq!(s.slot.release(s.taker), Err(ErrorCode::GiverMismatchError));
    assert_eq!(s.slot.release(key(8)), Err(ErrorCode::GiverMismatchError));
    assert!(!s.slot.record.expect("record missing").is_released);
}

#[test]
fn withdraw_by_other_signer_fails() {
    let mut s = setup(1, 100);
    deposit_ok(&mut s);
    assert_eq!(s.slot.release(s.giver), Ok(()));
    // The destination is the right one; only the acting party is wrong.
    let mut destination = taker_account(&s);
    assert_eq!(
        s.slot.withdraw(s.giver, key(8), &mut destination),
        Err(ErrorCode::TakerMismatchError)
    );
    assert_eq!(destination.amount, 500);
}

#[test]
fn cancel_by_other_signer_fails() {
    let mut s = setup(1, 100);
    deposit_ok(&mut s);
    assert_eq!(
        s.slot.cancel(key(8), &mut s.source),
        Err(ErrorCode::GiverMismatchError)
    );
    assert_eq!(s.source.amount, 9_900);
}

#[test]
fn asset_binding_on_cancel_and_withdraw() {
    let mut s = setup(1, 100);
    deposit_ok(&mut s);
    let other_mint = key(4);

    let mut wrong_refund = s.source;
    wrong_refund.mint = other_mint;
    assert_eq!(
        s.slot.cancel(s.giver, &mut wrong_refund),
        Err(ErrorCode::MintMismatchError)
    );

    assert_eq!(s.slot.release(s.giver), Ok(()));
    let mut wrong_destination = taker_account(&s);
    wrong_destination.mint = other_mint;
    assert_eq!(
        s.slot.withdraw(s.giver, s.taker, &mut wrong_destination),
        Err(ErrorCode::MintMismatchError)
    );
    assert_eq!(wrong_destination.amount, 500);
    assert!(s.slot.record.is_some());
}

#[test]
fn deposit_rejects_bad_source_accounts() {
    // Source holds another asset.
    let mut s = setup(1, 100);
    s.source.mint = key(4);
    let r = s
        .slot
        .deposit(s.mint, s.giver, s.taker, &mut s.source, s.vault_key, s.args);
    assert_eq!(r, Err(ErrorCode::MintMismatchError));

    // Source is owned by someone else.
    let mut s = setup(1, 100);
    s.source.owner = key(8);
    let r = s
        .slot
        .deposit(s.mint, s.giver, s.taker, &mut s.source, s.vault_key, s.args);
    assert_eq!(r, Err(ErrorCode::GiverMismatchError));

    // Zero amount.
    let mut s = setup(1, 0);
    let r = s
        .slot
        .deposit(s.mint, s.giver, s.taker, &mut s.source, s.vault_key, s.args);
    assert_eq!(r, Err(ErrorCode::InsufficientDepositAmountError));

    // Amount above the source balance.
    let mut s = setup(1, 10_001);
    let r = s
        .slot
        .deposit(s.mint, s.giver, s.taker, &mut s.source, s.vault_key, s.args);
    assert_eq!(r, Err(ErrorCode::InsufficientDepositAmountError));
    assert_eq!(s.source.amount, 10_000);
    assert!(s.slot.record.is_none());
}

#[test]
fn deposit_rejects_wrong_derivations() {
    // A record address that does not re-derive.
    let mut s = setup(1, 100);
    s.slot = EscrowSlot::new(s.program_id, key(42));
    let r = s
        .slot
        .deposit(s.mint, s.giver, s.taker, &mut s.source, s.vault_key, s.args);
    assert_eq!(r, Err(ErrorCode::DerivationMismatchError));

    // A custody address that does not re-derive.
    let mut s = setup(1, 100);
    let r = s
        .slot
        .deposit(s.mint, s.giver, s.taker, &mut s.source, key(43), s.args);
    assert_eq!(r, Err(ErrorCode::DerivationMismatchError));
    assert_eq!(s.source.amount, 10_000);
}

#[test]
fn second_deposit_finds_slot_in_use() {
    let mut s = setup(1, 100);
    deposit_ok(&mut s);
    let r = s
        .slot
        .deposit(s.mint, s.giver, s.taker, &mut s.source, s.vault_key, s.args);
    assert_eq!(r, Err(ErrorCode::EscrowAccountInUseError));
    assert_eq!(s.source.amount, 9_900);
}

#[test]
fn cancel_rejects_unrecorded_refund_account() {
    let mut s = setup(1, 100);
    deposit_ok(&mut s);
    let mut other_refund = TokenAccount {
        key: key(13),
        mint: s.mint,
        owner: s.giver,
        amount: 0,
    };
    assert_eq!(
        s.slot.cancel(s.giver, &mut other_refund),
        Err(ErrorCode::RefundAccountMismatchError)
    );
    assert_eq!(other_refund.amount, 0);
}

#[test]
fn cancel_rejects_overflowing_refund() {
    let mut s = setup(1, 100);
    deposit_ok(&mut s);
    s.source.amount = u64::MAX;
    assert_eq!(
        s.slot.cancel(s.giver, &mut s.source),
        Err(ErrorCode::AmountOverflowError)
    );
    assert_eq!(s.source.amount, u64::MAX);
    assert!(s.slot.record.is_some());
}

#[test]
fn withdraw_rejects_overflowing_destination() {
    let mut s = setup(1, 100);
    deposit_ok(&mut s);
    assert_eq!(s.slot.release(s.giver), Ok(()));
    let mut destination = taker_account(&s);
    destination.amount = u64::MAX - 99;
    assert_eq!(
        s.slot.withdraw(s.giver, s.taker, &mut destination),
        Err(ErrorCode::AmountOverflowError)
    );
}

#[test]
fn cancel_rejects_foreign_custody_owner() {
    let mut s = setup(1, 100);
    deposit_ok(&mut s);
    let rec = s.slot.record.unwrap();
    let mut vault = s.slot.vault.unwrap();
    vault.owner = key(8);
    let mut ctx = Cancel {
        program_id: s.program_id,
        giver: s.giver,
        refund_token_account: s.source,
        vault_token_account: vault,
        escrow_account_key: s.record_key,
        escrow_account: rec,
    };
    assert_eq!(
        handlers::cancel(&mut ctx),
        Err(ErrorCode::VaultTokenAccountOwnerMismatchError)
    );
}

#[test]
fn withdraw_rejects_destination_of_other_owner() {
    let mut s = setup(1, 100);
    deposit_ok(&mut s);
    assert_eq!(s.slot.release(s.giver), Ok(()));
    let mut destination = taker_account(&s);
    destination.owner = key(8);
    assert_eq!(
        s.slot.withdraw(s.giver, s.taker, &mut destination),
        Err(ErrorCode::TakerMismatchError)
    );
}

#[test]
fn release_handler_rejects_wrong_giver_directly() {
    let mut s = setup(1, 100);
    deposit_ok(&mut s);
    let rec = s.slot.record.unwrap();
    let mut ctx = Release {
        giver: s.taker,
        escrow_account: rec,
    };
    assert_eq!(handlers::release(&mut ctx), Err(ErrorCode::GiverMismatchError));
    assert!(!ctx.escrow_account.is_released);
}

#[test]
fn withdraw_handler_rejects_wrong_record_address() {
    let mut s = setup(1, 100);
    deposit_ok(&mut s);
    assert_eq!(s.slot.release(s.giver), Ok(()));
    let rec = s.slot.record.unwrap();
    let mut vault = s.slot.vault.unwrap();
    vault.owner = key(42);
    let mut ctx = Withdraw {
        program_id: s.program_id,
        giver: s.giver,
        taker: s.taker,
        taker_token_account: taker_account(&s),
        vault_token_account: vault,
        escrow_account_key: key(42),
        escrow_account: rec,
    };
    assert_eq!(
        handlers::withdraw(&mut ctx),
        Err(ErrorCode::DerivationMismatchError)
    );
}

#[test]
fn derivation_checks_accept_only_the_derived_address() {
    let program_id = key(9);
    let giver = key(1);
    let (record_key, bump) = derive_escrow_address(&program_id, &giver, 7).unwrap();
    assert!(!key_eq(&record_key, &giver));
    assert!(!key_eq(&record_key, &program_id));
    assert!(check_escrow_address(&program_id, &giver, 7, bump, &record_key));
    assert!(!check_escrow_address(&program_id, &giver, 7, bump, &key(5)));
    assert!(!check_escrow_address(&program_id, &giver, 8, bump, &record_key));

    let (vault_key, vault_bump) = derive_vault_address(&program_id, &record_key).unwrap();
    assert_ne!(vault_key, record_key);
    assert!(check_vault_address(&program_id, &record_key, vault_bump, &vault_key));
    assert!(!check_vault_address(&program_id, &record_key, vault_bump, &record_key));
}

#[test]
fn operations_on_empty_slot_find_no_record() {
    let program_id = key(9);
    let giver = key(1);
    let (record_key, _) = derive_escrow_address(&program_id, &giver, 7).unwrap();
    let mut slot = EscrowSlot::new(program_id, record_key);
    let mut account = TokenAccount {
        key: key(11),
        mint: key(3),
        owner: giver,
        amount: 0,
    };
    assert_eq!(slot.release(giver), Err(ErrorCode::EscrowAccountNotFoundError));
    assert_eq!(
        slot.cancel(giver, &mut account),
        Err(ErrorCode::EscrowAccountNotFoundError)
    );
    assert_eq!(
        slot.withdraw(giver, key(2), &mut account),
        Err(ErrorCode::EscrowAccountNotFoundError)
    );
}

#[test]
fn key_equality_is_bytewise() {
    let a = Key::new([1; 32]);
    let b = Key::new([1; 32]);
    let mut bytes = [1u8; 32];
    bytes[31] = 2;
    let c = Key::new(bytes);
    assert!(key_eq(&a, &b));
    assert!(!key_eq(&a, &c));
}
