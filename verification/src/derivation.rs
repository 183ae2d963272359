use vstd::prelude::*;
use crate::keys::{Key, key_eq};

verus! {

/// The seed tag under which escrow records are derived: the bytes of
/// `"escrow"`.
pub open spec fn escrow_seed_tag() -> Seq<u8> {
    seq![101u8, 115u8, 99u8, 114u8, 111u8, 119u8]
}

/// The seed tag under which custody accounts are derived: the bytes of
/// `"escrow_vault_token"`.
pub open spec fn vault_seed_tag() -> Seq<u8> {
    seq![
        101u8, 115u8, 99u8, 114u8, 111u8, 119u8, 95u8, 118u8, 97u8, 117u8, 108u8, 116u8, 95u8,
        116u8, 111u8, 107u8, 101u8, 110u8,
    ]
}

/// The address that the host's program-derived-address construction yields
/// for a seed list under a program id, or `None` where the construction
/// rejects the seeds (too many seeds, a seed too long, or a derived point
/// that a private key could control).
pub uninterp spec fn pda_address(seeds: Seq<Seq<u8>>, program_id: Seq<u8>) -> Option<Seq<u8>>;

/// The full seed list of an escrow record: tag, nonce, depositor, bump.
pub open spec fn escrow_seeds(nonce: u64, giver: Seq<u8>, bump: u8) -> Seq<Seq<u8>> {
    seq![escrow_seed_tag(), vstd::bytes::spec_u64_to_le_bytes(nonce), giver, seq![bump]]
}

/// The full seed list of a custody account: tag, record address, bump.
pub open spec fn vault_seeds(escrow_key: Seq<u8>, bump: u8) -> Seq<Seq<u8>> {
    seq![vault_seed_tag(), escrow_key, seq![bump]]
}

/// Whether `claimed` is the record address that re-derives from the
/// depositor's key, the nonce and the bump under `program_id`.
pub open spec fn escrow_address_ok(
    program_id: Seq<u8>,
    giver: Seq<u8>,
    nonce: u64,
    bump: u8,
    claimed: Seq<u8>,
) -> bool {
    pda_address(escrow_seeds(nonce, giver, bump), program_id) == Some(claimed)
}

/// Whether `claimed` is the custody address that re-derives from the record's
/// address and the bump under `program_id`.
pub open spec fn vault_address_ok(
    program_id: Seq<u8>,
    escrow_key: Seq<u8>,
    bump: u8,
    claimed: Seq<u8>,
) -> bool {
    pda_address(vault_seeds(escrow_key, bump), program_id) == Some(claimed)
}

/// Relies on `anchor_lang::prelude::Pubkey::create_program_address`: a
/// deterministic function of the seed bytes and the program id alone.  It
/// returns an error — and never panics — where a seed is over the host's
/// length bound, the list is over its count bound, or the derived point is
/// one a private key could control.
#[verifier::external_body]
fn create_address(seeds: &Vec<Vec<u8>>, program_id: &Key) -> (r: Option<Key>)
    ensures
        match r {
            Some(k) => pda_address(seeds.deep_view(), program_id@) == Some(k@),
            None => pda_address(seeds.deep_view(), program_id@) is None,
        },
{
    let pid = anchor_lang::prelude::Pubkey::new_from_array(program_id.bytes);
    let refs: Vec<&[u8]> = seeds.iter().map(|s| s.as_slice()).collect();
    match anchor_lang::prelude::Pubkey::create_program_address(&refs, &pid) {
        Ok(a) => Some(Key { bytes: a.to_bytes() }),
        Err(_) => None,
    }
}

/// Relies on `anchor_lang::prelude::Pubkey::try_find_program_address`: it
/// tries bump bytes downward from 255 through 1 and returns the first
/// address that `create_program_address` accepts for the seed list with the
/// bump appended; it returns `None` — and never panics — where none of those
/// bumps is accepted.
#[verifier::external_body]
fn find_address(seeds: &Vec<Vec<u8>>, program_id: &Key) -> (r: Option<(Key, u8)>)
    ensures
        match r {
            Some(pair) => pda_address(seeds.deep_view().push(seq![pair.1]), program_id@)
                == Some(pair.0@),
            None => forall|b: u8|
                b >= 1 ==> pda_address(seeds.deep_view().push(seq![b]), program_id@) is None,
        },
{
    let pid = anchor_lang::prelude::Pubkey::new_from_array(program_id.bytes);
    let refs: Vec<&[u8]> = seeds.iter().map(|s| s.as_slice()).collect();
    anchor_lang::prelude::Pubkey::try_find_program_address(&refs, &pid)
        .map(|(a, bump)| (Key { bytes: a.to_bytes() }, bump))
}

/// Copies a key's bytes into a seed vector.
fn key_seed(k: &Key) -> (v: Vec<u8>)
    ensures
        v@ == k@,
{
    let mut v: Vec<u8> = Vec::new();
    let mut i: usize = 0;
    while i < 32
        invariant
            0 <= i <= 32,
            v@.len() == i,
            forall|j: int| 0 <= j < i ==> v@[j] == k@[j],
        decreases 32 - i,
    {
        v.push(k.bytes[i]);
        i += 1;
    }
    proof {
        assert(v@ =~= k@);
    }
    v
}

/// Builds the escrow record's seed list without the bump.
fn escrow_seed_vecs(nonce: u64, giver: &Key) -> (v: Vec<Vec<u8>>)
    ensures
        v.deep_view() == seq![
            escrow_seed_tag(),
            vstd::bytes::spec_u64_to_le_bytes(nonce),
            giver@,
        ],
{
    let tag: Vec<u8> = vec![101u8, 115u8, 99u8, 114u8, 111u8, 119u8];
    proof {
        assert(tag@ =~= escrow_seed_tag());
    }
    let mut v: Vec<Vec<u8>> = Vec::new();
    v.push(tag);
    v.push(vstd::bytes::u64_to_le_bytes(nonce));
    v.push(key_seed(giver));
    proof {
        assert(v.deep_view() =~~= seq![
            escrow_seed_tag(),
            vstd::bytes::spec_u64_to_le_bytes(nonce),
            giver@,
        ]);
    }
    v
}

/// Builds the custody account's seed list without the bump.
fn vault_seed_vecs(escrow_key: &Key) -> (v: Vec<Vec<u8>>)
    ensures
        v.deep_view() == seq![vault_seed_tag(), escrow_key@],
{
    let tag: Vec<u8> = vec![
        101u8, 115u8, 99u8, 114u8, 111u8, 119u8, 95u8, 118u8, 97u8, 117u8, 108u8, 116u8, 95u8,
        116u8, 111u8, 107u8, 101u8, 110u8,
    ];
    proof {
        assert(tag@ =~= vault_seed_tag());
    }
    let mut v: Vec<Vec<u8>> = Vec::new();
    v.push(tag);
    v.push(key_seed(escrow_key));
    proof {
        assert(v.deep_view() =~~= seq![vault_seed_tag(), escrow_key@]);
    }
    v
}

/// Appends the one-byte bump seed to a seed list.
fn push_bump(seeds: &mut Vec<Vec<u8>>, bump: u8)
    ensures
        final(seeds).deep_view() == old(seeds).deep_view().push(seq![bump]),
{
    let mut b: Vec<u8> = Vec::new();
    b.push(bump);
    seeds.push(b);
    proof {
        assert(seeds.deep_view() =~~= old(seeds).deep_view().push(seq![bump]));
    }
}

/// Whether `claimed` re-derives as this record's address from the
/// depositor's key, the nonce and the bump.
pub fn check_escrow_address(
    program_id: &Key,
    giver: &Key,
    nonce: u64,
    bump: u8,
    claimed: &Key,
) -> (r: bool)
    ensures
        r == escrow_address_ok(program_id@, giver@, nonce, bump, claimed@),
{
    let mut seeds = escrow_seed_vecs(nonce, giver);
    push_bump(&mut seeds, bump);
    proof {
        assert(seeds.deep_view() =~~= escrow_seeds(nonce, giver@, bump));
    }
    match create_address(&seeds, program_id) {
        Some(k) => key_eq(&k, claimed),
        None => false,
    }
}

/// Whether `claimed` re-derives as this record's custody address from the
/// record's address and the bump.
pub fn check_vault_address(
    program_id: &Key,
    escrow_key: &Key,
    bump: u8,
    claimed: &Key,
) -> (r: bool)
    ensures
        r == vault_address_ok(program_id@, escrow_key@, bump, claimed@),
{
    let mut seeds = vault_seed_vecs(escrow_key);
    push_bump(&mut seeds, bump);
    proof {
        assert(seeds.deep_view() =~~= vault_seeds(escrow_key@, bump));
    }
    match create_address(&seeds, program_id) {
        Some(k) => key_eq(&k, claimed),
        None => false,
    }
}

/// Derives the address of the escrow record of one depositor and nonce,
/// together with the bump that proves the derivation.
pub fn derive_escrow_address(program_id: &Key, giver: &Key, nonce: u64) -> (r: Option<(Key, u8)>)
    ensures
        r matches Some(pair) ==> escrow_address_ok(program_id@, giver@, nonce, pair.1, pair.0@),
        r is None ==> forall|b: u8|
            b >= 1 ==> pda_address(escrow_seeds(nonce, giver@, b), program_id@) is None,
{
    let seeds = escrow_seed_vecs(nonce, giver);
    let r = find_address(&seeds, program_id);
    proof {
        match r {
            Some(pair) => {
                assert(seeds.deep_view().push(seq![pair.1]) =~~= escrow_seeds(
                    nonce,
                    giver@,
                    pair.1,
                ));
            },
            None => {
                assert forall|b: u8| b >= 1 implies pda_address(
                    escrow_seeds(nonce, giver@, b),
                    program_id@,
                ) is None by {
                    assert(pda_address(seeds.deep_view().push(seq![b]), program_id@) is None);
                    assert(seeds.deep_view().push(seq![b]) =~~= escrow_seeds(nonce, giver@, b));
                }
            },
        }
    }
    r
}

/// Derives the address of the custody account of one escrow record,
/// together with the bump that proves the derivation.
pub fn derive_vault_address(program_id: &Key, escrow_key: &Key) -> (r: Option<(Key, u8)>)
    ensures
        r matches Some(pair) ==> vault_address_ok(program_id@, escrow_key@, pair.1, pair.0@),
        r is None ==> forall|b: u8|
            b >= 1 ==> pda_address(vault_seeds(escrow_key@, b), program_id@) is None,
{
    let seeds = vault_seed_vecs(escrow_key);
    let r = find_address(&seeds, program_id);
    proof {
        match r {
            Some(pair) => {
                assert(seeds.deep_view().push(seq![pair.1]) =~~= vault_seeds(escrow_key@, pair.1));
            },
            None => {
                assert forall|b: u8| b >= 1 implies pda_address(
                    vault_seeds(escrow_key@, b),
                    program_id@,
                ) is None by {
                    assert(pda_address(seeds.deep_view().push(seq![b]), program_id@) is None);
                    assert(seeds.deep_view().push(seq![b]) =~~= vault_seeds(escrow_key@, b));
                }
            },
        }
    }
    r
}

} // verus!
