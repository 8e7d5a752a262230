//! Identities and the derivation of record addresses.

use anchor_lang::prelude::Pubkey;
use vstd::prelude::*;

verus! {

/// This program's identity.
pub const PROGRAM_ID: [u8; 32] = [
    121, 221, 16, 82, 36, 165, 64, 223, 10, 175, 133, 155, 225, 174, 71, 190,
    189, 40, 31, 149, 41, 67, 31, 214, 5, 217, 28, 201, 116, 32, 71, 172,
];

/// The oracle program that serves randomness requests.
pub const VRF_PROGRAM_ID: [u8; 32] = [
    7, 100, 104, 119, 200, 241, 253, 43, 158, 185, 243, 92, 234, 235, 93, 25,
    63, 162, 158, 196, 92, 7, 181, 101, 242, 27, 167, 177, 39, 172, 247, 127,
];

/// The identity the oracle signs its callbacks with.
pub const VRF_PROGRAM_IDENTITY: [u8; 32] = [
    129, 149, 237, 71, 27, 236, 243, 116, 219, 84, 34, 221, 119, 231, 249, 254,
    170, 194, 114, 165, 249, 93, 38, 97, 146, 155, 47, 105, 113, 22, 94, 252,
];

/// The oracle queue that randomness requests are sent to.
pub const DEFAULT_QUEUE: [u8; 32] = [
    176, 242, 103, 240, 220, 124, 68, 181, 2, 196, 54, 75, 234, 77, 57, 13,
    125, 145, 34, 180, 223, 225, 64, 202, 93, 91, 244, 232, 28, 11, 142, 242,
];

/// The seed tag under which user records are derived.
pub const USER_SEED: [u8; 4] = [117, 115, 101, 114];

/// The address derived from the seeds `[USER_SEED, owner, [bump]]` under
/// `program`, or `None` where those seeds give no valid program address.
pub uninterp spec fn user_address_of(program: Seq<u8>, owner: Seq<u8>, bump: u8) -> Option<Seq<u8>>;

/// Whether two identities are the same.
pub fn same_key(a: &[u8; 32], b: &[u8; 32]) -> (r: bool)
    ensures
        r == (a@ == b@),
{
    let mut i: usize = 0;
    while i < 32
        invariant
            i <= 32,
            a@.len() == 32,
            b@.len() == 32,
            forall|j: int| 0 <= j < i ==> a@[j] == b@[j],
        decreases 32 - i,
    {
        if a[i] != b[i] {
            return false;
        }
        i = i + 1;
    }
    assert(a@ =~= b@);
    true
}

/// Relies on `Pubkey::create_program_address` (solana-pubkey): it hashes the
/// seeds `[USER_SEED, owner, [bump]]` with `program` and fails where the hash
/// lies on the curve. Three seeds of at most 32 bytes never exceed its limits.
#[verifier::external_body]
fn create_user_address(program: &[u8; 32], owner: &[u8; 32], bump: u8) -> (r: Option<[u8; 32]>)
    ensures
        r is None <==> user_address_of(program@, owner@, bump) is None,
        r matches Some(a) ==> user_address_of(program@, owner@, bump) == Some(a@),
{
    let seeds: [&[u8]; 3] = [&USER_SEED, owner, &[bump]];
    Pubkey::create_program_address(&seeds, &Pubkey::new_from_array(*program))
        .ok()
        .map(|a| a.to_bytes())
}

/// Relies on `Pubkey::try_find_program_address` (solana-pubkey): it tries
/// bumps from 255 down to 1 with `create_program_address` and returns the
/// first address that exists, with its bump.
#[verifier::external_body]
fn try_find_user_address(program: &[u8; 32], owner: &[u8; 32]) -> (r: Option<([u8; 32], u8)>)
    ensures
        r matches Some((a, b)) ==> 1 <= b && user_address_of(program@, owner@, b) == Some(a@)
            && forall|c: u8| b < c ==> user_address_of(program@, owner@, c) is None,
        r is None ==> forall|c: u8| 1 <= c ==> user_address_of(program@, owner@, c) is None,
{
    let seeds: [&[u8]; 2] = [&USER_SEED, owner];
    Pubkey::try_find_program_address(&seeds, &Pubkey::new_from_array(*program))
        .map(|(a, b)| (a.to_bytes(), b))
}

/// Whether `address` is the record address of `owner` with nonce `bump`.
pub open spec fn is_user_address(address: Seq<u8>, owner: Seq<u8>, bump: u8) -> bool {
    user_address_of(PROGRAM_ID@, owner, bump) == Some(address)
}

/// Whether `address` is the canonical record address of `owner`, with nonce
/// `bump`: the highest nonce from 1 up that gives an address at all.
pub open spec fn is_canonical_address(address: Seq<u8>, owner: Seq<u8>, bump: u8) -> bool {
    &&& 1 <= bump
    &&& is_user_address(address, owner, bump)
    &&& forall|c: u8| bump < c ==> user_address_of(PROGRAM_ID@, owner, c) is None
}

/// An owner has at most one canonical address and nonce.
pub proof fn lemma_canonical_unique(a1: Seq<u8>, a2: Seq<u8>, owner: Seq<u8>, b1: u8, b2: u8)
    requires
        is_canonical_address(a1, owner, b1),
        is_canonical_address(a2, owner, b2),
    ensures
        a1 == a2,
        b1 == b2,
{
    if b1 < b2 {
        assert(user_address_of(PROGRAM_ID@, owner, b2) is None);
    } else if b2 < b1 {
        assert(user_address_of(PROGRAM_ID@, owner, b1) is None);
    }
}

/// The canonical record address of `owner`, with its nonce.
pub fn find_user_address(owner: &[u8; 32]) -> (r: Option<([u8; 32], u8)>)
    ensures
        r matches Some((a, b)) ==> is_canonical_address(a@, owner@, b),
        r is None ==> forall|a: Seq<u8>, b: u8| !is_canonical_address(a, owner@, b),
{
    try_find_user_address(&PROGRAM_ID, owner)
}

/// Re-derives the record address of `(owner, bump)` and compares it with the
/// address that was supplied.
pub fn verify_user_address(address: &[u8; 32], owner: &[u8; 32], bump: u8) -> (r: bool)
    ensures
        r == is_user_address(address@, owner@, bump),
{
    match create_user_address(&PROGRAM_ID, owner, bump) {
        Some(a) => same_key(&a, address),
        None => false,
    }
}

} // verus!
