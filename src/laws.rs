//! Laws that relate the operations to each other.

use vstd::prelude::*;

use crate::delegation::{
    after, close_step, delegate_step, initialize_step, undelegate_step, update_commit_step,
    update_step,
};
use crate::gate::owner_gate;
use crate::keys::{is_canonical_address, is_user_address, lemma_canonical_unique};
use crate::state::{AccountSlot, ErrorCode, Signer};
use crate::vrf::{callback_step, is_request_for, seed_material, RequestInstruction};
use crate::bytes::le_value;

verus! {

/// Address derivation is a function: one owner and nonce admit at most one
/// address, and one owner has at most one canonical address and nonce.
pub proof fn law_address_derivation(a1: Seq<u8>, a2: Seq<u8>, owner: Seq<u8>, b1: u8, b2: u8)
    ensures
        is_user_address(a1, owner, b1) && is_user_address(a2, owner, b1) ==> a1 == a2,
        is_canonical_address(a1, owner, b1) && is_canonical_address(a2, owner, b2) ==> a1 == a2
            && b1 == b2,
{
    if is_canonical_address(a1, owner, b1) && is_canonical_address(a2, owner, b2) {
        lemma_canonical_unique(a1, a2, owner, b1, b2);
    }
}

/// An owner's record can be created at one address only: two slots at which
/// the same caller's record can be created share their address.
pub proof fn law_one_record_per_owner(caller: Signer, s1: AccountSlot, s2: AccountSlot)
    requires
        initialize_step(caller, s1) is Ok,
        initialize_step(caller, s2) is Ok,
    ensures
        s1.address@ == s2.address@,
        after(initialize_step(caller, s1), s1).home->0.bump == after(initialize_step(caller, s2), s2).home->0.bump,
{
    let b1 = choose|b: u8| is_canonical_address(s1.address@, caller.key@, b);
    let b2 = choose|b: u8| is_canonical_address(s2.address@, caller.key@, b);
    lemma_canonical_unique(s1.address@, s2.address@, caller.key@, b1, b2);
}

/// A record that was just delegated cannot be delegated again.
pub proof fn law_delegate_twice(caller: Signer, s: AccountSlot)
    requires
        s.wf(),
        delegate_step(caller, s) is Ok,
    ensures
        delegate_step(caller, after(delegate_step(caller, s), s)) == Err::<AccountSlot, ErrorCode>(
            ErrorCode::AlreadyDelegated,
        ),
{
}

/// Undelegating a record that is not delegated fails with `NotDelegated`
/// once the caller passes the owner's checks.
pub proof fn law_undelegate_undelegated(caller: Signer, s: AccountSlot)
    requires
        owner_gate(caller, s) is None,
        !s.is_delegated(),
    ensures
        undelegate_step(caller, s) == Err::<AccountSlot, ErrorCode>(ErrorCode::NotDelegated),
{
}

/// A delegated record cannot be closed.
pub proof fn law_close_delegated(caller: Signer, s: AccountSlot)
    requires
        s.is_delegated(),
    ensures
        close_step(caller, s) is Err,
{
}

/// After a record is closed, every operation on it by a signing caller
/// fails with `AccountNotFound`, and so does the oracle's callback.
pub proof fn law_closed_not_found(
    caller: Signer,
    other: Signer,
    oracle: Signer,
    s: AccountSlot,
    data: u64,
    randomness: Seq<u8>,
)
    requires
        close_step(caller, s) is Ok,
        other.is_signer,
        oracle.is_signer,
        oracle.key@ == crate::keys::VRF_PROGRAM_IDENTITY@,
    ensures
        ({
            let c = after(close_step(caller, s), s);
            let nf = Err::<AccountSlot, ErrorCode>(ErrorCode::AccountNotFound);
            &&& update_step(other, c, data) == nf
            &&& update_commit_step(other, c, data) == nf
            &&& delegate_step(other, c) == nf
            &&& undelegate_step(other, c) == nf
            &&& close_step(other, c) == nf
            &&& callback_step(oracle, c, randomness) == nf
        }),
{
}

/// The callback from any caller but the oracle's signing identity fails with
/// `Unauthorized` and leaves the record as it was.
pub proof fn law_callback_rejects_strangers(caller: Signer, s: AccountSlot, randomness: Seq<u8>)
    requires
        !caller.is_signer || caller.key@ != crate::keys::VRF_PROGRAM_IDENTITY@,
    ensures
        callback_step(caller, s, randomness) == Err::<AccountSlot, ErrorCode>(ErrorCode::Unauthorized),
        after(callback_step(caller, s, randomness), s) == s,
{
}

/// A payload that begins with the bytes 1, 0, 0, 0, 0, 0, 0, 0 stores the
/// value 1, whatever follows.
pub proof fn law_callback_reads_low_bytes(caller: Signer, s: AccountSlot, randomness: Seq<u8>)
    requires
        s.wf(),
        callback_step(caller, s, randomness) is Ok,
        randomness.len() == 32,
        randomness.take(8) == seq![1u8, 0, 0, 0, 0, 0, 0, 0],
    ensures
        after(callback_step(caller, s, randomness), s).current()->0.randomness_result == 1,
{
    let t = randomness.take(8);
    assert(t.drop_first().drop_first().drop_first().drop_first().drop_first().drop_first().drop_first().drop_first() =~= Seq::<u8>::empty());
    reveal_with_fuel(le_value, 9);
}

/// Initializing and then updating reads back the new payload.
pub proof fn law_update_round_trip(caller: Signer, s: AccountSlot, data: u64)
    requires
        initialize_step(caller, s) is Ok,
    ensures
        ({
            let s1 = after(initialize_step(caller, s), s);
            &&& update_step(caller, s1, data) is Ok
            &&& after(update_step(caller, s1, data), s1).current()->0.data == data
        }),
{
    let b = choose|b: u8| is_canonical_address(s.address@, caller.key@, b);
    assert(is_canonical_address(s.address@, caller.key@, b));
}

/// Initializing, delegating, updating with a checkpoint in the rollup and
/// undelegating brings the rollup's payload home.
pub proof fn law_delegation_round_trip(caller: Signer, s: AccountSlot, data: u64)
    requires
        initialize_step(caller, s) is Ok,
    ensures
        ({
            let s1 = after(initialize_step(caller, s), s);
            let s2 = after(delegate_step(caller, s1), s1);
            let s3 = after(update_commit_step(caller, s2, data), s2);
            let s4 = after(undelegate_step(caller, s3), s3);
            &&& delegate_step(caller, s1) is Ok
            &&& update_commit_step(caller, s2, data) is Ok
            &&& undelegate_step(caller, s3) is Ok
            &&& !s4.is_delegated()
            &&& s4.current()->0.data == data
        }),
{
    let b = choose|b: u8| is_canonical_address(s.address@, caller.key@, b);
    assert(is_canonical_address(s.address@, caller.key@, b));
}

/// Two requests for the same record by the same payer carry the digest of
/// their own seed in bytes 8 to 40 of their data, and agree everywhere else.
pub proof fn law_request_seed_material(
    ix1: RequestInstruction,
    ix2: RequestInstruction,
    payer: [u8; 32],
    target: [u8; 32],
    seed1: u8,
    seed2: u8,
)
    requires
        is_request_for(ix1, payer, target, seed1),
        is_request_for(ix2, payer, target, seed2),
    ensures
        ix1.data@.len() == ix2.data@.len(),
        ix1.data@.subrange(8, 40) == seed_material(seed1),
        ix2.data@.subrange(8, 40) == seed_material(seed2),
        ix1.data@.subrange(0, 8) == ix2.data@.subrange(0, 8),
        ix1.data@.subrange(40, ix1.data@.len() as int) == ix2.data@.subrange(40, ix2.data@.len() as int),
{
    let d1 = ix1.data@;
    let d2 = ix2.data@;
    assert(d1.subrange(8, 40) =~= seed_material(seed1));
    assert(d2.subrange(8, 40) =~= seed_material(seed2));
    assert(d1.subrange(0, 8) =~= d2.subrange(0, 8));
    assert(d1.subrange(40, d1.len() as int) =~= d2.subrange(40, d2.len() as int));
}

} // verus!
