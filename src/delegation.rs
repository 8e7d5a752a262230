//! Creating and closing records, updating them, and moving their ownership
//! between the home store and the rollup.

use vstd::prelude::*;

use crate::gate::{authorize_owner, owner_gate, require_signer};
use crate::keys::{find_user_address, is_canonical_address, lemma_canonical_unique, same_key};
use crate::state::{AccountSlot, ErrorCode, Signer, UserAccount};

verus! {

/// What an operation does to a slot: the slot afterwards, or the error, in
/// which case the slot is left as it was.
pub open spec fn outcome(t: Result<AccountSlot, ErrorCode>) -> Result<(), ErrorCode> {
    match t {
        Ok(_) => Ok(()),
        Err(e) => Err(e),
    }
}

pub open spec fn after(t: Result<AccountSlot, ErrorCode>, s: AccountSlot) -> AccountSlot {
    match t {
        Ok(n) => n,
        Err(_) => s,
    }
}

pub open spec fn with_data(a: UserAccount, data: u64) -> UserAccount {
    UserAccount { user: a.user, data, bump: a.bump, randomness_result: a.randomness_result }
}

/// A fresh record of `owner` with nonce `bump`.
pub open spec fn fresh_account(owner: [u8; 32], bump: u8) -> UserAccount {
    UserAccount { user: owner, data: 0, bump, randomness_result: 0 }
}

pub open spec fn initialize_step(caller: Signer, s: AccountSlot) -> Result<AccountSlot, ErrorCode> {
    if !caller.is_signer {
        Err(ErrorCode::Unauthorized)
    } else if s.home is Some {
        Err(ErrorCode::AlreadyInitialized)
    } else if exists|b: u8| is_canonical_address(s.address@, caller.key@, b) {
        let b = choose|b: u8| is_canonical_address(s.address@, caller.key@, b);
        Ok(AccountSlot { address: s.address, home: Some(fresh_account(caller.key, b)), rollup: None })
    } else {
        Err(ErrorCode::InvalidAddressDerivation)
    }
}

pub open spec fn update_step(caller: Signer, s: AccountSlot, data: u64) -> Result<AccountSlot, ErrorCode> {
    match owner_gate(caller, s) {
        Some(e) => Err(e),
        None => if s.is_delegated() {
            Err(ErrorCode::AlreadyDelegated)
        } else {
            Ok(AccountSlot { address: s.address, home: Some(with_data(s.home->0, data)), rollup: None })
        },
    }
}

pub open spec fn update_commit_step(caller: Signer, s: AccountSlot, data: u64) -> Result<AccountSlot, ErrorCode> {
    match owner_gate(caller, s) {
        Some(e) => Err(e),
        None => if !s.is_delegated() {
            Err(ErrorCode::NotDelegated)
        } else {
            Ok(AccountSlot {
                address: s.address,
                home: Some(with_data(s.home->0, data)),
                rollup: Some(with_data(s.rollup->0, data)),
            })
        },
    }
}

pub open spec fn delegate_step(caller: Signer, s: AccountSlot) -> Result<AccountSlot, ErrorCode> {
    match owner_gate(caller, s) {
        Some(e) => Err(e),
        None => if s.is_delegated() {
            Err(ErrorCode::AlreadyDelegated)
        } else {
            Ok(AccountSlot { address: s.address, home: s.home, rollup: s.home })
        },
    }
}

pub open spec fn undelegate_step(caller: Signer, s: AccountSlot) -> Result<AccountSlot, ErrorCode> {
    match owner_gate(caller, s) {
        Some(e) => Err(e),
        None => if !s.is_delegated() {
            Err(ErrorCode::NotDelegated)
        } else {
            Ok(AccountSlot { address: s.address, home: s.rollup, rollup: None })
        },
    }
}

pub open spec fn close_step(caller: Signer, s: AccountSlot) -> Result<AccountSlot, ErrorCode> {
    match owner_gate(caller, s) {
        Some(e) => Err(e),
        None => if s.is_delegated() {
            Err(ErrorCode::AlreadyDelegated)
        } else {
            Ok(AccountSlot { address: s.address, home: None, rollup: None })
        },
    }
}

/// Creates the caller's record at the slot's address, which must be the
/// caller's canonical record address.
pub fn initialize(caller: &Signer, slot: &mut AccountSlot) -> (r: Result<(), ErrorCode>)
    requires
        old(slot).wf(),
    ensures
        r == outcome(initialize_step(*caller, *old(slot))),
        *final(slot) == after(initialize_step(*caller, *old(slot)), *old(slot)),
        final(slot).wf(),
{
    require_signer(caller)?;
    if slot.home.is_some() {
        return Err(ErrorCode::AlreadyInitialized);
    }
    match find_user_address(&caller.key) {
        Some((a, b)) => {
            if !same_key(&a, &slot.address) {
                proof {
                    if exists|c: u8| is_canonical_address(slot.address@, caller.key@, c) {
                        let c = choose|c: u8| is_canonical_address(slot.address@, caller.key@, c);
                        lemma_canonical_unique(a@, slot.address@, caller.key@, b, c);
                    }
                }
                return Err(ErrorCode::InvalidAddressDerivation);
            }
            proof {
                let c = choose|c: u8| is_canonical_address(slot.address@, caller.key@, c);
                lemma_canonical_unique(a@, slot.address@, caller.key@, b, c);
            }
            slot.home = Some(UserAccount { user: caller.key, data: 0, bump: b, randomness_result: 0 });
            slot.rollup = None;
            Ok(())
        },
        None => Err(ErrorCode::InvalidAddressDerivation),
    }
}

/// Replaces the payload in the home store; the record must not be delegated.
pub fn update(caller: &Signer, slot: &mut AccountSlot, new_data: u64) -> (r: Result<(), ErrorCode>)
    requires
        old(slot).wf(),
    ensures
        r == outcome(update_step(*caller, *old(slot), new_data)),
        *final(slot) == after(update_step(*caller, *old(slot), new_data), *old(slot)),
        final(slot).wf(),
{
    authorize_owner(caller, slot)?;
    if slot.rollup.is_some() {
        return Err(ErrorCode::AlreadyDelegated);
    }
    if let Some(h) = slot.home {
        slot.home = Some(UserAccount { data: new_data, ..h });
    }
    Ok(())
}

/// Replaces the payload in the rollup and checkpoints it to the home store;
/// the record must be delegated.
pub fn update_commit(caller: &Signer, slot: &mut AccountSlot, new_data: u64) -> (r: Result<(), ErrorCode>)
    requires
        old(slot).wf(),
    ensures
        r == outcome(update_commit_step(*caller, *old(slot), new_data)),
        *final(slot) == after(update_commit_step(*caller, *old(slot), new_data), *old(slot)),
        final(slot).wf(),
{
    authorize_owner(caller, slot)?;
    match (slot.home, slot.rollup) {
        (Some(h), Some(d)) => {
            slot.home = Some(UserAccount { data: new_data, ..h });
            slot.rollup = Some(UserAccount { data: new_data, ..d });
            Ok(())
        },
        _ => Err(ErrorCode::NotDelegated),
    }
}

/// Hands the record to the rollup.
pub fn delegate(caller: &Signer, slot: &mut AccountSlot) -> (r: Result<(), ErrorCode>)
    requires
        old(slot).wf(),
    ensures
        r == outcome(delegate_step(*caller, *old(slot))),
        *final(slot) == after(delegate_step(*caller, *old(slot)), *old(slot)),
        final(slot).wf(),
{
    authorize_owner(caller, slot)?;
    if slot.rollup.is_some() {
        return Err(ErrorCode::AlreadyDelegated);
    }
    slot.rollup = slot.home;
    Ok(())
}

/// Takes the record back from the rollup, whose copy replaces the home copy.
pub fn undelegate(caller: &Signer, slot: &mut AccountSlot) -> (r: Result<(), ErrorCode>)
    requires
        old(slot).wf(),
    ensures
        r == outcome(undelegate_step(*caller, *old(slot))),
        *final(slot) == after(undelegate_step(*caller, *old(slot)), *old(slot)),
        final(slot).wf(),
{
    authorize_owner(caller, slot)?;
    if slot.rollup.is_none() {
        return Err(ErrorCode::NotDelegated);
    }
    slot.home = slot.rollup;
    slot.rollup = None;
    Ok(())
}

/// Removes a home-owned record.
pub fn close(caller: &Signer, slot: &mut AccountSlot) -> (r: Result<(), ErrorCode>)
    requires
        old(slot).wf(),
    ensures
        r == outcome(close_step(*caller, *old(slot))),
        *final(slot) == after(close_step(*caller, *old(slot)), *old(slot)),
        final(slot).wf(),
{
    authorize_owner(caller, slot)?;
    if slot.rollup.is_some() {
        return Err(ErrorCode::AlreadyDelegated);
    }
    slot.home = None;
    Ok(())
}

} // verus!
