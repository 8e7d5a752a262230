//! Identity, signature and address checks made before any mutation.

use vstd::prelude::*;

use crate::keys::{is_user_address, same_key, verify_user_address};
use crate::state::{AccountSlot, ErrorCode, Signer};

verus! {

/// The caller must have signed.
pub fn require_signer(caller: &Signer) -> (r: Result<(), ErrorCode>)
    ensures
        r == (if caller.is_signer { Ok(()) } else { Err::<(), ErrorCode>(ErrorCode::Unauthorized) }),
{
    if caller.is_signer {
        Ok(())
    } else {
        Err(ErrorCode::Unauthorized)
    }
}

/// The caller must be `expected` and must have signed.
pub fn require_identity(caller: &Signer, expected: &[u8; 32]) -> (r: Result<(), ErrorCode>)
    ensures
        r == (if caller.is_signer && caller.key@ == expected@ {
            Ok(())
        } else {
            Err::<(), ErrorCode>(ErrorCode::Unauthorized)
        }),
{
    if caller.is_signer && same_key(&caller.key, expected) {
        Ok(())
    } else {
        Err(ErrorCode::Unauthorized)
    }
}

/// The first failure of the checks on a caller acting on its own record:
/// the caller signed, the record exists, the caller owns it, and the slot's
/// address is the one re-derived from the record's owner and nonce.
pub open spec fn owner_gate(caller: Signer, slot: AccountSlot) -> Option<ErrorCode> {
    if !caller.is_signer {
        Some(ErrorCode::Unauthorized)
    } else if slot.home is None {
        Some(ErrorCode::AccountNotFound)
    } else if caller.key@ != slot.home->0.user@ {
        Some(ErrorCode::Unauthorized)
    } else if !slot.address_checks() {
        Some(ErrorCode::InvalidAddressDerivation)
    } else {
        None
    }
}

/// Admits a caller to act on its own record.
pub fn authorize_owner(caller: &Signer, slot: &AccountSlot) -> (r: Result<(), ErrorCode>)
    ensures
        r == (match owner_gate(*caller, *slot) {
            Some(e) => Err(e),
            None => Ok::<(), ErrorCode>(()),
        }),
{
    require_signer(caller)?;
    match slot.home {
        None => Err(ErrorCode::AccountNotFound),
        Some(h) => {
            if !same_key(&caller.key, &h.user) {
                Err(ErrorCode::Unauthorized)
            } else if !verify_user_address(&slot.address, &h.user, h.bump) {
                Err(ErrorCode::InvalidAddressDerivation)
            } else {
                Ok(())
            }
        },
    }
}

/// Checks that the slot holds a record stored at its own derived address.
pub fn verify_slot(slot: &AccountSlot) -> (r: Result<(), ErrorCode>)
    ensures
        r == (if slot.home is None {
            Err(ErrorCode::AccountNotFound)
        } else if !is_user_address(slot.address@, slot.home->0.user@, slot.home->0.bump) {
            Err(ErrorCode::InvalidAddressDerivation)
        } else {
            Ok::<(), ErrorCode>(())
        }),
{
    match slot.home {
        None => Err(ErrorCode::AccountNotFound),
        Some(h) => {
            if verify_user_address(&slot.address, &h.user, h.bump) {
                Ok(())
            } else {
                Err(ErrorCode::InvalidAddressDerivation)
            }
        },
    }
}

} // verus!
