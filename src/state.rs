//! The durable record, the slot that holds it at its address, and errors.

use vstd::prelude::*;

use crate::keys::is_user_address;

verus! {

/// The durable per-user record.
#[derive(Clone, Copy, Debug)]
pub struct UserAccount {
    pub user: [u8; 32],
    pub data: u64,
    pub bump: u8,
    pub randomness_result: u64,
}

/// Which execution context owns a record.
#[derive(Clone, Copy, Debug, PartialEq, Eq, Structural)]
pub enum Ownership {
    HomeOwned,
    Delegated,
}

/// A claimed identity, and whether it signed the current operation.
#[derive(Clone, Copy, Debug)]
pub struct Signer {
    pub key: [u8; 32],
    pub is_signer: bool,
}

/// Why an operation was refused; a refused operation changes nothing.
#[derive(Clone, Copy, Debug, PartialEq, Eq, Structural)]
pub enum ErrorCode {
    /// The caller is not the required identity, or did not sign.
    Unauthorized,
    /// The supplied address is not the one derived for the record.
    InvalidAddressDerivation,
    /// The record is held by the rollup.
    AlreadyDelegated,
    /// The record is held by the home store.
    NotDelegated,
    /// The oracle's payload cannot be read as a value.
    InvalidRandomness,
    /// No record is stored at the address.
    AccountNotFound,
    /// A record is already stored at the address.
    AlreadyInitialized,
    /// The request names a queue other than the oracle's default queue.
    InvalidOracleQueue,
}

/// What is stored at one record address: the home store's copy, and while
/// the record is delegated, the rollup's working copy.
#[derive(Clone, Copy, Debug)]
pub struct AccountSlot {
    pub address: [u8; 32],
    pub home: Option<UserAccount>,
    pub rollup: Option<UserAccount>,
}

impl AccountSlot {
    /// An address that holds no record.
    pub fn empty(address: [u8; 32]) -> (r: AccountSlot)
        ensures
            r.address == address,
            r.home is None,
            r.rollup is None,
    {
        AccountSlot { address, home: None, rollup: None }
    }

    /// A rollup copy exists only beside a home record, for the same owner and
    /// nonce.
    pub open spec fn wf(&self) -> bool {
        self.rollup matches Some(d) ==> (self.home matches Some(h) && d.user == h.user
            && d.bump == h.bump)
    }

    pub open spec fn is_delegated(&self) -> bool {
        self.rollup is Some
    }

    /// The copy that the owning context reads and writes.
    pub open spec fn current(&self) -> Option<UserAccount> {
        if self.rollup is Some {
            self.rollup
        } else {
            self.home
        }
    }

    /// Which context owns the record.
    pub fn ownership(&self) -> (r: Ownership)
        ensures
            r == (if self.is_delegated() { Ownership::Delegated } else { Ownership::HomeOwned }),
    {
        if self.rollup.is_some() {
            Ownership::Delegated
        } else {
            Ownership::HomeOwned
        }
    }

    /// The payload of the owning context's copy.
    pub fn payload(&self) -> (r: Option<u64>)
        ensures
            r == (match self.current() {
                Some(a) => Some(a.data),
                None => None::<u64>,
            }),
    {
        match self.rollup {
            Some(a) => Some(a.data),
            None => match self.home {
                Some(a) => Some(a.data),
                None => None,
            },
        }
    }

    /// The last random value of the owning context's copy.
    pub fn randomness(&self) -> (r: Option<u64>)
        ensures
            r == (match self.current() {
                Some(a) => Some(a.randomness_result),
                None => None::<u64>,
            }),
    {
        match self.rollup {
            Some(a) => Some(a.randomness_result),
            None => match self.home {
                Some(a) => Some(a.randomness_result),
                None => None,
            },
        }
    }

    /// Whether the slot's address is the one derived for its record.
    pub open spec fn address_checks(&self) -> bool {
        self.home matches Some(h) && is_user_address(self.address@, h.user@, h.bump)
    }
}

} // verus!
