//! Account state that can be handed to a rollup and reclaimed, and that
//! receives verifiable random values from an oracle through a
//! request/callback exchange.
//!
//! Every operation works on the slot at one record address, checks the
//! caller and re-derives the address before it changes anything, and either
//! applies its whole effect or none of it.

pub mod bytes;
pub mod delegation;
pub mod gate;
pub mod keys;
pub mod laws;
pub mod state;
pub mod store;
pub mod vrf;

pub use bytes::read_u64_le;
pub use delegation::{close, delegate, initialize, undelegate, update, update_commit};
pub use gate::{authorize_owner, require_identity, require_signer, verify_slot};
pub use keys::{
    find_user_address, verify_user_address, DEFAULT_QUEUE, PROGRAM_ID, USER_SEED, VRF_PROGRAM_ID,
    VRF_PROGRAM_IDENTITY,
};
pub use state::{AccountSlot, ErrorCode, Ownership, Signer, UserAccount};
pub use store::AccountStore;
pub use vrf::{
    randomness_request, request_vrf_random, vrf_callback, vrf_callback_discriminator,
    CallbackAccount, RandomnessRequest, RequestInstruction, RequestVrfRandom, VrfCallback,
    VRF_CALLBACK_PREIMAGE,
};
