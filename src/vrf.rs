//! Requests for verifiable randomness, and the oracle's callback.

#![allow(deprecated)]

use anchor_lang::solana_program::hash::hash;
use ephemeral_vrf_sdk::instructions::{create_request_legacy_randomness_ix, RequestRandomnessParams};
use ephemeral_vrf_sdk::types::SerializableAccountMeta;
use ephemeral_vrf_sdk::Pubkey as VrfKey;
use vstd::prelude::*;

use crate::bytes::{le_value, read_u64_le};
use crate::delegation::{after, outcome};
use crate::gate::{authorize_owner, owner_gate, require_identity, verify_slot};
use crate::keys::{same_key, DEFAULT_QUEUE, PROGRAM_ID, VRF_PROGRAM_ID, VRF_PROGRAM_IDENTITY};
use crate::state::{AccountSlot, ErrorCode, Signer, UserAccount};

verus! {

/// The SHA-256 digest of `data`.
pub uninterp spec fn sha256_of(data: Seq<u8>) -> Seq<u8>;

/// Relies on `solana_program::hash::hash` (solana-sha256-hasher): the
/// SHA-256 digest of its input, 32 bytes.
#[verifier::external_body]
fn sha256(data: &[u8]) -> (r: [u8; 32])
    ensures
        r@ == sha256_of(data@),
{
    hash(data).to_bytes()
}

/// The text whose digest begins with the callback's instruction tag.
pub const VRF_CALLBACK_PREIMAGE: [u8; 19] = [
    103, 108, 111, 98, 97, 108, 58, 118, 114, 102, 95, 99, 97, 108, 108, 98, 97, 99, 107,
];

/// An account that an instruction passes on, and how.
#[derive(Clone, Copy, Debug)]
pub struct CallbackAccount {
    pub pubkey: [u8; 32],
    pub is_signer: bool,
    pub is_writable: bool,
}

/// What is sent to the oracle to ask for a random value.
#[derive(Clone, Debug)]
pub struct RandomnessRequest {
    pub payer: [u8; 32],
    pub oracle_queue: [u8; 32],
    pub callback_program_id: [u8; 32],
    pub caller_seed: [u8; 32],
    pub callback_discriminator: Vec<u8>,
    pub callback_accounts: Vec<CallbackAccount>,
}

/// An instruction for the oracle program.
#[derive(Clone, Debug)]
pub struct RequestInstruction {
    pub program_id: [u8; 32],
    pub accounts: Vec<CallbackAccount>,
    pub data: Vec<u8>,
}

pub open spec fn u32_le(n: nat) -> Seq<u8> {
    seq![
        (n % 256) as u8,
        ((n / 256) % 256) as u8,
        ((n / 65536) % 256) as u8,
        ((n / 16777216) % 256) as u8,
    ]
}

pub open spec fn bool_byte(b: bool) -> u8 {
    if b {
        1
    } else {
        0
    }
}

pub open spec fn account_bytes(m: CallbackAccount) -> Seq<u8> {
    m.pubkey@ + seq![bool_byte(m.is_signer), bool_byte(m.is_writable)]
}

pub open spec fn accounts_bytes(s: Seq<CallbackAccount>) -> Seq<u8>
    decreases s.len(),
{
    if s.len() == 0 {
        Seq::empty()
    } else {
        accounts_bytes(s.drop_last()) + account_bytes(s.last())
    }
}

/// The oracle's request data: an eight-byte instruction tag, then the seed
/// material, the callback program, the callback's tag and the accounts it
/// needs, in Borsh encoding (vectors as a little-endian `u32` length and
/// their elements), and an empty list of callback arguments.
pub open spec fn request_data(
    seed: Seq<u8>,
    program: Seq<u8>,
    discriminator: Seq<u8>,
    accounts: Seq<CallbackAccount>,
) -> Seq<u8> {
    seq![3u8, 0, 0, 0, 0, 0, 0, 0] + seed + program + u32_le(discriminator.len()) + discriminator
        + u32_le(accounts.len()) + accounts_bytes(accounts) + u32_le(0)
}

/// Relies on `create_request_legacy_randomness_ix` (ephemeral-vrf-sdk): an
/// instruction for the oracle program, whose accounts are the payer
/// (signing, writable), the caller's identity, the queue (writable), and two
/// system accounts, and whose data is the request's encoding.
#[verifier::external_body]
fn request_instruction(req: &RandomnessRequest) -> (ix: RequestInstruction)
    requires
        req.callback_discriminator@.len() < 0x1_0000_0000,
        req.callback_accounts@.len() < 0x1_0000_0000,
    ensures
        ix.program_id@ == VRF_PROGRAM_ID@,
        ix.accounts@.len() == 5,
        ix.accounts@[0] == (CallbackAccount { pubkey: req.payer, is_signer: true, is_writable: true }),
        ix.accounts@[2] == (CallbackAccount { pubkey: req.oracle_queue, is_signer: false, is_writable: true }),
        ix.data@ == request_data(
            req.caller_seed@,
            req.callback_program_id@,
            req.callback_discriminator@,
            req.callback_accounts@,
        ),
{
    let k = VrfKey::new_from_array;
    let ix = create_request_legacy_randomness_ix(RequestRandomnessParams {
        payer: k(req.payer),
        oracle_queue: k(req.oracle_queue),
        callback_program_id: k(req.callback_program_id),
        callback_discriminator: req.callback_discriminator.clone(), caller_seed: req.caller_seed,
        accounts_metas: Some(req.callback_accounts.iter().map(|m| SerializableAccountMeta {
            pubkey: k(m.pubkey), is_signer: m.is_signer, is_writable: m.is_writable }).collect()),
        callback_args: None,
    });
    let accounts = ix.accounts.iter().map(|m| CallbackAccount {
        pubkey: m.pubkey.to_bytes(), is_signer: m.is_signer, is_writable: m.is_writable }).collect();
    RequestInstruction { program_id: ix.program_id.to_bytes(), accounts, data: ix.data }
}

/// The tag that selects the callback entry point: the first eight bytes of
/// the digest of its preimage.
pub open spec fn callback_tag() -> Seq<u8> {
    sha256_of(VRF_CALLBACK_PREIMAGE@).take(8)
}

/// The tag that selects the callback entry point.
pub fn vrf_callback_discriminator() -> (r: Vec<u8>)
    ensures
        r@ == callback_tag(),
        r@.len() == 8,
{
    let d = sha256(&VRF_CALLBACK_PREIMAGE);
    let mut r: Vec<u8> = Vec::new();
    let mut i: usize = 0;
    while i < 8
        invariant
            i <= 8,
            d@.len() == 32,
            r@ == d@.take(i as int),
        decreases 8 - i,
    {
        r.push(d[i]);
        i = i + 1;
        assert(r@ =~= d@.take(i as int));
    }
    r
}

/// The request for a random value for the record at `target`, paid by
/// `payer`, with the digest of the caller's seed as seed material.
pub fn randomness_request(payer: [u8; 32], target: [u8; 32], seed_digest: [u8; 32]) -> (r: RandomnessRequest)
    ensures
        r.payer == payer,
        r.oracle_queue == DEFAULT_QUEUE,
        r.callback_program_id == PROGRAM_ID,
        r.caller_seed == seed_digest,
        r.callback_discriminator@ == callback_tag(),
        r.callback_discriminator@.len() == 8,
        r.callback_accounts@ == seq![CallbackAccount { pubkey: target, is_signer: false, is_writable: true }],
{
    let mut callback_accounts: Vec<CallbackAccount> = Vec::new();
    callback_accounts.push(CallbackAccount { pubkey: target, is_signer: false, is_writable: true });
    assert(callback_accounts@ =~= seq![CallbackAccount { pubkey: target, is_signer: false, is_writable: true }]);
    RandomnessRequest {
        payer,
        oracle_queue: DEFAULT_QUEUE,
        callback_program_id: PROGRAM_ID,
        caller_seed: seed_digest,
        callback_discriminator: vrf_callback_discriminator(),
        callback_accounts,
    }
}

/// The seed material of a request: the digest of the caller's seed byte.
pub open spec fn seed_material(caller_seed: u8) -> Seq<u8> {
    sha256_of(seq![caller_seed])
}

/// Whether `ix` asks the oracle, on behalf of `payer`, for a random value for
/// the record at `target`, seeded with the digest of `caller_seed`.
pub open spec fn is_request_for(ix: RequestInstruction, payer: [u8; 32], target: [u8; 32], caller_seed: u8) -> bool {
    &&& seed_material(caller_seed).len() == 32
    &&& ix.program_id@ == VRF_PROGRAM_ID@
    &&& ix.accounts@.len() == 5
    &&& ix.accounts@[0] == (CallbackAccount { pubkey: payer, is_signer: true, is_writable: true })
    &&& ix.accounts@[2] == (CallbackAccount { pubkey: DEFAULT_QUEUE, is_signer: false, is_writable: true })
    &&& ix.data@ == request_data(
        seed_material(caller_seed),
        PROGRAM_ID@,
        callback_tag(),
        seq![CallbackAccount { pubkey: target, is_signer: false, is_writable: true }],
    )
}

/// The accounts of a randomness request: the caller, its record, and the
/// oracle queue.
#[derive(Clone, Copy, Debug)]
pub struct RequestVrfRandom {
    pub user: Signer,
    pub user_account: AccountSlot,
    pub oracle_queue: [u8; 32],
}

impl RequestVrfRandom {
    /// The first failure of the checks on a request.
    pub open spec fn request_gate(&self) -> Option<ErrorCode> {
        match owner_gate(self.user, self.user_account) {
            Some(e) => Some(e),
            None => if self.oracle_queue@ != DEFAULT_QUEUE@ {
                Some(ErrorCode::InvalidOracleQueue)
            } else {
                None
            },
        }
    }

    /// Builds the instruction that asks the oracle for a random value for the
    /// caller's record; the caller must own the record and name the default
    /// queue.
    pub fn request_vrf_random(&self, caller_seed: u8) -> (r: Result<RequestInstruction, ErrorCode>)
        ensures
            r is Err <==> self.request_gate() is Some,
            r matches Err(e) ==> self.request_gate() == Some(e),
            r matches Ok(ix) ==> is_request_for(ix, self.user.key, self.user_account.address, caller_seed),
    {
        authorize_owner(&self.user, &self.user_account)?;
        if !same_key(&self.oracle_queue, &DEFAULT_QUEUE) {
            return Err(ErrorCode::InvalidOracleQueue);
        }
        let seed = [caller_seed];
        assert(seed@ =~= seq![caller_seed]);
        let digest = sha256(&seed);
        let req = randomness_request(self.user.key, self.user_account.address, digest);
        let ix = request_instruction(&req);
        Ok(ix)
    }
}

/// The record after the oracle delivers `value`: the owning context's copy
/// takes it.
pub open spec fn with_randomness(s: AccountSlot, value: u64) -> AccountSlot {
    let set = |a: UserAccount|
        UserAccount { user: a.user, data: a.data, bump: a.bump, randomness_result: value };
    match s.rollup {
        Some(d) => AccountSlot { address: s.address, home: s.home, rollup: Some(set(d)) },
        None => AccountSlot { address: s.address, home: Some(set(s.home->0)), rollup: None },
    }
}

pub open spec fn callback_step(caller: Signer, s: AccountSlot, randomness: Seq<u8>) -> Result<AccountSlot, ErrorCode> {
    if !(caller.is_signer && caller.key@ == VRF_PROGRAM_IDENTITY@) {
        Err(ErrorCode::Unauthorized)
    } else if s.home is None {
        Err(ErrorCode::AccountNotFound)
    } else if !s.address_checks() {
        Err(ErrorCode::InvalidAddressDerivation)
    } else {
        Ok(with_randomness(s, le_value(randomness.take(8)) as u64))
    }
}

/// The accounts of the oracle's callback: the oracle's signing identity and
/// the record that asked.
#[derive(Clone, Copy, Debug)]
pub struct VrfCallback {
    pub vrf_program_identity: Signer,
    pub user_account: AccountSlot,
}

impl VrfCallback {
    /// Stores the value of the first eight bytes of `randomness`, read
    /// little-endian, in the owning context's copy of the record; only the
    /// oracle's signed identity is admitted. Requests carry no in-flight
    /// marker, so a later callback replaces the value of an earlier one.
    pub fn vrf_callback(&mut self, randomness: [u8; 32]) -> (r: Result<(), ErrorCode>)
        requires
            old(self).user_account.wf(),
        ensures
            r == outcome(callback_step(old(self).vrf_program_identity, old(self).user_account, randomness@)),
            final(self).user_account == after(
                callback_step(old(self).vrf_program_identity, old(self).user_account, randomness@),
                old(self).user_account,
            ),
            final(self).vrf_program_identity == old(self).vrf_program_identity,
            final(self).user_account.wf(),
    {
        require_identity(&self.vrf_program_identity, &VRF_PROGRAM_IDENTITY)?;
        verify_slot(&self.user_account)?;
        let value = read_u64_le(randomness.as_slice())?;
        let slot = &mut self.user_account;
        match (slot.home, slot.rollup) {
            (_, Some(d)) => {
                slot.rollup = Some(UserAccount { randomness_result: value, ..d });
            },
            (Some(h), None) => {
                slot.home = Some(UserAccount { randomness_result: value, ..h });
            },
            (None, None) => {},
        }
        Ok(())
    }
}

/// Builds the oracle request for the caller's record.
pub fn request_vrf_random(ctx: &RequestVrfRandom, seed: u8) -> (r: Result<RequestInstruction, ErrorCode>)
    ensures
        r is Err <==> ctx.request_gate() is Some,
        r matches Err(e) ==> ctx.request_gate() == Some(e),
        r matches Ok(ix) ==> is_request_for(ix, ctx.user.key, ctx.user_account.address, seed),
{
    ctx.request_vrf_random(seed)
}

/// Applies the oracle's callback to the record.
pub fn vrf_callback(ctx: &mut VrfCallback, randomness: [u8; 32]) -> (r: Result<(), ErrorCode>)
    requires
        old(ctx).user_account.wf(),
    ensures
        r == outcome(callback_step(old(ctx).vrf_program_identity, old(ctx).user_account, randomness@)),
        final(ctx).user_account == after(
            callback_step(old(ctx).vrf_program_identity, old(ctx).user_account, randomness@),
            old(ctx).user_account,
        ),
        final(ctx).user_account.wf(),
{
    ctx.vrf_callback(randomness)
}

} // verus!
