use er_state_account::{
    close, delegate, find_user_address, initialize, read_u64_le, request_vrf_random, undelegate,
    update, update_commit, verify_user_address, vrf_callback, vrf_callback_discriminator,
    AccountSlot, ErrorCode, Ownership, RequestVrfRandom, Signer, VrfCallback, DEFAULT_QUEUE,
    PROGRAM_ID, VRF_PROGRAM_ID, VRF_PROGRAM_IDENTITY,
};
use ephemeral_vrf_sdk::consts;

fn owner() -> Signer {
    Signer { key: [7u8; 32], is_signer: true }
}

fn oracle() -> Signer {
    Signer { key: VRF_PROGRAM_IDENTITY, is_signer: true }
}

fn fresh_slot(key: &[u8; 32]) -> AccountSlot {
    let (address, _) = find_user_address(key).expect("an address exists");
    AccountSlot::empty(address)
}

fn initialized() -> AccountSlot {
    let mut slot = fresh_slot(&owner().key);
    assert_eq!(initialize(&owner(), &mut slot), Ok(()));
    slot
}

#[test]
fn derived_address_is_stable_and_matches_solana() {
    let key = [7u8; 32];
    let first = find_user_address(&key).unwrap();
    let second = find_user_address(&key).unwrap();
    assert_eq!(first, second);
    let program = anchor_lang::prelude::Pubkey::new_from_array(PROGRAM_ID);
    let owner_key = anchor_lang::prelude::Pubkey::new_from_array(key);
    let (expected, bump) =
        anchor_lang::prelude::Pubkey::find_program_address(&[b"user", owner_key.as_ref()], &program);
    assert_eq!(first, (expected.to_bytes(), bump));
    assert!(verify_user_address(&first.0, &key, first.1));
    let mut other = first.0;
    other[0] ^= 1;
    assert!(!verify_user_address(&other, &key, first.1));
}

#[test]
fn different_owners_get_different_addresses() {
    let a = find_user_address(&[1u8; 32]).unwrap();
    let b = find_user_address(&[2u8; 32]).unwrap();
    assert_ne!(a.0, b.0);
}

#[test]
fn initialize_creates_a_zeroed_record() {
    let slot = initialized();
    let account = slot.home.unwrap();
    assert_eq!(account.user, owner().key);
    assert_eq!(account.data, 0);
    assert_eq!(account.randomness_result, 0);
    assert_eq!(account.bump, find_user_address(&owner().key).unwrap().1);
    assert_eq!(slot.ownership(), Ownership::HomeOwned);
}

#[test]
fn initialize_twice_fails() {
    let mut slot = initialized();
    assert_eq!(initialize(&owner(), &mut slot), Err(ErrorCode::AlreadyInitialized));
}

#[test]
fn initialize_needs_a_signature() {
    let mut slot = fresh_slot(&owner().key);
    let unsigned = Signer { key: owner().key, is_signer: false };
    assert_eq!(initialize(&unsigned, &mut slot), Err(ErrorCode::Unauthorized));
    assert!(slot.home.is_none());
}

#[test]
fn initialize_at_a_foreign_address_fails() {
    let mut slot = fresh_slot(&[9u8; 32]);
    assert_eq!(initialize(&owner(), &mut slot), Err(ErrorCode::InvalidAddressDerivation));
    assert!(slot.home.is_none());
}

#[test]
fn update_then_read_returns_the_payload() {
    let mut slot = initialized();
    assert_eq!(update(&owner(), &mut slot, 42), Ok(()));
    assert_eq!(slot.payload(), Some(42));
}

#[test]
fn update_by_a_stranger_is_rejected() {
    let mut slot = initialized();
    let stranger = Signer { key: [8u8; 32], is_signer: true };
    assert_eq!(update(&stranger, &mut slot, 5), Err(ErrorCode::Unauthorized));
    assert_eq!(slot.payload(), Some(0));
}

#[test]
fn update_at_a_moved_address_is_rejected() {
    let mut slot = initialized();
    slot.address[3] ^= 0xff;
    assert_eq!(update(&owner(), &mut slot, 5), Err(ErrorCode::InvalidAddressDerivation));
    assert_eq!(slot.payload(), Some(0));
}

#[test]
fn delegation_round_trip_brings_the_payload_home() {
    let mut slot = initialized();
    assert_eq!(delegate(&owner(), &mut slot), Ok(()));
    assert_eq!(slot.ownership(), Ownership::Delegated);
    assert_eq!(update_commit(&owner(), &mut slot, 7), Ok(()));
    assert_eq!(slot.home.unwrap().data, 7);
    assert_eq!(undelegate(&owner(), &mut slot), Ok(()));
    assert_eq!(slot.ownership(), Ownership::HomeOwned);
    assert_eq!(slot.payload(), Some(7));
}

#[test]
fn delegate_twice_fails() {
    let mut slot = initialized();
    assert_eq!(delegate(&owner(), &mut slot), Ok(()));
    assert_eq!(delegate(&owner(), &mut slot), Err(ErrorCode::AlreadyDelegated));
}

#[test]
fn undelegate_without_delegation_fails() {
    let mut slot = initialized();
    assert_eq!(undelegate(&owner(), &mut slot), Err(ErrorCode::NotDelegated));
}

#[test]
fn update_commit_without_delegation_fails() {
    let mut slot = initialized();
    assert_eq!(update_commit(&owner(), &mut slot, 3), Err(ErrorCode::NotDelegated));
    assert_eq!(slot.payload(), Some(0));
}

#[test]
fn home_update_while_delegated_fails() {
    let mut slot = initialized();
    delegate(&owner(), &mut slot).unwrap();
    assert_eq!(update(&owner(), &mut slot, 3), Err(ErrorCode::AlreadyDelegated));
}

#[test]
fn close_while_delegated_fails() {
    let mut slot = initialized();
    delegate(&owner(), &mut slot).unwrap();
    assert_eq!(close(&owner(), &mut slot), Err(ErrorCode::AlreadyDelegated));
    assert!(slot.home.is_some());
}

#[test]
fn closed_record_is_not_found() {
    let mut slot = initialized();
    assert_eq!(close(&owner(), &mut slot), Ok(()));
    assert_eq!(update(&owner(), &mut slot, 1), Err(ErrorCode::AccountNotFound));
    assert_eq!(delegate(&owner(), &mut slot), Err(ErrorCode::AccountNotFound));
    assert_eq!(undelegate(&owner(), &mut slot), Err(ErrorCode::AccountNotFound));
    assert_eq!(close(&owner(), &mut slot), Err(ErrorCode::AccountNotFound));
    let mut cb = VrfCallback { vrf_program_identity: oracle(), user_account: slot };
    assert_eq!(vrf_callback(&mut cb, [1u8; 32]), Err(ErrorCode::AccountNotFound));
}

#[test]
fn callback_sets_the_random_value() {
    let mut randomness = [0xabu8; 32];
    randomness[..8].copy_from_slice(&[1, 0, 0, 0, 0, 0, 0, 0]);
    let mut cb = VrfCallback { vrf_program_identity: oracle(), user_account: initialized() };
    assert_eq!(cb.vrf_callback(randomness), Ok(()));
    assert_eq!(cb.user_account.randomness(), Some(1));
}

#[test]
fn callback_reads_little_endian() {
    let mut randomness = [0u8; 32];
    randomness[..8].copy_from_slice(&[1, 2, 3, 4, 5, 6, 7, 8]);
    let mut cb = VrfCallback { vrf_program_identity: oracle(), user_account: initialized() };
    assert_eq!(vrf_callback(&mut cb, randomness), Ok(()));
    assert_eq!(cb.user_account.randomness(), Some(0x0807060504030201));
}

#[test]
fn callback_while_delegated_writes_the_rollup_copy() {
    let mut slot = initialized();
    delegate(&owner(), &mut slot).unwrap();
    let mut cb = VrfCallback { vrf_program_identity: oracle(), user_account: slot };
    assert_eq!(vrf_callback(&mut cb, [2u8; 32]), Ok(()));
    assert_eq!(cb.user_account.randomness(), Some(0x0202020202020202));
    assert_eq!(cb.user_account.home.unwrap().randomness_result, 0);
}

#[test]
fn callback_from_a_stranger_is_rejected() {
    let stranger = Signer { key: [5u8; 32], is_signer: true };
    let mut cb = VrfCallback { vrf_program_identity: stranger, user_account: initialized() };
    assert_eq!(vrf_callback(&mut cb, [1u8; 32]), Err(ErrorCode::Unauthorized));
    assert_eq!(cb.user_account.randomness(), Some(0));
}

#[test]
fn callback_without_signature_is_rejected() {
    let unsigned = Signer { key: VRF_PROGRAM_IDENTITY, is_signer: false };
    let mut cb = VrfCallback { vrf_program_identity: unsigned, user_account: initialized() };
    assert_eq!(vrf_callback(&mut cb, [1u8; 32]), Err(ErrorCode::Unauthorized));
    assert_eq!(cb.user_account.randomness(), Some(0));
}

#[test]
fn read_u64_le_needs_eight_bytes() {
    assert_eq!(read_u64_le(&[1, 2, 3]), Err(ErrorCode::InvalidRandomness));
    assert_eq!(read_u64_le(&[]), Err(ErrorCode::InvalidRandomness));
    assert_eq!(read_u64_le(&[1, 0, 0, 0, 0, 0, 0, 0]), Ok(1));
    assert_eq!(read_u64_le(&[0xff; 9]), Ok(u64::MAX));
    assert_eq!(read_u64_le(&[0, 1, 0, 0, 0, 0, 0, 0]), Ok(256));
}

#[test]
fn constants_match_the_oracle_sdk() {
    assert_eq!(DEFAULT_QUEUE, consts::DEFAULT_QUEUE.to_bytes());
    assert_eq!(VRF_PROGRAM_IDENTITY, consts::VRF_PROGRAM_IDENTITY.to_bytes());
    assert_eq!(VRF_PROGRAM_ID, consts::VRF_PROGRAM_ID.to_bytes());
}

#[test]
fn callback_discriminator_is_the_entry_point_tag() {
    assert_eq!(vrf_callback_discriminator(), vec![248, 224, 55, 227, 56, 10, 108, 36]);
}

fn request(slot: AccountSlot, seed: u8) -> Result<er_state_account::RequestInstruction, ErrorCode> {
    let ctx = RequestVrfRandom { user: owner(), user_account: slot, oracle_queue: DEFAULT_QUEUE };
    request_vrf_random(&ctx, seed)
}

#[test]
fn request_instruction_layout() {
    let slot = initialized();
    let ix = request(slot, 5).unwrap();
    assert_eq!(ix.program_id, VRF_PROGRAM_ID);
    assert_eq!(ix.accounts.len(), 5);
    assert_eq!(ix.accounts[0].pubkey, owner().key);
    assert!(ix.accounts[0].is_signer && ix.accounts[0].is_writable);
    assert_eq!(ix.accounts[2].pubkey, DEFAULT_QUEUE);
    let seed_digest: [u8; 32] = [
        231, 123, 154, 154, 233, 227, 11, 13, 189, 182, 245, 16, 162, 100, 239, 157, 231, 129,
        80, 29, 123, 107, 146, 174, 137, 235, 5, 156, 90, 183, 67, 219,
    ];
    let mut expected: Vec<u8> = vec![3, 0, 0, 0, 0, 0, 0, 0];
    expected.extend_from_slice(&seed_digest);
    expected.extend_from_slice(&PROGRAM_ID);
    expected.extend_from_slice(&[8, 0, 0, 0, 248, 224, 55, 227, 56, 10, 108, 36]);
    expected.extend_from_slice(&[1, 0, 0, 0]);
    expected.extend_from_slice(&slot.address);
    expected.extend_from_slice(&[0, 1]);
    expected.extend_from_slice(&[0, 0, 0, 0]);
    assert_eq!(ix.data, expected);
}

#[test]
fn requests_with_different_seeds_differ() {
    let slot = initialized();
    let a = request(slot, 1).unwrap();
    let b = request(slot, 2).unwrap();
    assert_ne!(a.data[8..40], b.data[8..40]);
    assert_eq!(a.data[40..], b.data[40..]);
}

#[test]
fn request_needs_the_default_queue() {
    let ctx = RequestVrfRandom { user: owner(), user_account: initialized(), oracle_queue: [3u8; 32] };
    assert_eq!(ctx.request_vrf_random(1).unwrap_err(), ErrorCode::InvalidOracleQueue);
}

#[test]
fn request_by_a_stranger_is_rejected() {
    let stranger = Signer { key: [8u8; 32], is_signer: true };
    let ctx = RequestVrfRandom { user: stranger, user_account: initialized(), oracle_queue: DEFAULT_QUEUE };
    assert_eq!(ctx.request_vrf_random(1).unwrap_err(), ErrorCode::Unauthorized);
}

#[test]
fn request_for_a_closed_record_is_not_found() {
    let mut slot = initialized();
    close(&owner(), &mut slot).unwrap();
    assert_eq!(request(slot, 1).unwrap_err(), ErrorCode::AccountNotFound);
}

#[test]
fn later_callback_replaces_earlier_value() {
    let mut cb = VrfCallback { vrf_program_identity: oracle(), user_account: initialized() };
    assert_eq!(cb.vrf_callback([3u8; 32]), Ok(()));
    assert_eq!(cb.vrf_callback([4u8; 32]), Ok(()));
    assert_eq!(cb.user_account.randomness(), Some(0x0404040404040404));
}
