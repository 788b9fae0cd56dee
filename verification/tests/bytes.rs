use std::str::FromStr;

use gsd_hub::cpi::compression::{
    anchor_discriminator, append_leaf, init_empty_merkle_tree, ACCOUNT_COMPRESSION_PROGRAM_ID,
    NOOP_PROGRAM_ID,
};
use gsd_hub::cpi::noop::wrap_application_data;
use gsd_hub::hash::discriminator;
use gsd_hub::instructions::cast_vote::CIVIC_GATEWAY_PROGRAM;
use gsd_hub::layout::{read_i64_le, read_pubkey, read_u32_le, read_u64_le};
use gsd_hub::state::contribution::{i64_to_le_bytes, ContributionLeaf};
use gsd_hub::state::delegation_record::{account_discriminator, DelegationRecord};
use gsd_hub::state::pubkey::Pubkey;
use sha2::{Digest, Sha256};

fn key(b: u8) -> Pubkey {
    Pubkey::new_from_array([b; 32])
}

fn sha256(data: &[u8]) -> [u8; 32] {
    Sha256::digest(data).into()
}

fn stored_delegation(tag: &[u8], is_active: u8) -> Vec<u8> {
    let mut data = tag.to_vec();
    data.extend_from_slice(&[60; 32]);
    data.extend_from_slice(&[50; 32]);
    data.push(254);
    data.extend_from_slice(&1_000_000u64.to_le_bytes());
    data.extend_from_slice(&(-77i64).to_le_bytes());
    data.push(is_active);
    data.extend_from_slice(&3u32.to_le_bytes());
    data
}

#[test]
fn program_addresses_match_their_base58_names() {
    let civic = anchor_lang::prelude::Pubkey::from_str("gatbGF9DvLAw3kWyn1EmH5Nh1Sqp8sTukF7yaQpSc71")
        .unwrap();
    assert_eq!(civic.to_bytes(), CIVIC_GATEWAY_PROGRAM);
    let compression =
        anchor_lang::prelude::Pubkey::from_str("cmtDvXumGCrqC1Age74AVPhSRVXJMd8PJS91L8KbNCK")
            .unwrap();
    assert_eq!(compression.to_bytes(), ACCOUNT_COMPRESSION_PROGRAM_ID);
    let noop = anchor_lang::prelude::Pubkey::from_str("noopb9bkMVfRPU8AsbpTUg8AQkHtKwMYZiFUjNRtMmV")
        .unwrap();
    assert_eq!(noop.to_bytes(), NOOP_PROGRAM_ID);
}

#[test]
fn pubkey_equality_is_by_bytes() {
    let mut bytes = [4u8; 32];
    assert_eq!(Pubkey::new_from_array(bytes), key(4));
    bytes[31] = 5;
    assert_ne!(Pubkey::new_from_array(bytes), key(4));
    assert_eq!(Pubkey::new_from_array(bytes).to_bytes(), bytes);
    assert_eq!(Pubkey::default(), key(0));
}

#[test]
fn discriminator_is_the_head_of_the_digest() {
    let digest = sha256(b"account:DelegationRecord");
    assert_eq!(account_discriminator("DelegationRecord"), digest[..8]);
    assert_eq!(discriminator("account:", "DelegationRecord"), digest[..8]);
    let digest = sha256(b"global:append");
    assert_eq!(anchor_discriminator("append"), digest[..8]);
    assert_eq!(anchor_discriminator("append"), [149, 120, 18, 222, 236, 225, 88, 203]);
    assert_ne!(anchor_discriminator("append"), account_discriminator("append"));
    let digest = sha256(b"global:");
    assert_eq!(anchor_discriminator(""), digest[..8]);
}

#[test]
fn delegation_record_is_read_from_its_layout() {
    let tag = account_discriminator("DelegationRecord");
    let data = stored_delegation(&tag, 1);
    assert_eq!(data.len(), 94);
    let record = DelegationRecord::try_deserialize(&data).unwrap();
    assert_eq!(record.delegator, key(60));
    assert_eq!(record.delegate, key(50));
    assert_eq!(record.bump, 254);
    assert_eq!(record.delegated_amount, 1_000_000);
    assert_eq!(record.delegated_at, -77);
    assert!(record.is_active);
    assert_eq!(record.effective_from_round, 3);
    let inactive = DelegationRecord::try_deserialize(&stored_delegation(&tag, 0)).unwrap();
    assert!(!inactive.is_active);
    let flagged = DelegationRecord::try_deserialize(&stored_delegation(&tag, 2)).unwrap();
    assert!(flagged.is_active);
}

#[test]
fn malformed_delegation_records_are_passed_over() {
    let tag = account_discriminator("DelegationRecord");
    let data = stored_delegation(&tag, 1);
    assert!(DelegationRecord::try_deserialize(&data[..93]).is_none());
    assert!(DelegationRecord::try_deserialize(&[]).is_none());
    let other = account_discriminator("VoteDeposit");
    assert!(DelegationRecord::try_deserialize(&stored_delegation(&other, 1)).is_none());
    let mut last_byte_off = data.clone();
    last_byte_off[7] ^= 1;
    assert!(DelegationRecord::try_deserialize(&last_byte_off).is_none());
    let mut longer = data.clone();
    longer.extend_from_slice(&[9; 10]);
    assert_eq!(DelegationRecord::try_deserialize(&longer).unwrap().effective_from_round, 3);
}

#[test]
fn integers_are_read_little_endian() {
    let data = [0u8, 1, 2, 3, 4, 5, 6, 7, 8, 0xff, 0xff, 0xff, 0xff, 0xff, 0xff, 0xff, 0xff];
    assert_eq!(read_u64_le(&data, 1), 0x0807_0605_0403_0201);
    assert_eq!(read_u32_le(&data, 1), 0x0403_0201);
    assert_eq!(read_i64_le(&data, 9), -1);
    assert_eq!(read_i64_le(&data, 1), 0x0807_0605_0403_0201);
    assert_eq!(read_i64_le(&i64::MIN.to_le_bytes(), 0), i64::MIN);
    assert_eq!(read_i64_le(&i64::MAX.to_le_bytes(), 0), i64::MAX);
    let mut keyed = vec![9u8; 3];
    keyed.extend_from_slice(&[7; 32]);
    assert_eq!(read_pubkey(&keyed, 3), key(7));
}

#[test]
fn signed_integers_are_written_in_twos_complement() {
    for x in [0i64, 1, -1, 1_700_000_000, i64::MIN, i64::MAX, -256] {
        assert_eq!(i64_to_le_bytes(x), x.to_le_bytes());
    }
}

#[test]
fn leaf_is_written_field_by_field() {
    let leaf = ContributionLeaf {
        developer: key(1),
        task_ref: [2; 32],
        verification_score: 0x1234,
        timestamp: 0x0102_0304_0506_0708,
        content_hash: [3; 32],
    };
    let bytes = leaf.to_bytes();
    assert_eq!(bytes.len(), ContributionLeaf::SIZE);
    assert_eq!(bytes[..32], [1; 32]);
    assert_eq!(bytes[32..64], [2; 32]);
    assert_eq!(bytes[64..66], [0x34, 0x12]);
    assert_eq!(bytes[66..74], [8, 7, 6, 5, 4, 3, 2, 1]);
    assert_eq!(bytes[74..], [3; 32]);
    assert_eq!(leaf.to_leaf_hash(), sha256(&bytes));
    assert_ne!(leaf.to_leaf_hash()[..], bytes[..32]);
    let mut other = leaf;
    other.timestamp = -1;
    assert_eq!(other.to_bytes()[66..74], [0xff; 8]);
    assert_ne!(other.to_leaf_hash(), leaf.to_leaf_hash());
}

#[test]
fn append_call_carries_tag_and_leaf() {
    let ix = append_leaf(key(1), key(2), key(3), [9; 32]);
    assert_eq!(ix.program_id.to_bytes(), ACCOUNT_COMPRESSION_PROGRAM_ID);
    assert_eq!(ix.accounts.len(), 3);
    assert_eq!(ix.accounts[0].pubkey, key(1));
    assert!(ix.accounts[0].is_writable && !ix.accounts[0].is_signer);
    assert_eq!(ix.accounts[1].pubkey, key(2));
    assert!(!ix.accounts[1].is_writable && ix.accounts[1].is_signer);
    assert_eq!(ix.accounts[2].pubkey, key(3));
    assert!(!ix.accounts[2].is_writable && !ix.accounts[2].is_signer);
    assert_eq!(ix.data.len(), 40);
    assert_eq!(ix.data[..8], sha256(b"global:append")[..8]);
    assert_eq!(ix.data[8..], [9; 32]);
}

#[test]
fn tree_setup_call_carries_depth_and_buffer() {
    let ix = init_empty_merkle_tree(key(1), key(2), key(3), 14, 64);
    assert_eq!(ix.program_id.to_bytes(), ACCOUNT_COMPRESSION_PROGRAM_ID);
    assert_eq!(ix.accounts.len(), 3);
    assert_eq!(ix.data.len(), 16);
    assert_eq!(ix.data[..8], sha256(b"global:init_empty_merkle_tree")[..8]);
    assert_eq!(ix.data[8..12], [14, 0, 0, 0]);
    assert_eq!(ix.data[12..], [64, 0, 0, 0]);
}

#[test]
fn log_call_carries_the_data_alone() {
    let ix = wrap_application_data(vec![1, 2, 3]);
    assert_eq!(ix.program_id.to_bytes(), NOOP_PROGRAM_ID);
    assert!(ix.accounts.is_empty());
    assert_eq!(ix.data, vec![1, 2, 3]);
}

#[test]
fn candidates_are_the_stored_delegation_records() {
    let tag = account_discriminator("DelegationRecord");
    let good = stored_delegation(&tag, 1);
    let inactive = stored_delegation(&tag, 0);
    let other = stored_delegation(&account_discriminator("VoteRecord"), 1);
    let accounts = vec![vec![], good.clone(), other, good[..90].to_vec(), inactive, good];
    let records = gsd_hub::instructions::cast_vote::parse_candidates(&accounts);
    assert_eq!(records.len(), 3);
    assert!(records[0].is_active);
    assert!(!records[1].is_active);
    assert!(records[2].is_active);
    assert_eq!(records[2].delegator, key(60));
    assert_eq!(records[2].delegated_amount, 1_000_000);
    assert!(gsd_hub::instructions::cast_vote::parse_candidates(&vec![]).is_empty());
}
