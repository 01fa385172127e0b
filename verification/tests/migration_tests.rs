//! Tests of the version dispatch, the conversion steps and the codec.

use storage_migrations::codec::{V0_SERIALIZED_LEN, V1_SERIALIZED_LEN};
use storage_migrations::header::{
    BlockHash, BlockNumber, BlockTimestamp, EventCommitment, GasPrice, GasPricePerToken,
    GlobalRoot, L1DataAvailabilityMode, SequencerContractAddress, StarkFelt, StateDiffCommitment,
    StorageBlockHeader, TransactionCommitment,
};
use storage_migrations::migrations::{StorageBlockHeaderV0, StorageBlockHeaderV1};
use storage_migrations::serialization::{Migratable, StorageSerdeError};
use storage_migrations::state::IndexedDeprecatedContractClass;

fn felt(w0: u64, w1: u64, w2: u64, w3: u64) -> StarkFelt {
    StarkFelt { w0, w1, w2, w3 }
}

fn push_u64(out: &mut Vec<u8>, x: u64) {
    out.extend_from_slice(&x.to_be_bytes());
}

fn push_u128(out: &mut Vec<u8>, x: u128) {
    out.extend_from_slice(&x.to_be_bytes());
}

fn push_felt(out: &mut Vec<u8>, f: &StarkFelt) {
    push_u64(out, f.w0);
    push_u64(out, f.w1);
    push_u64(out, f.w2);
    push_u64(out, f.w3);
}

fn push_gas(out: &mut Vec<u8>, g: &GasPricePerToken) {
    push_u128(out, g.price_in_fri.0);
    push_u128(out, g.price_in_wei.0);
}

fn push_da(out: &mut Vec<u8>, da: &L1DataAvailabilityMode) {
    out.push(match da {
        L1DataAvailabilityMode::Calldata => 0,
        L1DataAvailabilityMode::Blob => 1,
    });
}

fn push_opt_felt(out: &mut Vec<u8>, f: &Option<StarkFelt>) {
    match f {
        None => {
            out.push(0);
            push_felt(out, &felt(0, 0, 0, 0));
        }
        Some(f) => {
            out.push(1);
            push_felt(out, f);
        }
    }
}

fn push_opt_u64(out: &mut Vec<u8>, x: &Option<u64>) {
    match x {
        None => {
            out.push(0);
            push_u64(out, 0);
        }
        Some(x) => {
            out.push(1);
            push_u64(out, *x);
        }
    }
}

fn encode_v0(h: &StorageBlockHeaderV0) -> Vec<u8> {
    let mut out = Vec::new();
    push_felt(&mut out, &h.block_hash.0);
    push_felt(&mut out, &h.parent_hash.0);
    push_u64(&mut out, h.block_number.0);
    push_gas(&mut out, &h.l1_gas_price);
    push_gas(&mut out, &h.l1_data_gas_price);
    push_felt(&mut out, &h.state_root.0);
    push_felt(&mut out, &h.sequencer.0);
    push_u64(&mut out, h.timestamp.0);
    push_da(&mut out, &h.l1_da_mode);
    push_felt(&mut out, &h.transaction_commitment.0);
    push_felt(&mut out, &h.event_commitment.0);
    push_u64(&mut out, h.n_transactions);
    push_u64(&mut out, h.n_events);
    assert_eq!(out.len(), V0_SERIALIZED_LEN);
    out
}

fn encode_v1(h: &StorageBlockHeaderV1) -> Vec<u8> {
    let mut out = Vec::new();
    push_felt(&mut out, &h.block_hash.0);
    push_felt(&mut out, &h.parent_hash.0);
    push_u64(&mut out, h.block_number.0);
    push_gas(&mut out, &h.l1_gas_price);
    push_gas(&mut out, &h.l1_data_gas_price);
    push_felt(&mut out, &h.state_root.0);
    push_felt(&mut out, &h.sequencer.0);
    push_u64(&mut out, h.timestamp.0);
    push_da(&mut out, &h.l1_da_mode);
    push_opt_felt(&mut out, &h.state_diff_commitment.map(|c| c.0));
    push_opt_felt(&mut out, &h.transaction_commitment.map(|c| c.0));
    push_opt_felt(&mut out, &h.event_commitment.map(|c| c.0));
    push_opt_u64(&mut out, &h.n_transactions);
    push_opt_u64(&mut out, &h.n_events);
    assert_eq!(out.len(), V1_SERIALIZED_LEN);
    out
}

fn sample_v0(transaction_commitment: StarkFelt, event_commitment: StarkFelt) -> StorageBlockHeaderV0 {
    StorageBlockHeaderV0 {
        block_hash: BlockHash(felt(1, 2, 3, 4)),
        parent_hash: BlockHash(felt(5, 6, 7, 8)),
        block_number: BlockNumber(77),
        l1_gas_price: GasPricePerToken {
            price_in_fri: GasPrice(10_000_000_000_000_000_000_000),
            price_in_wei: GasPrice(13),
        },
        l1_data_gas_price: GasPricePerToken {
            price_in_fri: GasPrice(21),
            price_in_wei: GasPrice(34),
        },
        state_root: GlobalRoot(felt(9, 10, 11, 12)),
        sequencer: SequencerContractAddress(felt(13, 14, 15, 16)),
        timestamp: BlockTimestamp(1_700_000_000),
        l1_da_mode: L1DataAvailabilityMode::Blob,
        transaction_commitment: TransactionCommitment(transaction_commitment),
        event_commitment: EventCommitment(event_commitment),
        n_transactions: 5,
        n_events: 3,
    }
}

#[test]
fn v0_codec_round_trip() {
    let v0 = sample_v0(felt(0, 0, 0, 42), felt(0, 17, 0, 0));
    let bytes = encode_v0(&v0);
    let decoded = StorageBlockHeaderV0::deserialize_from(&bytes).unwrap();
    assert_eq!(decoded, v0);
}

#[test]
fn v0_codec_exact_fields() {
    let mut bytes = vec![0u8; V0_SERIALIZED_LEN];
    // block_number at offset 64: big-endian 0x0102030405060708.
    bytes[64..72].copy_from_slice(&[1, 2, 3, 4, 5, 6, 7, 8]);
    // timestamp at offset 200: 256.
    bytes[200..208].copy_from_slice(&[0, 0, 0, 0, 0, 0, 1, 0]);
    let decoded = StorageBlockHeaderV0::deserialize_from(&bytes).unwrap();
    assert_eq!(decoded.block_number, BlockNumber(0x0102030405060708));
    assert_eq!(decoded.timestamp, BlockTimestamp(256));
    assert_eq!(decoded.l1_da_mode, L1DataAvailabilityMode::Calldata);
    assert_eq!(decoded.transaction_commitment, TransactionCommitment(felt(0, 0, 0, 0)));
}

#[test]
fn v1_codec_round_trip() {
    let v0 = sample_v0(felt(0, 0, 0, 9), felt(0, 0, 0, 11));
    let v1 = StorageBlockHeaderV1::from(v0);
    let bytes = encode_v1(&v1);
    let decoded = StorageBlockHeaderV1::deserialize_from(&bytes).unwrap();
    assert_eq!(decoded, v1);
}

#[test]
fn decode_rejects_bad_da_mode_byte() {
    let v0 = sample_v0(felt(0, 0, 0, 1), felt(0, 0, 0, 2));
    let mut bytes = encode_v0(&v0);
    bytes[208] = 2;
    assert!(StorageBlockHeaderV0::deserialize_from(&bytes).is_none());
}

#[test]
fn decode_rejects_bad_presence_byte() {
    let v0 = sample_v0(felt(0, 0, 0, 1), felt(0, 0, 0, 2));
    let v1 = StorageBlockHeaderV1::from(v0);
    let mut bytes = encode_v1(&v1);
    bytes[242] = 7;
    assert!(StorageBlockHeaderV1::deserialize_from(&bytes).is_none());
}

#[test]
fn resolve_is_deterministic() {
    let v0 = sample_v0(felt(0, 0, 0, 42), felt(0, 17, 0, 0));
    let bytes = encode_v0(&v0);
    let first = StorageBlockHeader::try_from_older_version(&bytes, 0);
    let second = StorageBlockHeader::try_from_older_version(&bytes, 0);
    assert!(first.is_ok());
    assert_eq!(first, second);
}

#[test]
fn resolve_fails_at_or_above_current_version() {
    let v0 = sample_v0(felt(0, 0, 0, 42), felt(0, 17, 0, 0));
    let bytes = encode_v0(&v0);
    for older_version in [2u8, 3, 100, 255] {
        assert_eq!(
            StorageBlockHeader::try_from_older_version(&bytes, older_version),
            Err(StorageSerdeError::Migration)
        );
    }
    assert_eq!(
        StorageBlockHeaderV1::try_from_older_version(&bytes, 1),
        Err(StorageSerdeError::Migration)
    );
}

#[test]
fn chain_composition_two_explicit_steps() {
    let v0 = sample_v0(felt(0, 0, 0, 42), felt(0, 17, 0, 0));
    let bytes = encode_v0(&v0);
    let through_dispatch = StorageBlockHeader::try_from_older_version(&bytes, 0).unwrap();
    let decoded = StorageBlockHeaderV0::deserialize_from(&bytes).unwrap();
    let step_one = StorageBlockHeaderV1::from(decoded);
    let step_two = StorageBlockHeader::from(step_one);
    assert_eq!(through_dispatch, step_two);
}

#[test]
fn resolve_from_middle_schema_directly() {
    let v0 = sample_v0(felt(0, 0, 0, 9), felt(0, 0, 0, 11));
    let v1 = StorageBlockHeaderV1::from(v0);
    let bytes = encode_v1(&v1);
    let resolved = StorageBlockHeader::try_from_older_version(&bytes, 1).unwrap();
    assert_eq!(resolved, StorageBlockHeader::from(v1));
}

#[test]
fn sentinel_commitments_discard_group_jointly() {
    // Both commitments hold the zero sentinel; the counts hold real values.
    let v0 = sample_v0(felt(0, 0, 0, 0), felt(0, 0, 0, 0));
    assert_eq!(v0.n_transactions, 5);
    assert_eq!(v0.n_events, 3);
    let bytes = encode_v0(&v0);
    let migrated = StorageBlockHeader::try_from_older_version(&bytes, 0).unwrap();
    assert_eq!(migrated.transaction_commitment, None);
    assert_eq!(migrated.event_commitment, None);
    assert_eq!(migrated.n_transactions, None);
    assert_eq!(migrated.n_events, None);
}

#[test]
fn non_sentinel_commitment_keeps_group_jointly() {
    // A non-zero transaction commitment: all four fields stay populated,
    // even though the event commitment alone coincides with the sentinel.
    let tx = felt(0, 0, 0, 999);
    let v0 = sample_v0(tx, felt(0, 0, 0, 0));
    let bytes = encode_v0(&v0);
    let migrated = StorageBlockHeader::try_from_older_version(&bytes, 0).unwrap();
    assert_eq!(migrated.transaction_commitment, Some(TransactionCommitment(tx)));
    assert_eq!(migrated.event_commitment, Some(EventCommitment(felt(0, 0, 0, 0))));
    assert_eq!(migrated.n_transactions, Some(5));
    assert_eq!(migrated.n_events, Some(3));
}

#[test]
fn conversion_carries_fields_and_leaves_new_fields_absent() {
    let v0 = sample_v0(felt(0, 0, 0, 42), felt(0, 17, 0, 0));
    let v1 = StorageBlockHeaderV1::from(v0.clone());
    assert_eq!(v1.block_hash, v0.block_hash);
    assert_eq!(v1.state_diff_commitment, None);
    let current = StorageBlockHeader::from(v1.clone());
    assert_eq!(current.sequencer, v0.sequencer);
    assert_eq!(current.l1_da_mode, v0.l1_da_mode);
    assert_eq!(current.state_diff_length, None);
    assert_eq!(current.receipt_commitment, None);
    assert_eq!(current.state_diff_commitment, None);
}

#[test]
fn truncated_bytes_fail_with_migration() {
    let v0 = sample_v0(felt(0, 0, 0, 42), felt(0, 17, 0, 0));
    let bytes = encode_v0(&v0);
    let truncated = &bytes[..V0_SERIALIZED_LEN - 1];
    assert_eq!(
        StorageBlockHeader::try_from_older_version(truncated, 0),
        Err(StorageSerdeError::Migration)
    );
    assert_eq!(
        StorageBlockHeader::try_from_older_version(&[], 0),
        Err(StorageSerdeError::Migration)
    );
    // A record one version back must still be long enough for that schema.
    assert_eq!(
        StorageBlockHeader::try_from_older_version(&bytes, 1),
        Err(StorageSerdeError::Migration)
    );
}

#[test]
fn unimplemented_kind_fails_for_every_version() {
    let bytes = [0u8; 400];
    for older_version in [0u8, 1, 2, 7, 255] {
        assert_eq!(
            IndexedDeprecatedContractClass::try_from_older_version(&bytes, older_version),
            Err(StorageSerdeError::Migration)
        );
    }
}

#[test]
fn default_commitments_are_the_zero_sentinel() {
    assert_eq!(TransactionCommitment::default(), TransactionCommitment(felt(0, 0, 0, 0)));
    assert_eq!(EventCommitment::default(), EventCommitment(felt(0, 0, 0, 0)));
    assert_eq!(StarkFelt::default(), felt(0, 0, 0, 0));
}
