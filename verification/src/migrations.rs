//! The historical block-header schemas and their conversion steps.
//!
//! Each schema knows only how to absorb its immediate predecessor: the
//! dispatcher for the current schema decodes bytes of the immediately prior
//! schema directly, and delegates anything older to the prior schema's own
//! dispatcher, then applies one conversion step. Adding a schema version
//! therefore means one new conversion step and one new dispatch case.

use vstd::prelude::*;

use crate::codec::{decode_v0, decode_v1};
use crate::header::{
    felt_zero,
    BlockHash,
    BlockNumber,
    BlockTimestamp,
    EventCommitment,
    GasPricePerToken,
    GlobalRoot,
    L1DataAvailabilityMode,
    SequencerContractAddress,
    StateDiffCommitment,
    StorageBlockHeader,
    TransactionCommitment,
};
use crate::serialization::{migration_result_of, Migratable, StorageSerdeError};

verus! {

/// The version tag of the current block-header schema.
pub const CURRENT_VERSION: u8 = 2;

/// The version tag of the immediately prior block-header schema.
pub const PREV_VERSION: u8 = CURRENT_VERSION - 1;

/// The block header as the middle schema stored it: the commitments became
/// optional and a state diff commitment was added.
#[derive(Debug, Clone, PartialEq, Eq)]
pub struct StorageBlockHeaderV1 {
    pub block_hash: BlockHash,
    pub parent_hash: BlockHash,
    pub block_number: BlockNumber,
    pub l1_gas_price: GasPricePerToken,
    pub l1_data_gas_price: GasPricePerToken,
    pub state_root: GlobalRoot,
    pub sequencer: SequencerContractAddress,
    pub timestamp: BlockTimestamp,
    pub l1_da_mode: L1DataAvailabilityMode,
    pub state_diff_commitment: Option<StateDiffCommitment>,
    pub transaction_commitment: Option<TransactionCommitment>,
    pub event_commitment: Option<EventCommitment>,
    pub n_transactions: Option<u64>,
    pub n_events: Option<u64>,
}

/// The block header as the oldest schema stored it: the commitments and
/// counts are plain fields, with zero commitments standing for "not tracked".
#[derive(Debug, Clone, PartialEq, Eq)]
pub struct StorageBlockHeaderV0 {
    pub block_hash: BlockHash,
    pub parent_hash: BlockHash,
    pub block_number: BlockNumber,
    pub l1_gas_price: GasPricePerToken,
    pub l1_data_gas_price: GasPricePerToken,
    pub state_root: GlobalRoot,
    pub sequencer: SequencerContractAddress,
    pub timestamp: BlockTimestamp,
    pub l1_da_mode: L1DataAvailabilityMode,
    pub transaction_commitment: TransactionCommitment,
    pub event_commitment: EventCommitment,
    pub n_transactions: u64,
    pub n_events: u64,
}

/// Whether an oldest-schema header carries the legacy "commitments not
/// tracked" sentinel: both commitments zero at once. The decision is joint —
/// the counts are kept or discarded together with the commitments.
pub open spec fn missing_commitments_data(v0_header: StorageBlockHeaderV0) -> bool {
    v0_header.transaction_commitment == TransactionCommitment(felt_zero())
        && v0_header.event_commitment == EventCommitment(felt_zero())
}

/// The conversion step from the oldest schema to the middle schema. Total:
/// every decodable oldest-schema value converts. When the sentinel test
/// holds, the whole commitment group — both commitments and both counts — is
/// treated as jointly absent, even though the counts themselves may hold
/// non-sentinel values; otherwise all four are carried over as present.
pub open spec fn v1_of_v0(v0_header: StorageBlockHeaderV0) -> StorageBlockHeaderV1 {
    StorageBlockHeaderV1 {
        block_hash: v0_header.block_hash,
        parent_hash: v0_header.parent_hash,
        block_number: v0_header.block_number,
        l1_gas_price: v0_header.l1_gas_price,
        l1_data_gas_price: v0_header.l1_data_gas_price,
        state_root: v0_header.state_root,
        sequencer: v0_header.sequencer,
        timestamp: v0_header.timestamp,
        l1_da_mode: v0_header.l1_da_mode,
        state_diff_commitment: None,
        transaction_commitment: if missing_commitments_data(v0_header) {
            None
        } else {
            Some(v0_header.transaction_commitment)
        },
        event_commitment: if missing_commitments_data(v0_header) {
            None
        } else {
            Some(v0_header.event_commitment)
        },
        n_transactions: if missing_commitments_data(v0_header) {
            None
        } else {
            Some(v0_header.n_transactions)
        },
        n_events: if missing_commitments_data(v0_header) {
            None
        } else {
            Some(v0_header.n_events)
        },
    }
}

/// The conversion step from the middle schema to the current schema. Total:
/// every field is carried over unchanged, and the two fields the current
/// schema introduced — the state diff length and the receipt commitment — are
/// unconditionally absent, since no older schema tracked them.
pub open spec fn current_of_v1(v1_header: StorageBlockHeaderV1) -> StorageBlockHeader {
    StorageBlockHeader {
        block_hash: v1_header.block_hash,
        parent_hash: v1_header.parent_hash,
        block_number: v1_header.block_number,
        l1_gas_price: v1_header.l1_gas_price,
        l1_data_gas_price: v1_header.l1_data_gas_price,
        state_root: v1_header.state_root,
        sequencer: v1_header.sequencer,
        timestamp: v1_header.timestamp,
        l1_da_mode: v1_header.l1_da_mode,
        state_diff_commitment: v1_header.state_diff_commitment,
        state_diff_length: None,
        receipt_commitment: None,
        transaction_commitment: v1_header.transaction_commitment,
        event_commitment: v1_header.event_commitment,
        n_transactions: v1_header.n_transactions,
        n_events: v1_header.n_events,
    }
}

impl From<StorageBlockHeaderV0> for StorageBlockHeaderV1 {
    fn from(v0_header: StorageBlockHeaderV0) -> (r: Self) {
        // In the oldest schema, untracked commitments are 0 instead of None.
        let missing = v0_header.transaction_commitment == TransactionCommitment::default()
            && v0_header.event_commitment == EventCommitment::default();
        Self {
            block_hash: v0_header.block_hash,
            parent_hash: v0_header.parent_hash,
            block_number: v0_header.block_number,
            l1_gas_price: v0_header.l1_gas_price,
            l1_data_gas_price: v0_header.l1_data_gas_price,
            state_root: v0_header.state_root,
            sequencer: v0_header.sequencer,
            timestamp: v0_header.timestamp,
            l1_da_mode: v0_header.l1_da_mode,
            state_diff_commitment: None,
            transaction_commitment: if missing {
                None
            } else {
                Some(v0_header.transaction_commitment)
            },
            event_commitment: if missing {
                None
            } else {
                Some(v0_header.event_commitment)
            },
            n_transactions: if missing {
                None
            } else {
                Some(v0_header.n_transactions)
            },
            n_events: if missing {
                None
            } else {
                Some(v0_header.n_events)
            },
        }
    }
}

impl vstd::std_specs::convert::FromSpecImpl<StorageBlockHeaderV0> for StorageBlockHeaderV1 {
    open spec fn obeys_from_spec() -> bool {
        true
    }

    open spec fn from_spec(v: StorageBlockHeaderV0) -> Self {
        v1_of_v0(v)
    }
}

impl From<StorageBlockHeaderV1> for StorageBlockHeader {
    fn from(v1_header: StorageBlockHeaderV1) -> (r: Self) {
        Self {
            block_hash: v1_header.block_hash,
            parent_hash: v1_header.parent_hash,
            block_number: v1_header.block_number,
            l1_gas_price: v1_header.l1_gas_price,
            l1_data_gas_price: v1_header.l1_data_gas_price,
            state_root: v1_header.state_root,
            sequencer: v1_header.sequencer,
            timestamp: v1_header.timestamp,
            l1_da_mode: v1_header.l1_da_mode,
            state_diff_commitment: v1_header.state_diff_commitment,
            state_diff_length: None,
            receipt_commitment: None,
            transaction_commitment: v1_header.transaction_commitment,
            event_commitment: v1_header.event_commitment,
            n_transactions: v1_header.n_transactions,
            n_events: v1_header.n_events,
        }
    }
}

impl vstd::std_specs::convert::FromSpecImpl<StorageBlockHeaderV1> for StorageBlockHeader {
    open spec fn obeys_from_spec() -> bool {
        true
    }

    open spec fn from_spec(v: StorageBlockHeaderV1) -> Self {
        current_of_v1(v)
    }
}

impl Migratable for StorageBlockHeaderV1 {
    /// Bytes migrate to the middle schema exactly when they were declared as
    /// the oldest schema's version and decode under the oldest schema; the
    /// decoded value goes through one conversion step.
    open spec fn migrate_spec(bytes: Seq<u8>, older_version: u8) -> Option<Self> {
        if older_version == 0 {
            match decode_v0(bytes) {
                Some(v0_header) => Some(v1_of_v0(v0_header)),
                None => None,
            }
        } else {
            None
        }
    }

    fn try_from_older_version(bytes: &[u8], older_version: u8) -> (r: Result<
        Self,
        StorageSerdeError,
    >)
        ensures
            r == migration_result_of(Self::migrate_spec(bytes@, older_version)),
    {
        if older_version != 0 {
            return Err(StorageSerdeError::Migration);
        }
        let v0_header = match StorageBlockHeaderV0::deserialize_from(bytes) {
            Some(h) => h,
            None => {
                return Err(StorageSerdeError::Migration);
            },
        };
        Ok(StorageBlockHeaderV1::from(v0_header))
    }
}

impl Migratable for StorageBlockHeader {
    /// Bytes migrate to the current schema exactly when the declared version
    /// is strictly older than the current one and the bytes decode under the
    /// declared schema: one version back they decode directly, further back
    /// the prior schema's own migration applies first; either way the result
    /// goes through the final conversion step.
    open spec fn migrate_spec(bytes: Seq<u8>, older_version: u8) -> Option<Self> {
        if older_version < PREV_VERSION {
            match StorageBlockHeaderV1::migrate_spec(bytes, older_version) {
                Some(v1_header) => Some(current_of_v1(v1_header)),
                None => None,
            }
        } else if older_version == PREV_VERSION {
            match decode_v1(bytes) {
                Some(v1_header) => Some(current_of_v1(v1_header)),
                None => None,
            }
        } else {
            None
        }
    }

    fn try_from_older_version(bytes: &[u8], older_version: u8) -> (r: Result<
        Self,
        StorageSerdeError,
    >)
        ensures
            r == migration_result_of(Self::migrate_spec(bytes@, older_version)),
    {
        let prev_version_block_header = if older_version < PREV_VERSION {
            StorageBlockHeaderV1::try_from_older_version(bytes, older_version)
        } else if older_version == PREV_VERSION {
            match StorageBlockHeaderV1::deserialize_from(bytes) {
                Some(h) => Ok(h),
                None => Err(StorageSerdeError::Migration),
            }
        } else {
            // The tag is at or above the current version: either the caller
            // routed a current record through migration, or the record was
            // written by a newer incompatible build. Both are fatal.
            Err(StorageSerdeError::Migration)
        };
        match prev_version_block_header {
            Ok(v1_header) => Ok(StorageBlockHeader::from(v1_header)),
            Err(e) => Err(e),
        }
    }
}

/// A declared version at or above the current one never migrates: the
/// relation is empty there, so `try_from_older_version` must fail with
/// `Migration` and can never hand back a value.
pub proof fn lemma_version_at_or_above_current_fails(bytes: Seq<u8>, older_version: u8)
    requires
        older_version >= CURRENT_VERSION,
    ensures
        StorageBlockHeader::migrate_spec(bytes, older_version) is None,
        migration_result_of(StorageBlockHeader::migrate_spec(bytes, older_version)) == Err::<
            StorageBlockHeader,
            StorageSerdeError,
        >(StorageSerdeError::Migration),
{
}

/// For every supported declared version, migration succeeds exactly when the
/// bytes decode under the schema that version names: the dispatch itself
/// never loses a decodable record, and never invents a value for a
/// malformed one.
pub proof fn lemma_supported_versions_resolve(bytes: Seq<u8>, older_version: u8)
    requires
        older_version < CURRENT_VERSION,
    ensures
        StorageBlockHeader::migrate_spec(bytes, older_version) is Some <==> ((older_version == 0
            && decode_v0(bytes) is Some) || (older_version == PREV_VERSION && decode_v1(
            bytes,
        ) is Some)),
{
}

/// Chain composition: migrating oldest-schema bytes through the recursive
/// dispatch equals decoding them as the oldest schema and then applying the
/// two conversion steps one at a time, by hand.
pub proof fn lemma_chain_composition(bytes: Seq<u8>)
    ensures
        StorageBlockHeader::migrate_spec(bytes, 0) == (match decode_v0(bytes) {
            Some(v0_header) => Some(current_of_v1(v1_of_v0(v0_header))),
            None => None,
        }),
{
}

/// When an oldest-schema header carries the joint sentinel — both commitments
/// zero at once — the conversion step discards the whole group: both
/// commitments and both counts come out absent, even though the counts may
/// hold non-sentinel values.
pub proof fn lemma_sentinel_group_jointly_absent(v0_header: StorageBlockHeaderV0)
    requires
        missing_commitments_data(v0_header),
    ensures
        v1_of_v0(v0_header).transaction_commitment is None,
        v1_of_v0(v0_header).event_commitment is None,
        v1_of_v0(v0_header).n_transactions is None,
        v1_of_v0(v0_header).n_events is None,
{
}

/// When the joint sentinel does not hold — at least one commitment is
/// non-zero — the conversion step keeps the whole group: both commitments and
/// both counts come out present, with their stored values.
pub proof fn lemma_non_sentinel_group_jointly_present(v0_header: StorageBlockHeaderV0)
    requires
        !missing_commitments_data(v0_header),
    ensures
        v1_of_v0(v0_header).transaction_commitment == Some(v0_header.transaction_commitment),
        v1_of_v0(v0_header).event_commitment == Some(v0_header.event_commitment),
        v1_of_v0(v0_header).n_transactions == Some(v0_header.n_transactions),
        v1_of_v0(v0_header).n_events == Some(v0_header.n_events),
{
}

/// Bytes shorter than the oldest schema's serialized length — and so shorter
/// than every schema's — never migrate: the dispatch fails with `Migration`
/// for every declared version and never produces a partial value.
pub proof fn lemma_truncated_bytes_fail(bytes: Seq<u8>, older_version: u8)
    requires
        bytes.len() < crate::codec::V0_SERIALIZED_LEN,
    ensures
        StorageBlockHeader::migrate_spec(bytes, older_version) is None,
{
}

} // verus!
