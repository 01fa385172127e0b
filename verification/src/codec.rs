//! Binary layout of the historical block-header schemas.
//!
//! Every field is stored big-endian at a fixed offset. An optional field is
//! stored as a presence byte (0 = absent, 1 = present) followed by its
//! payload; the payload bytes of an absent field are ignored. Decoding fails
//! — returns `None` — exactly when the input is shorter than the schema's
//! serialized length, when the data-availability byte is neither 0 nor 1, or
//! when a presence byte is neither 0 nor 1.

use vstd::prelude::*;

use crate::header::{
    BlockHash,
    BlockNumber,
    BlockTimestamp,
    GasPrice,
    GasPricePerToken,
    GlobalRoot,
    L1DataAvailabilityMode,
    SequencerContractAddress,
    StarkFelt,
    EventCommitment,
    StateDiffCommitment,
    TransactionCommitment,
};
use crate::migrations::{StorageBlockHeaderV0, StorageBlockHeaderV1};

verus! {

/// Offset of the block hash, in both historical schemas.
pub const OFF_BLOCK_HASH: usize = 0;

/// Offset of the parent hash.
pub const OFF_PARENT_HASH: usize = 32;

/// Offset of the block number.
pub const OFF_BLOCK_NUMBER: usize = 64;

/// Offset of the gas price pair.
pub const OFF_L1_GAS_PRICE: usize = 72;

/// Offset of the data gas price pair.
pub const OFF_L1_DATA_GAS_PRICE: usize = 104;

/// Offset of the state root.
pub const OFF_STATE_ROOT: usize = 136;

/// Offset of the sequencer address.
pub const OFF_SEQUENCER: usize = 168;

/// Offset of the timestamp.
pub const OFF_TIMESTAMP: usize = 200;

/// Offset of the data-availability mode byte.
pub const OFF_L1_DA_MODE: usize = 208;

/// Offset of the transaction commitment in the oldest schema.
pub const V0_OFF_TX_COMMITMENT: usize = 209;

/// Offset of the event commitment in the oldest schema.
pub const V0_OFF_EVENT_COMMITMENT: usize = 241;

/// Offset of the transaction count in the oldest schema.
pub const V0_OFF_N_TRANSACTIONS: usize = 273;

/// Offset of the event count in the oldest schema.
pub const V0_OFF_N_EVENTS: usize = 281;

/// Serialized length of the oldest schema.
pub const V0_SERIALIZED_LEN: usize = 289;

/// Offset of the optional state diff commitment in the middle schema.
pub const V1_OFF_STATE_DIFF_COMMITMENT: usize = 209;

/// Offset of the optional transaction commitment in the middle schema.
pub const V1_OFF_TX_COMMITMENT: usize = 242;

/// Offset of the optional event commitment in the middle schema.
pub const V1_OFF_EVENT_COMMITMENT: usize = 275;

/// Offset of the optional transaction count in the middle schema.
pub const V1_OFF_N_TRANSACTIONS: usize = 308;

/// Offset of the optional event count in the middle schema.
pub const V1_OFF_N_EVENTS: usize = 317;

/// Serialized length of the middle schema.
pub const V1_SERIALIZED_LEN: usize = 326;

/// The big-endian 64-bit integer stored at `off`.
pub open spec fn u64_be_at(s: Seq<u8>, off: int) -> u64 {
    (s[off] * 0x100000000000000 + s[off + 1] * 0x1000000000000 + s[off + 2] * 0x10000000000 + s[off
        + 3] * 0x100000000 + s[off + 4] * 0x1000000 + s[off + 5] * 0x10000 + s[off + 6] * 0x100 + s[
        off + 7]) as u64
}

/// The big-endian 128-bit integer stored at `off`.
pub open spec fn u128_be_at(s: Seq<u8>, off: int) -> u128 {
    (u64_be_at(s, off) * 0x10000000000000000 + u64_be_at(s, off + 8)) as u128
}

/// The field element stored at `off`, as four big-endian limbs.
pub open spec fn felt_at(s: Seq<u8>, off: int) -> StarkFelt {
    StarkFelt {
        w0: u64_be_at(s, off),
        w1: u64_be_at(s, off + 8),
        w2: u64_be_at(s, off + 16),
        w3: u64_be_at(s, off + 24),
    }
}

/// The gas price pair stored at `off`: first the amount in fri, then in wei.
pub open spec fn gas_price_per_token_at(s: Seq<u8>, off: int) -> GasPricePerToken {
    GasPricePerToken {
        price_in_fri: GasPrice(u128_be_at(s, off)),
        price_in_wei: GasPrice(u128_be_at(s, off + 16)),
    }
}

/// The data-availability mode stored at `off`; `None` on any byte but 0 or 1.
pub open spec fn da_mode_at(s: Seq<u8>, off: int) -> Option<L1DataAvailabilityMode> {
    if s[off] == 0 {
        Some(L1DataAvailabilityMode::Calldata)
    } else if s[off] == 1 {
        Some(L1DataAvailabilityMode::Blob)
    } else {
        None
    }
}

/// The optional field element stored at `off`: a presence byte, then the
/// payload. The outer `None` means a malformed presence byte.
pub open spec fn opt_felt_at(s: Seq<u8>, off: int) -> Option<Option<StarkFelt>> {
    if s[off] == 0 {
        Some(None)
    } else if s[off] == 1 {
        Some(Some(felt_at(s, off + 1)))
    } else {
        None
    }
}

/// The optional 64-bit integer stored at `off`: a presence byte, then the
/// payload. The outer `None` means a malformed presence byte.
pub open spec fn opt_u64_at(s: Seq<u8>, off: int) -> Option<Option<u64>> {
    if s[off] == 0 {
        Some(None)
    } else if s[off] == 1 {
        Some(Some(u64_be_at(s, off + 1)))
    } else {
        None
    }
}

/// The value decoded from `s` under the oldest schema, or `None` when `s` is
/// malformed for it.
pub open spec fn decode_v0(s: Seq<u8>) -> Option<StorageBlockHeaderV0> {
    if s.len() >= V0_SERIALIZED_LEN {
        match da_mode_at(s, OFF_L1_DA_MODE as int) {
            Some(da_mode) => Some(
                StorageBlockHeaderV0 {
                    block_hash: BlockHash(felt_at(s, OFF_BLOCK_HASH as int)),
                    parent_hash: BlockHash(felt_at(s, OFF_PARENT_HASH as int)),
                    block_number: BlockNumber(u64_be_at(s, OFF_BLOCK_NUMBER as int)),
                    l1_gas_price: gas_price_per_token_at(s, OFF_L1_GAS_PRICE as int),
                    l1_data_gas_price: gas_price_per_token_at(s, OFF_L1_DATA_GAS_PRICE as int),
                    state_root: GlobalRoot(felt_at(s, OFF_STATE_ROOT as int)),
                    sequencer: SequencerContractAddress(felt_at(s, OFF_SEQUENCER as int)),
                    timestamp: BlockTimestamp(u64_be_at(s, OFF_TIMESTAMP as int)),
                    l1_da_mode: da_mode,
                    transaction_commitment: TransactionCommitment(
                        felt_at(s, V0_OFF_TX_COMMITMENT as int),
                    ),
                    event_commitment: EventCommitment(felt_at(s, V0_OFF_EVENT_COMMITMENT as int)),
                    n_transactions: u64_be_at(s, V0_OFF_N_TRANSACTIONS as int),
                    n_events: u64_be_at(s, V0_OFF_N_EVENTS as int),
                },
            ),
            None => None,
        }
    } else {
        None
    }
}

/// The value decoded from `s` under the middle schema, or `None` when `s` is
/// malformed for it.
pub open spec fn decode_v1(s: Seq<u8>) -> Option<StorageBlockHeaderV1> {
    if s.len() >= V1_SERIALIZED_LEN {
        match (
            da_mode_at(s, OFF_L1_DA_MODE as int),
            opt_felt_at(s, V1_OFF_STATE_DIFF_COMMITMENT as int),
            opt_felt_at(s, V1_OFF_TX_COMMITMENT as int),
            opt_felt_at(s, V1_OFF_EVENT_COMMITMENT as int),
            opt_u64_at(s, V1_OFF_N_TRANSACTIONS as int),
            opt_u64_at(s, V1_OFF_N_EVENTS as int),
        ) {
            (Some(da_mode), Some(sdc), Some(txc), Some(evc), Some(ntx), Some(nev)) => Some(
                StorageBlockHeaderV1 {
                    block_hash: BlockHash(felt_at(s, OFF_BLOCK_HASH as int)),
                    parent_hash: BlockHash(felt_at(s, OFF_PARENT_HASH as int)),
                    block_number: BlockNumber(u64_be_at(s, OFF_BLOCK_NUMBER as int)),
                    l1_gas_price: gas_price_per_token_at(s, OFF_L1_GAS_PRICE as int),
                    l1_data_gas_price: gas_price_per_token_at(s, OFF_L1_DATA_GAS_PRICE as int),
                    state_root: GlobalRoot(felt_at(s, OFF_STATE_ROOT as int)),
                    sequencer: SequencerContractAddress(felt_at(s, OFF_SEQUENCER as int)),
                    timestamp: BlockTimestamp(u64_be_at(s, OFF_TIMESTAMP as int)),
                    l1_da_mode: da_mode,
                    state_diff_commitment: match sdc {
                        Some(f) => Some(StateDiffCommitment(f)),
                        None => None,
                    },
                    transaction_commitment: match txc {
                        Some(f) => Some(TransactionCommitment(f)),
                        None => None,
                    },
                    event_commitment: match evc {
                        Some(f) => Some(EventCommitment(f)),
                        None => None,
                    },
                    n_transactions: ntx,
                    n_events: nev,
                },
            ),
            _ => None,
        }
    } else {
        None
    }
}

/// Reads the big-endian 64-bit integer at `off`.
fn read_u64_be(bytes: &[u8], off: usize) -> (r: u64)
    requires
        off + 8 <= bytes@.len(),
    ensures
        r == u64_be_at(bytes@, off as int),
{
    (bytes[off] as u64) * 0x100000000000000 + (bytes[off + 1] as u64) * 0x1000000000000 + (bytes[off
        + 2] as u64) * 0x10000000000 + (bytes[off + 3] as u64) * 0x100000000 + (bytes[off + 4]
        as u64) * 0x1000000 + (bytes[off + 5] as u64) * 0x10000 + (bytes[off + 6] as u64) * 0x100
        + (bytes[off + 7] as u64)
}

/// Reads the big-endian 128-bit integer at `off`.
fn read_u128_be(bytes: &[u8], off: usize) -> (r: u128)
    requires
        off + 16 <= bytes@.len(),
    ensures
        r == u128_be_at(bytes@, off as int),
{
    let n = bytes.len();
    proof {
        assert(off + 16 <= n);
    }
    (read_u64_be(bytes, off) as u128) * 0x10000000000000000 + (read_u64_be(bytes, off + 8) as u128)
}

/// Reads the field element at `off`.
fn read_felt(bytes: &[u8], off: usize) -> (r: StarkFelt)
    requires
        off + 32 <= bytes@.len(),
    ensures
        r == felt_at(bytes@, off as int),
{
    let n = bytes.len();
    proof {
        assert(off + 32 <= n);
    }
    StarkFelt {
        w0: read_u64_be(bytes, off),
        w1: read_u64_be(bytes, off + 8),
        w2: read_u64_be(bytes, off + 16),
        w3: read_u64_be(bytes, off + 24),
    }
}

/// Reads the gas price pair at `off`.
fn read_gas_price_per_token(bytes: &[u8], off: usize) -> (r: GasPricePerToken)
    requires
        off + 32 <= bytes@.len(),
    ensures
        r == gas_price_per_token_at(bytes@, off as int),
{
    let n = bytes.len();
    proof {
        assert(off + 32 <= n);
    }
    GasPricePerToken {
        price_in_fri: GasPrice(read_u128_be(bytes, off)),
        price_in_wei: GasPrice(read_u128_be(bytes, off + 16)),
    }
}

/// Reads the data-availability mode byte at `off`.
fn read_da_mode(bytes: &[u8], off: usize) -> (r: Option<L1DataAvailabilityMode>)
    requires
        off < bytes@.len(),
    ensures
        r == da_mode_at(bytes@, off as int),
{
    if bytes[off] == 0 {
        Some(L1DataAvailabilityMode::Calldata)
    } else if bytes[off] == 1 {
        Some(L1DataAvailabilityMode::Blob)
    } else {
        None
    }
}

/// Reads the optional field element at `off`.
fn read_opt_felt(bytes: &[u8], off: usize) -> (r: Option<Option<StarkFelt>>)
    requires
        off + 33 <= bytes@.len(),
    ensures
        r == opt_felt_at(bytes@, off as int),
{
    let n = bytes.len();
    proof {
        assert(off + 33 <= n);
    }
    if bytes[off] == 0 {
        Some(None)
    } else if bytes[off] == 1 {
        Some(Some(read_felt(bytes, off + 1)))
    } else {
        None
    }
}

/// Reads the optional 64-bit integer at `off`.
fn read_opt_u64(bytes: &[u8], off: usize) -> (r: Option<Option<u64>>)
    requires
        off + 9 <= bytes@.len(),
    ensures
        r == opt_u64_at(bytes@, off as int),
{
    let n = bytes.len();
    proof {
        assert(off + 9 <= n);
    }
    if bytes[off] == 0 {
        Some(None)
    } else if bytes[off] == 1 {
        Some(Some(read_u64_be(bytes, off + 1)))
    } else {
        None
    }
}

impl StorageBlockHeaderV0 {
    /// Decodes a value of the oldest schema from `bytes`; `None` exactly when
    /// the bytes are malformed for that schema.
    pub fn deserialize_from(bytes: &[u8]) -> (r: Option<Self>)
        ensures
            r == decode_v0(bytes@),
    {
        if bytes.len() < V0_SERIALIZED_LEN {
            return None;
        }
        let da_mode = match read_da_mode(bytes, OFF_L1_DA_MODE) {
            Some(m) => m,
            None => {
                return None;
            },
        };
        Some(
            StorageBlockHeaderV0 {
                block_hash: BlockHash(read_felt(bytes, OFF_BLOCK_HASH)),
                parent_hash: BlockHash(read_felt(bytes, OFF_PARENT_HASH)),
                block_number: BlockNumber(read_u64_be(bytes, OFF_BLOCK_NUMBER)),
                l1_gas_price: read_gas_price_per_token(bytes, OFF_L1_GAS_PRICE),
                l1_data_gas_price: read_gas_price_per_token(bytes, OFF_L1_DATA_GAS_PRICE),
                state_root: GlobalRoot(read_felt(bytes, OFF_STATE_ROOT)),
                sequencer: SequencerContractAddress(read_felt(bytes, OFF_SEQUENCER)),
                timestamp: BlockTimestamp(read_u64_be(bytes, OFF_TIMESTAMP)),
                l1_da_mode: da_mode,
                transaction_commitment: TransactionCommitment(
                    read_felt(bytes, V0_OFF_TX_COMMITMENT),
                ),
                event_commitment: EventCommitment(read_felt(bytes, V0_OFF_EVENT_COMMITMENT)),
                n_transactions: read_u64_be(bytes, V0_OFF_N_TRANSACTIONS),
                n_events: read_u64_be(bytes, V0_OFF_N_EVENTS),
            },
        )
    }
}

impl StorageBlockHeaderV1 {
    /// Decodes a value of the middle schema from `bytes`; `None` exactly when
    /// the bytes are malformed for that schema.
    pub fn deserialize_from(bytes: &[u8]) -> (r: Option<Self>)
        ensures
            r == decode_v1(bytes@),
    {
        if bytes.len() < V1_SERIALIZED_LEN {
            return None;
        }
        let da_mode = match read_da_mode(bytes, OFF_L1_DA_MODE) {
            Some(m) => m,
            None => {
                return None;
            },
        };
        let sdc = match read_opt_felt(bytes, V1_OFF_STATE_DIFF_COMMITMENT) {
            Some(v) => v,
            None => {
                return None;
            },
        };
        let txc = match read_opt_felt(bytes, V1_OFF_TX_COMMITMENT) {
            Some(v) => v,
            None => {
                return None;
            },
        };
        let evc = match read_opt_felt(bytes, V1_OFF_EVENT_COMMITMENT) {
            Some(v) => v,
            None => {
                return None;
            },
        };
        let ntx = match read_opt_u64(bytes, V1_OFF_N_TRANSACTIONS) {
            Some(v) => v,
            None => {
                return None;
            },
        };
        let nev = match read_opt_u64(bytes, V1_OFF_N_EVENTS) {
            Some(v) => v,
            None => {
                return None;
            },
        };
        Some(
            StorageBlockHeaderV1 {
                block_hash: BlockHash(read_felt(bytes, OFF_BLOCK_HASH)),
                parent_hash: BlockHash(read_felt(bytes, OFF_PARENT_HASH)),
                block_number: BlockNumber(read_u64_be(bytes, OFF_BLOCK_NUMBER)),
                l1_gas_price: read_gas_price_per_token(bytes, OFF_L1_GAS_PRICE),
                l1_data_gas_price: read_gas_price_per_token(bytes, OFF_L1_DATA_GAS_PRICE),
                state_root: GlobalRoot(read_felt(bytes, OFF_STATE_ROOT)),
                sequencer: SequencerContractAddress(read_felt(bytes, OFF_SEQUENCER)),
                timestamp: BlockTimestamp(read_u64_be(bytes, OFF_TIMESTAMP)),
                l1_da_mode: da_mode,
                state_diff_commitment: match sdc {
                    Some(f) => Some(StateDiffCommitment(f)),
                    None => None,
                },
                transaction_commitment: match txc {
                    Some(f) => Some(TransactionCommitment(f)),
                    None => None,
                },
                event_commitment: match evc {
                    Some(f) => Some(EventCommitment(f)),
                    None => None,
                },
                n_transactions: ntx,
                n_events: nev,
            },
        )
    }
}

} // verus!
