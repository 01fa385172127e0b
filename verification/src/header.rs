//! Field types of the stored block header and its current schema.
//!
//! Each field type holds as plain integers exactly what the migration logic
//! reads of it: a 252-bit field element is carried as four 64-bit big-endian
//! limbs, a gas price as a pair of 128-bit amounts, a count as a 64-bit
//! integer. The sentinel tests of the conversion steps compare whole values,
//! so nothing finer is needed.

use vstd::prelude::*;

verus! {

/// A field element, as four big-endian 64-bit limbs (`w0` most significant).
#[derive(Debug, Clone, Copy, PartialEq, Eq, Structural)]
pub struct StarkFelt {
    pub w0: u64,
    pub w1: u64,
    pub w2: u64,
    pub w3: u64,
}

/// The zero field element: the reserved sentinel of the oldest schemas.
pub open spec fn felt_zero() -> StarkFelt {
    StarkFelt { w0: 0, w1: 0, w2: 0, w3: 0 }
}

impl Default for StarkFelt {
    /// The default field element is zero.
    fn default() -> (r: Self)
        ensures
            r == felt_zero(),
    {
        StarkFelt { w0: 0, w1: 0, w2: 0, w3: 0 }
    }
}

/// Hash identifying a block.
#[derive(Debug, Clone, Copy, PartialEq, Eq, Structural)]
pub struct BlockHash(pub StarkFelt);

/// Sequential height of a block.
#[derive(Debug, Clone, Copy, PartialEq, Eq, Structural)]
pub struct BlockNumber(pub u64);

/// Creation time of a block, as seconds since the epoch.
#[derive(Debug, Clone, Copy, PartialEq, Eq, Structural)]
pub struct BlockTimestamp(pub u64);

/// A gas price, in the smallest unit of one fee token.
#[derive(Debug, Clone, Copy, PartialEq, Eq, Structural)]
pub struct GasPrice(pub u128);

/// The price of one unit of gas, quoted in both fee tokens.
#[derive(Debug, Clone, Copy, PartialEq, Eq, Structural)]
pub struct GasPricePerToken {
    pub price_in_fri: GasPrice,
    pub price_in_wei: GasPrice,
}

/// Commitment to the global state after a block.
#[derive(Debug, Clone, Copy, PartialEq, Eq, Structural)]
pub struct GlobalRoot(pub StarkFelt);

/// Address of the sequencer that built a block.
#[derive(Debug, Clone, Copy, PartialEq, Eq, Structural)]
pub struct SequencerContractAddress(pub StarkFelt);

/// Commitment to the transactions of a block.
#[derive(Debug, Clone, Copy, PartialEq, Eq, Structural)]
pub struct TransactionCommitment(pub StarkFelt);

impl Default for TransactionCommitment {
    /// The default commitment is zero: the legacy "not tracked" sentinel.
    fn default() -> (r: Self)
        ensures
            r == TransactionCommitment(felt_zero()),
    {
        TransactionCommitment(StarkFelt { w0: 0, w1: 0, w2: 0, w3: 0 })
    }
}

/// Commitment to the events of a block.
#[derive(Debug, Clone, Copy, PartialEq, Eq, Structural)]
pub struct EventCommitment(pub StarkFelt);

impl Default for EventCommitment {
    /// The default commitment is zero: the legacy "not tracked" sentinel.
    fn default() -> (r: Self)
        ensures
            r == EventCommitment(felt_zero()),
    {
        EventCommitment(StarkFelt { w0: 0, w1: 0, w2: 0, w3: 0 })
    }
}

/// Commitment to the state diff of a block.
#[derive(Debug, Clone, Copy, PartialEq, Eq, Structural)]
pub struct StateDiffCommitment(pub StarkFelt);

/// Commitment to the receipts of a block.
#[derive(Debug, Clone, Copy, PartialEq, Eq, Structural)]
pub struct ReceiptCommitment(pub StarkFelt);

/// Where a block's transactions published their data on the base layer.
#[derive(Debug, Clone, Copy, PartialEq, Eq, Structural)]
pub enum L1DataAvailabilityMode {
    Calldata,
    Blob,
}

/// The block header under the current schema. Fields introduced after the
/// historical schemas are optional: a migrated value carries `None` wherever
/// the historical record held no usable information for the field.
#[derive(Debug, Clone, PartialEq, Eq)]
pub struct StorageBlockHeader {
    pub block_hash: BlockHash,
    pub parent_hash: BlockHash,
    pub block_number: BlockNumber,
    pub l1_gas_price: GasPricePerToken,
    pub l1_data_gas_price: GasPricePerToken,
    pub state_root: GlobalRoot,
    pub sequencer: SequencerContractAddress,
    pub timestamp: BlockTimestamp,
    pub l1_da_mode: L1DataAvailabilityMode,
    pub state_diff_commitment: Option<StateDiffCommitment>,
    pub state_diff_length: Option<u64>,
    pub receipt_commitment: Option<ReceiptCommitment>,
    pub transaction_commitment: Option<TransactionCommitment>,
    pub event_commitment: Option<EventCommitment>,
    pub n_transactions: Option<u64>,
    pub n_events: Option<u64>,
}

} // verus!
