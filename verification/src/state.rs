//! State records stored by the engine that carry the migration capability.

use vstd::prelude::*;

use crate::header::BlockNumber;
use crate::serialization::{migration_result_of, Migratable, StorageSerdeError};

verus! {

/// A deprecated contract class as stored: the block it was declared at and
/// where its body lies in the class file.
#[derive(Debug, Clone, Copy, PartialEq, Eq, Structural)]
pub struct IndexedDeprecatedContractClass {
    pub block_number: BlockNumber,
    pub location_in_file: u64,
}

impl Migratable for IndexedDeprecatedContractClass {
    /// No migration path is implemented for this kind yet: no bytes migrate,
    /// whatever the declared older version. A valid terminal state while no
    /// older data of this kind is expected to exist.
    open spec fn migrate_spec(bytes: Seq<u8>, older_version: u8) -> Option<Self> {
        None
    }

    fn try_from_older_version(_bytes: &[u8], _older_version: u8) -> (r: Result<
        Self,
        StorageSerdeError,
    >)
        ensures
            r == migration_result_of(Self::migrate_spec(_bytes@, _older_version)),
    {
        Err(StorageSerdeError::Migration)
    }
}

/// The migration of a kind whose conversion is not implemented fails for
/// every input, the declared version 0 included.
pub proof fn lemma_unimplemented_kind_always_fails(bytes: Seq<u8>, older_version: u8)
    ensures
        IndexedDeprecatedContractClass::migrate_spec(bytes, older_version) is None,
        migration_result_of(IndexedDeprecatedContractClass::migrate_spec(bytes, older_version))
            == Err::<IndexedDeprecatedContractClass, StorageSerdeError>(
            StorageSerdeError::Migration,
        ),
{
}

} // verus!
