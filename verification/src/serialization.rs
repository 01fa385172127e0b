//! Shared failure and capability contract of the storage serialization layer.

use vstd::prelude::*;

verus! {

/// Error kind surfaced by the migration engine. Every fatal condition on the
/// migration path — malformed historical bytes, a version tag at or above the
/// current version, or an entity kind whose migration is not implemented —
/// maps to `Migration` and aborts the read that triggered it.
#[derive(Debug, Clone, Copy, PartialEq, Eq, Structural)]
pub enum StorageSerdeError {
    Migration,
}

/// The result a migration call must return: the migrated value when the
/// migration relation holds, and `Migration` otherwise.
pub open spec fn migration_result_of<T>(o: Option<T>) -> Result<T, StorageSerdeError> {
    match o {
        Some(v) => Ok(v),
        None => Err(StorageSerdeError::Migration),
    }
}

/// Capability implemented by every versioned entity kind: given the bytes of
/// a record written under `older_version` (positioned just after the version
/// tag), attempt to reconstruct a value of the kind's current schema.
///
/// `migrate_spec` is the kind's migration relation: it names, for every byte
/// sequence and declared older version, either the unique current-schema value
/// those bytes migrate to or `None` when the migration must fail. The
/// executable method is pinned to that relation, so its outcome is a pure
/// function of its inputs.
pub trait Migratable: Sized {
    /// The migration relation of this entity kind.
    spec fn migrate_spec(bytes: Seq<u8>, older_version: u8) -> Option<Self>;

    /// Reconstruct a current-schema value from bytes written under
    /// `older_version`, or fail with `Migration`.
    fn try_from_older_version(bytes: &[u8], older_version: u8) -> (r: Result<
        Self,
        StorageSerdeError,
    >)
        ensures
            r == migration_result_of(Self::migrate_spec(bytes@, older_version)),
    ;
}

/// Migration is deterministic: the contract of `try_from_older_version` pins
/// its result to the kind's migration relation, so any two outcomes that the
/// contract admits for the same bytes and the same declared version are equal.
pub proof fn lemma_migration_deterministic<T: Migratable>(
    bytes: Seq<u8>,
    older_version: u8,
    r1: Result<T, StorageSerdeError>,
    r2: Result<T, StorageSerdeError>,
)
    requires
        r1 == migration_result_of(T::migrate_spec(bytes, older_version)),
        r2 == migration_result_of(T::migrate_spec(bytes, older_version)),
    ensures
        r1 == r2,
{
}

} // verus!
