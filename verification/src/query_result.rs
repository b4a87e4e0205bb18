//! Capability contracts that every outcome type satisfies: reporting an
//! affected-row count, and reporting a generated identifier of some
//! backend-specific type. Code generic over "any outcome type with these
//! capabilities" can be written once and instantiated per backend.

use vstd::prelude::*;

verus! {

/// Reports how many rows a data-modification statement affected.
pub trait HasRowsAffected {
    /// The affected-row count this outcome carries.
    spec fn spec_rows_affected(&self) -> u64;

    /// Reads the affected-row count.
    fn rows_affected(&self) -> (r: u64)
        ensures
            r == self.spec_rows_affected(),
    ;
}

/// Reports the identifier the engine generated for the statement, in the
/// backend's own identifier type `T`: an always-present unsigned id, a signed
/// row id, an optional id, or an always-absent marker.
pub trait HasLastInsertId<T> {
    /// The generated identifier this outcome carries.
    spec fn spec_last_insert_id(&self) -> T;

    /// Reads the generated identifier.
    fn last_insert_id(&self) -> (r: T)
        ensures
            r == self.spec_last_insert_id(),
    ;
}

} // verus!
