//! Names for the pluggable storage backends.  The persistence mechanics
//! themselves, file input and output and the serialized record format, live
//! in the binary around the library, which owes the core only a narrow
//! load/save contract.

use vstd::prelude::*;

verus! {

/// Backend integrations for storing session records.
pub enum Backend {
    /// Local JSON files, one record per session.
    LocalJson,
}

/// An error reported by a storage backend.
pub type BackendError = String;

} // verus!
