//! The storage adapter's error.
use vstd::prelude::*;

verus! {

/// Opaque I/O error of the storage adapter.
#[derive(Debug, Clone, Copy, PartialEq, Eq, Structural)]
pub struct StorageError;

} // verus!
