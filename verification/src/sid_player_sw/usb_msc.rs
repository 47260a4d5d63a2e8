//! The USB mass-storage driver's error.
use vstd::prelude::*;

verus! {

/// Why a block read failed.
#[derive(Debug, Clone, Copy, PartialEq, Eq, Structural)]
pub enum MscError {
    NotReady,
    ReadError,
}

} // verus!
