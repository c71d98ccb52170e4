//! The two kinds of failure that reach the session: the transport could not be
//! opened, or a single device operation failed.

use vstd::prelude::*;

verus! {

/// The transport could not be opened. Nothing is retried: the operator has to
/// ask again.
#[derive(Clone, Debug, PartialEq, Eq)]
pub struct OpenError {
    /// Why the transport could not be opened, in words.
    pub reason: String,
}

/// One device operation failed, by a timeout or a damaged frame for instance.
/// It is never fatal: the session keeps what it had and says so in its status.
#[derive(Clone, Debug, PartialEq, Eq)]
pub struct DeviceError {
    /// What went wrong, in words.
    pub detail: String,
}

} // verus!
