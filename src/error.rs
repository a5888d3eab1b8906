//! The kinds of failure an install can end in.

use vstd::prelude::*;

verus! {

/// Why a stage of an install failed.
#[derive(Debug)]
pub enum InstallError {
    /// A request failed or answered with an error status.
    Network(String),
    /// Reading or writing a local file failed.
    Io(String),
    /// A file or a response is not in the expected format.
    Format(String),
    /// The downloaded bytes do not have the published digest.
    HashMismatch,
    /// Every candidate name for the instance directory is taken.
    AllocationExhausted,
    /// The platform offers no such facility.
    PlatformUnsupported,
    /// The release index holds no matching release or asset.
    NotFound,
    /// An image could not be decoded or encoded.
    Decode,
}

} // verus!
