//! What can go wrong when the checksum of a file, or of its mapped content, is confirmed.
use vstd::prelude::*;

verus! {

/// Why a checksum could not be confirmed.
pub enum Error {
    /// Interrupted by user
    Interrupted,
    /// Failed to hash data
    Hasher,
    /// The hash of the data is not the expected one.
    Verify { actual: gix_hash::ObjectId, expected: gix_hash::ObjectId },
}

} // verus!
