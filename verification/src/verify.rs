//! Checks on the data of a pack: the order of a fan-out table and the checksum that
//! trails the data.
use vstd::prelude::*;
use crate::hash::{hash_sha1, object_id_bytes, sha1_digest, verify_id, HashKind};
use crate::verify::checksum::Error;

pub mod checksum;

verus! {

/// Whether `index` is the first place at which a value is followed by a smaller one.
pub open spec fn is_first_descent(data: Seq<u32>, index: int) -> bool {
    &&& 0 <= index && index + 1 < data.len()
    &&& data[index] > data[index + 1]
    &&& forall|j: int| 0 <= j < index ==> data[j] <= #[trigger] data[j + 1]
}

/// Whether no value is followed by a smaller one.
pub open spec fn is_ascending(data: Seq<u32>) -> bool {
    forall|j: int| 0 <= j && j + 1 < data.len() ==> data[j] <= #[trigger] data[j + 1]
}

/// Returns the `index` at which the following `index + 1` value is not an increment over
/// the value at `index`.
pub fn fan(data: &[u32]) -> (r: Option<usize>)
    ensures
        match r {
            Some(index) => is_first_descent(data@, index as int),
            None => is_ascending(data@),
        },
{
    if data.len() < 2 {
        return None;
    }
    let last = data.len() - 1;
    let mut i: usize = 0;
    while i < last
        invariant
            forall|j: int| 0 <= j < i ==> data@[j] <= #[trigger] data@[j + 1],
            i <= last,
            last + 1 == data@.len(),
        decreases last - i,
    {
        if data[i] > data[i + 1] {
            return Some(i);
        }
        i += 1;
    }
    None
}

/// What came of hashing the data as it lies on disk.
pub enum FileHash {
    /// The file was read and this is its hash.
    Hashed(gix_hash::ObjectId),
    /// The user interrupted the reading.
    Interrupted,
    /// The file could not be read.
    Unreadable,
    /// The hasher gave up.
    HasherFailed,
}

/// The hash of the data that was mapped into memory, without the checksum that trails
/// it. This build hashes SHA-1 only and gives no hash of another kind.
pub open spec fn hash_in_memory(data: Seq<u8>, object_hash: HashKind) -> Option<Seq<u8>> {
    match object_hash {
        HashKind::Sha1 => sha1_digest(data.take(data.len() - object_hash.digest_len())),
        HashKind::Sha256 => None,
    }
}

/// The hash that is held against the expected one: the one of the file where it could
/// be read, and the one of the mapped data where it could not.
pub open spec fn actual_hash(from_file: FileHash, data: Seq<u8>, object_hash: HashKind) -> Option<
    Seq<u8>,
> {
    match from_file {
        FileHash::Hashed(id) => Some(object_id_bytes(id)),
        FileHash::Unreadable => hash_in_memory(data, object_hash),
        _ => None,
    }
}

/// How many bytes of `data_len` come before the checksum that trails them.
pub fn len_without_trailer(data_len: usize, object_hash: HashKind) -> (r: Option<usize>)
    ensures
        r == if data_len >= object_hash.digest_len() {
            Some((data_len - object_hash.digest_len()) as usize)
        } else {
            None
        },
{
    let n = object_hash.len_in_bytes();
    if data_len >= n {
        Some(data_len - n)
    } else {
        None
    }
}

/// Confirms the checksum of pack data. `from_file` is what came of hashing the file on
/// disk up to the checksum; where the file could not be read, the mapped `data` is
/// hashed in its place. The hash is handed back if it is the `expected` one.
pub fn checksum_on_disk_or_mmap(
    from_file: FileHash,
    data: &[u8],
    expected: gix_hash::ObjectId,
    object_hash: HashKind,
) -> (r: Result<gix_hash::ObjectId, Error>)
    requires
        data@.len() >= object_hash.digest_len(),
    ensures
        match r {
            Ok(id) => actual_hash(from_file, data@, object_hash) == Some(object_id_bytes(id))
                && object_id_bytes(id) == object_id_bytes(expected),
            Err(Error::Interrupted) => from_file is Interrupted,
            Err(Error::Hasher) => from_file is HasherFailed || (from_file is Unreadable
                && hash_in_memory(data@, object_hash) is None),
            Err(Error::Verify { actual, expected: wanted }) => {
                &&& actual_hash(from_file, data@, object_hash) == Some(object_id_bytes(actual))
                &&& object_id_bytes(actual) != object_id_bytes(expected)
                &&& object_id_bytes(wanted) == object_id_bytes(expected)
            },
        },
{
    let data_len_without_trailer = data.len() - object_hash.len_in_bytes();
    let actual = match from_file {
        FileHash::Hashed(id) => id,
        FileHash::Interrupted => {
            return Err(Error::Interrupted);
        },
        FileHash::Unreadable => {
            let hashed = match object_hash {
                HashKind::Sha1 => {
                    let covered = &data[0..data_len_without_trailer];
                    assert(covered@ == data@.take(data@.len() - object_hash.digest_len()));
                    hash_sha1(covered)
                },
                HashKind::Sha256 => None,
            };
            match hashed {
                Some(id) => id,
                None => {
                    return Err(Error::Hasher);
                },
            }
        },
        FileHash::HasherFailed => {
            return Err(Error::Hasher);
        },
    };
    if verify_id(&actual, &expected) {
        Ok(actual)
    } else {
        Err(Error::Verify { actual, expected })
    }
}

} // verus!
