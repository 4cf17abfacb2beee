//! Object ids of `gix_hash`, seen as the bytes of their digest.
use vstd::prelude::*;

verus! {

/// `gix_hash::oid`: a borrowed object id. Only its digest is spoken of.
#[verifier::external_type_specification]
#[verifier::external_body]
pub struct ExOid(gix_hash::oid);

/// `gix_hash::ObjectId`: an owned object id. Only its digest is spoken of.
#[verifier::external_type_specification]
#[verifier::external_body]
pub struct ExObjectId(gix_hash::ObjectId);

/// The number of bytes in a SHA-1 digest.
pub const SHA1_LEN: usize = 20;

/// The number of bytes in a SHA-256 digest.
pub const SHA256_LEN: usize = 32;

/// The hash that names the objects of a repository.
#[derive(Clone, Copy, PartialEq, Eq, Debug, Hash, Structural)]
pub enum HashKind {
    Sha1,
    Sha256,
}

impl HashKind {
    /// The number of bytes in a digest of this kind.
    pub open spec fn digest_len(self) -> usize {
        match self {
            HashKind::Sha1 => SHA1_LEN,
            HashKind::Sha256 => SHA256_LEN,
        }
    }

    /// The number of bytes in a digest of this kind.
    pub fn len_in_bytes(&self) -> (r: usize)
        ensures
            r == self.digest_len(),
    {
        match self {
            HashKind::Sha1 => SHA1_LEN,
            HashKind::Sha256 => SHA256_LEN,
        }
    }
}

/// The digest bytes of a borrowed object id.
pub uninterp spec fn oid_bytes(id: &gix_hash::oid) -> Seq<u8>;

/// The digest bytes of an owned object id.
pub uninterp spec fn object_id_bytes(id: gix_hash::ObjectId) -> Seq<u8>;

/// Cloning an owned id keeps its digest.
pub assume_specification[ <gix_hash::ObjectId as Clone>::clone ](id: &gix_hash::ObjectId) -> (r:
    gix_hash::ObjectId)
    ensures
        object_id_bytes(r) == object_id_bytes(*id),
;

/// `oid::as_bytes`, asked for its length: the number of bytes in the digest of an id.
#[verifier::external_body]
pub(crate) fn oid_len(id: &gix_hash::oid) -> (r: usize)
    ensures
        r == oid_bytes(id).len(),
{
    id.as_bytes().len()
}

/// `<oid as ToOwned>::to_owned`: copies the digest into an owned id. The outside function
/// tells the hash kind by the digest's length and panics on any length that is not a
/// digest's, so only SHA-1 digests are admitted.
#[verifier::external_body]
pub(crate) fn oid_to_owned(id: &gix_hash::oid) -> (r: gix_hash::ObjectId)
    requires
        oid_bytes(id).len() == SHA1_LEN,
    ensures
        object_id_bytes(r) == oid_bytes(id),
{
    id.to_owned()
}

/// The number that a hexadecimal digit stands for, in either case.
pub open spec fn hex_value(digit: u8) -> Option<int> {
    if 48 <= digit <= 57 {
        Some(digit - 48)
    } else if 97 <= digit <= 102 {
        Some(digit - 87)
    } else if 65 <= digit <= 70 {
        Some(digit - 55)
    } else {
        None
    }
}

/// The SHA-1 digest that 40 hexadecimal digits spell; anything else spells none.
pub open spec fn hex_decoded(hex: Seq<u8>) -> Option<Seq<u8>> {
    if hex.len() == 2 * SHA1_LEN && forall|i: int|
        0 <= i < hex.len() ==> hex_value(#[trigger] hex[i]) is Some {
        Some(
            Seq::new(
                SHA1_LEN as nat,
                |i: int|
                    (hex_value(hex[2 * i]).unwrap() * 16 + hex_value(
                        hex[2 * i + 1],
                    ).unwrap()) as u8,
            ),
        )
    } else {
        None
    }
}

/// `gix_hash::ObjectId::from_hex`, built for SHA-1 alone: decodes 40 hexadecimal digits
/// of either case, and fails on any other length and on any other byte.
#[verifier::external_body]
pub(crate) fn object_id_from_hex(hex: &[u8]) -> (r: Option<gix_hash::ObjectId>)
    ensures
        match r {
            Some(id) => hex_decoded(hex@) == Some(object_id_bytes(id)),
            None => hex_decoded(hex@) is None,
        },
{
    gix_hash::ObjectId::from_hex(hex).ok()
}

/// The SHA-1 digest of some bytes as `gix_hash` computes it, which watches for
/// collision attacks and gives no digest where it detects one.
pub uninterp spec fn sha1_digest(data: Seq<u8>) -> Option<Seq<u8>>;

/// `gix_hash::hasher` for SHA-1, fed `data` by `Hasher::update` and closed by
/// `Hasher::try_finalize`.
#[verifier::external_body]
pub(crate) fn hash_sha1(data: &[u8]) -> (r: Option<gix_hash::ObjectId>)
    ensures
        match r {
            Some(id) => sha1_digest(data@) == Some(object_id_bytes(id)),
            None => sha1_digest(data@) is None,
        },
{
    let mut hasher = gix_hash::hasher(gix_hash::Kind::Sha1);
    hasher.update(data);
    hasher.try_finalize().ok()
}

/// `gix_hash::ObjectId::verify`: succeeds exactly if both ids hold the same digest.
#[verifier::external_body]
pub(crate) fn verify_id(actual: &gix_hash::ObjectId, expected: &gix_hash::ObjectId) -> (r: bool)
    ensures
        r == (object_id_bytes(*actual) == object_id_bytes(*expected)),
{
    actual.verify(expected).is_ok()
}

} // verus!
