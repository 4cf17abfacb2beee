use gix_core::hash::HashKind;
use gix_core::verify::checksum::Error as ChecksumError;
use gix_core::verify::{checksum_on_disk_or_mmap, fan, len_without_trailer, FileHash};

fn id(hex: &str) -> gix_hash::ObjectId {
    gix_hash::ObjectId::from_hex(hex.as_bytes()).expect("valid hex")
}

const HELLO_SHA1: &str = "aaf4c61ddcc5e8a2dabede0f3b482cd9aea9434d";

fn hello_with_trailer() -> Vec<u8> {
    let mut data = b"hello".to_vec();
    data.extend_from_slice(id(HELLO_SHA1).as_slice());
    data
}

#[test]
fn fan_finds_the_first_descent() {
    assert_eq!(fan(&[1, 2, 3]), None);
    assert_eq!(fan(&[1, 3, 2]), Some(1));
    assert_eq!(fan(&[2, 1, 0]), Some(0));
    assert_eq!(fan(&[1, 1, 1]), None);
    assert_eq!(fan(&[0, 5, 5, 4, 9, 8]), Some(2));
    assert_eq!(fan(&[]), None);
    assert_eq!(fan(&[7]), None);
    assert_eq!(fan(&[u32::MAX, 0]), Some(0));
}

#[test]
fn the_trailer_is_as_long_as_a_digest() {
    assert_eq!(len_without_trailer(25, HashKind::Sha1), Some(5));
    assert_eq!(len_without_trailer(20, HashKind::Sha1), Some(0));
    assert_eq!(len_without_trailer(19, HashKind::Sha1), None);
    assert_eq!(len_without_trailer(32, HashKind::Sha256), Some(0));
    assert_eq!(len_without_trailer(31, HashKind::Sha256), None);
    assert_eq!(HashKind::Sha1.len_in_bytes(), 20);
    assert_eq!(HashKind::Sha256.len_in_bytes(), 32);
}

#[test]
fn mapped_data_is_hashed_where_the_file_cannot_be_read() {
    let data = hello_with_trailer();
    let r = checksum_on_disk_or_mmap(FileHash::Unreadable, &data, id(HELLO_SHA1), HashKind::Sha1);
    assert!(matches!(r, Ok(actual) if actual == id(HELLO_SHA1)));
}

#[test]
fn a_hash_that_differs_is_reported_with_both_ids() {
    let data = hello_with_trailer();
    let other = id("0000000000000000000000000000000000000001");
    let r = checksum_on_disk_or_mmap(FileHash::Unreadable, &data, other, HashKind::Sha1);
    assert!(matches!(
        r,
        Err(ChecksumError::Verify { actual, expected }) if actual == id(HELLO_SHA1) && expected == other
    ));
    let from_file = FileHash::Hashed(id(HELLO_SHA1));
    let r = checksum_on_disk_or_mmap(from_file, &data, other, HashKind::Sha1);
    assert!(matches!(r, Err(ChecksumError::Verify { .. })));
}

#[test]
fn the_hash_of_the_file_is_taken_where_there_is_one() {
    let data = hello_with_trailer();
    let from_file = FileHash::Hashed(id("0000000000000000000000000000000000000002"));
    let r = checksum_on_disk_or_mmap(
        from_file,
        &data,
        id("0000000000000000000000000000000000000002"),
        HashKind::Sha1,
    );
    assert!(matches!(r, Ok(actual) if actual == id("0000000000000000000000000000000000000002")));
}

#[test]
fn interruption_and_hasher_failure_are_told_apart() {
    let data = hello_with_trailer();
    let r = checksum_on_disk_or_mmap(FileHash::Interrupted, &data, id(HELLO_SHA1), HashKind::Sha1);
    assert!(matches!(r, Err(ChecksumError::Interrupted)));
    let r = checksum_on_disk_or_mmap(FileHash::HasherFailed, &data, id(HELLO_SHA1), HashKind::Sha1);
    assert!(matches!(r, Err(ChecksumError::Hasher)));
    let long = vec![0u8; 40];
    let r = checksum_on_disk_or_mmap(FileHash::Unreadable, &long, id(HELLO_SHA1), HashKind::Sha256);
    assert!(matches!(r, Err(ChecksumError::Hasher)));
}
