use gix_core::tag::{validated_name, Error, ObjectKind, Tag, TagRef};

fn tag<'a>(name: &'a [u8]) -> TagRef<'a> {
    TagRef {
        target: b"ffa700b4aca13b80cb6b98a078e7c96804f8e0ec",
        target_kind: ObjectKind::Commit,
        name,
        tagger: Some(b"Sebastian Thiel <byronimo@gmail.com> 1528473343 +0230"),
        message: b"for the signature\n",
        pgp_signature: None,
    }
}

#[test]
fn a_tag_is_written_field_by_field() {
    let out = tag(b"1.0.0").write_to().expect("valid name");
    let expected = b"object ffa700b4aca13b80cb6b98a078e7c96804f8e0ec\n\
type commit\n\
tag 1.0.0\n\
tagger Sebastian Thiel <byronimo@gmail.com> 1528473343 +0230\n\
\n\
for the signature\n";
    assert_eq!(out, expected.to_vec());
}

#[test]
fn the_size_is_the_number_of_bytes_written() {
    let t = tag(b"1.0.0");
    assert_eq!(t.size(), t.write_to().expect("valid name").len());
    assert_eq!(t.size(), 150);
    let bare = TagRef {
        target: b"ffa700b4aca13b80cb6b98a078e7c96804f8e0ec",
        target_kind: ObjectKind::Tree,
        name: b"v1",
        tagger: None,
        message: b"",
        pgp_signature: None,
    };
    assert_eq!(bare.size(), 48 + 10 + 7 + 1);
    assert_eq!(bare.size(), bare.write_to().expect("valid name").len());
}

#[test]
fn a_signature_follows_the_message_on_a_line_of_its_own() {
    let signed = TagRef {
        target: b"ffa700b4aca13b80cb6b98a078e7c96804f8e0ec",
        target_kind: ObjectKind::Tag,
        name: b"signed",
        tagger: None,
        message: b"message",
        pgp_signature: Some(b"-----BEGIN PGP SIGNATURE-----"),
    };
    let out = signed.write_to().expect("valid name");
    assert_eq!(
        out,
        b"object ffa700b4aca13b80cb6b98a078e7c96804f8e0ec\ntype tag\ntag signed\n\nmessage\n-----BEGIN PGP SIGNATURE-----"
            .to_vec()
    );
    assert_eq!(signed.size(), out.len());
    assert_eq!(signed.kind(), ObjectKind::Tag);
}

#[test]
fn names_are_validated_before_anything_is_written() {
    assert_eq!(tag(b"-dash").write_to(), Err(Error::StartsWithDash));
    assert_eq!(tag(b"a..b").write_to(), Err(Error::InvalidRefName));
    assert_eq!(tag(b"").write_to(), Err(Error::InvalidRefName));
    assert_eq!(tag(b"ends/").write_to(), Err(Error::InvalidRefName));
    assert_eq!(tag(b"with space").write_to(), Err(Error::InvalidRefName));
    assert_eq!(validated_name(b"v1.2"), Ok(b"v1.2".as_ref()));
    assert_eq!(validated_name(b"feature/x"), Ok(b"feature/x".as_ref()));
    assert_eq!(validated_name(b"-x"), Err(Error::StartsWithDash));
    assert_eq!(validated_name(b"x.lock"), Err(Error::InvalidRefName));
}

#[test]
fn an_owned_tag_writes_what_the_borrowed_one_writes() {
    let owned = Tag {
        target: b"ffa700b4aca13b80cb6b98a078e7c96804f8e0ec".to_vec(),
        target_kind: ObjectKind::Blob,
        name: b"blob-tag".to_vec(),
        tagger: Some(b"A <a@b.c> 1 +0000".to_vec()),
        message: b"m".to_vec(),
        pgp_signature: Some(b"sig".to_vec()),
    };
    let out = owned.write_to().expect("valid name");
    assert_eq!(out, owned.to_ref().write_to().expect("valid name"));
    assert_eq!(
        out,
        b"object ffa700b4aca13b80cb6b98a078e7c96804f8e0ec\ntype blob\ntag blob-tag\ntagger A <a@b.c> 1 +0000\n\nm\nsig".to_vec()
    );
    assert_eq!(owned.size(), out.len());
    assert_eq!(owned.kind(), ObjectKind::Tag);
}

#[test]
fn names_are_held_to_the_rules_of_git() {
    for bad in [
        "", "a/", "a b", "a\\b", "a^b", "a:b", "a[b", "a?b", "a~b", "a*b", "a\nb", "a\u{7f}b", "a\u{1}b",
        "a..b", "a@{b", ".a", "a.lock", ".lock",
    ] {
        assert_eq!(validated_name(bad.as_bytes()), Err(Error::InvalidRefName), "{bad:?}");
    }
    for good in ["a", "v1.0", "a/b", "a.b", "a@b", "a{b", "lock", "a.lockx", "a-b", "\u{e9}"] {
        assert_eq!(validated_name(good.as_bytes()), Ok(good.as_bytes()), "{good:?}");
    }
    assert_eq!(validated_name(b"-a"), Err(Error::StartsWithDash));
    assert_eq!(validated_name(b"-a b"), Err(Error::InvalidRefName));
}
