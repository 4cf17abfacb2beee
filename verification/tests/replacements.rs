use gix_core::open::config::{Config, ConfigEntry, ConfigKey, ConfigSection, ConfigSourceKind, SectionFilter, TrustLevel};
use gix_core::open::error::{ConfigError, Error};
use gix_core::open::replace::{replacement_objects_refs_prefix, replacements, Reference};

fn config(entries: &[(ConfigKey, Option<&str>)], trust: TrustLevel) -> Config {
    Config {
        sections: vec![ConfigSection {
            kind: ConfigSourceKind::Local,
            origin_path: Some(b"/repo/.git/config".to_vec()),
            trust,
            entries: entries
                .iter()
                .map(|(key, value)| ConfigEntry {
                    key: *key,
                    value: value.map(|v| v.as_bytes().to_vec()),
                })
                .collect(),
        }],
    }
}

fn prefix(config: &Config, lenient: bool) -> Result<Option<Vec<u8>>, Error> {
    replacement_objects_refs_prefix(config, lenient, &SectionFilter::trusted())
}

fn id(hex: &str) -> gix_hash::ObjectId {
    gix_hash::ObjectId::from_hex(hex.as_bytes()).expect("valid hex")
}

fn reference(name: &str, target: Option<&str>) -> Reference {
    Reference {
        name: name.as_bytes().to_vec(),
        target: target.map(id),
    }
}

const A: &str = "aaaaaaaaaaaaaaaaaaaaaaaaaaaaaaaaaaaaaaaa";
const B: &str = "bbbbbbbbbbbbbbbbbbbbbbbbbbbbbbbbbbbbbbbb";
const C: &str = "0123456789abcdef0123456789abcdef01234567";

#[test]
fn replacements_are_on_by_default() {
    let empty = Config { sections: vec![] };
    assert_eq!(prefix(&empty, true), Ok(Some(b"refs/replace/".to_vec())));
    assert_eq!(prefix(&empty, false), Ok(Some(b"refs/replace/".to_vec())));
}

#[test]
fn replacements_can_be_switched_off() {
    for off in ["false", "no", "off", "0", "", "FALSE"] {
        let c = config(&[(ConfigKey::UseReplaceRefs, Some(off))], TrustLevel::Full);
        assert_eq!(prefix(&c, true), Ok(None));
        assert_eq!(prefix(&c, false), Ok(None));
    }
    for on in ["true", "yes", "on", "1", "2", "True"] {
        let c = config(&[(ConfigKey::UseReplaceRefs, Some(on))], TrustLevel::Full);
        assert_eq!(prefix(&c, true), Ok(Some(b"refs/replace/".to_vec())));
    }
    let implicit = config(&[(ConfigKey::UseReplaceRefs, None)], TrustLevel::Full);
    assert_eq!(prefix(&implicit, false), Ok(Some(b"refs/replace/".to_vec())));
}

#[test]
fn sections_that_are_not_trusted_cannot_switch_replacements_off() {
    let c = config(&[(ConfigKey::UseReplaceRefs, Some("false"))], TrustLevel::Reduced);
    assert_eq!(prefix(&c, true), Ok(Some(b"refs/replace/".to_vec())));
}

#[test]
fn a_setting_that_is_no_boolean_fails_under_strict_settings_only() {
    let c = config(&[(ConfigKey::UseReplaceRefs, Some("maybe"))], TrustLevel::Full);
    assert_eq!(prefix(&c, true), Ok(Some(b"refs/replace/".to_vec())));
    assert_eq!(
        prefix(&c, false),
        Err(Error::Config(ConfigError::ConfigBoolean { key: ConfigKey::UseReplaceRefs }))
    );
}

#[test]
fn the_base_of_replacement_references_can_be_configured() {
    let c = config(&[(ConfigKey::ReplaceRefBase, Some("refs/other/"))], TrustLevel::Full);
    assert_eq!(prefix(&c, true), Ok(Some(b"refs/other/".to_vec())));
    let off = config(
        &[(ConfigKey::ReplaceRefBase, Some("refs/other/")), (ConfigKey::UseReplaceRefs, Some("false"))],
        TrustLevel::Full,
    );
    assert_eq!(prefix(&off, true), Ok(None));
    let untrusted = config(&[(ConfigKey::ReplaceRefBase, Some("refs/other/"))], TrustLevel::Reduced);
    assert_eq!(prefix(&untrusted, true), Ok(Some(b"refs/replace/".to_vec())));
}

#[test]
fn references_under_the_prefix_name_what_they_replace() {
    let refs = vec![
        reference(&format!("refs/replace/{A}"), Some(B)),
        reference(&format!("refs/replace/{C}"), Some(A)),
    ];
    assert_eq!(replacements(b"refs/replace/", &refs), vec![(id(A), id(B)), (id(C), id(A))]);
    let upper = vec![reference(&format!("refs/replace/{}", C.to_uppercase()), Some(B))];
    assert_eq!(replacements(b"refs/replace/", &upper), vec![(id(C), id(B))]);
    assert_eq!(replacements(b"refs/replace/", &vec![]), vec![]);
}

#[test]
fn references_that_name_no_replacement_are_passed_over() {
    let refs = vec![
        reference(&format!("refs/replace/{A}"), None),
        reference("refs/replace/not-an-id", Some(B)),
        reference(&format!("refs/replace/{}", &A[..39]), Some(B)),
        reference(&format!("refs/replace/{A}0"), Some(B)),
        reference(&format!("refs/replace/{}g", &A[..39]), Some(B)),
        reference(&format!("refs/heads/{A}"), Some(B)),
        reference("refs", Some(B)),
        reference(&format!("refs/replace/{B}"), Some(C)),
    ];
    assert_eq!(replacements(b"refs/replace/", &refs), vec![(id(B), id(C))]);
    assert_eq!(
        replacements(b"refs/heads/", &refs),
        vec![(id(A), id(B))]
    );
}
