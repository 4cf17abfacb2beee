//! Replacement objects: whether they are looked up at all, under which prefix their
//! references live, and which object each reference replaces by which.
use vstd::prelude::*;
use vstd::slice::slice_to_vec;
use crate::bytes::{bytes_equal, option_view};
use crate::hash::{hex_decoded, object_id_bytes, object_id_from_hex};
use crate::open::config::{
    deciding_section, section_value, Config, ConfigKey, ConfigSectionView, SectionFilter,
};
use crate::open::error::{ConfigError, Error};
use crate::open::worktree::{config_boolean, filtered_sections, parse_boolean};

verus! {

/// Whether the bytes spell a relative path of normal components only.
pub uninterp spec fn valid_relative_path(path: Seq<u8>) -> bool;

/// `TryFrom<&[u8]>` for `&gix_path::RelativePath`: succeeds for paths that are not
/// absolute and whose every component passes the validation of `gix_validate`.
#[verifier::external_body]
pub(crate) fn is_relative_path(path: &[u8]) -> (r: bool)
    ensures
        r == valid_relative_path(path@),
{
    <&gix_path::RelativePath>::try_from(path).is_ok()
}

/// The prefix under which replacement references live unless configured otherwise:
/// `refs/replace/`.
pub open spec fn default_prefix() -> Seq<u8> {
    seq![114u8, 101u8, 102u8, 115u8, 47u8, 114u8, 101u8, 112u8, 108u8, 97u8, 99u8, 101u8, 47u8]
}

/// What the configuration says on whether replacements are looked up: `Ok(None)` where
/// it says nothing, or nothing that can be read while settings are lenient; `Err` where
/// what it says cannot be read while settings are strict.
pub open spec fn replace_refs_setting(
    config: Seq<ConfigSectionView>,
    filter: SectionFilter,
    lenient: bool,
) -> Result<Option<bool>, ()> {
    match deciding_section(
        config,
        ConfigKey::UseReplaceRefs,
        filtered_sections(config, filter),
        false,
    ) {
        Some(i) => match section_value(config[i], ConfigKey::UseReplaceRefs) {
            Some(Some(value)) => match config_boolean(value) {
                Some(b) => Ok(Some(b)),
                None => if lenient {
                    Ok(None)
                } else {
                    Err(())
                },
            },
            _ => Ok(Some(true)),
        },
        None => Ok(None),
    }
}

/// The configured place of replacement references, or the default one.
pub open spec fn replace_ref_base(
    config: Seq<ConfigSectionView>,
    filter: SectionFilter,
) -> Seq<u8> {
    match deciding_section(
        config,
        ConfigKey::ReplaceRefBase,
        filtered_sections(config, filter),
        true,
    ) {
        Some(i) => section_value(config[i], ConfigKey::ReplaceRefBase).unwrap().unwrap(),
        None => default_prefix(),
    }
}

/// The prefix of replacement references: none where replacements are switched off, and
/// otherwise the configured or the default one. Replacements are on unless the
/// configuration says otherwise.
pub open spec fn replacement_prefix(
    config: Seq<ConfigSectionView>,
    filter: SectionFilter,
    lenient: bool,
) -> Result<Option<Seq<u8>>, ()> {
    match replace_refs_setting(config, filter, lenient) {
        Err(_) => Err(()),
        Ok(Some(false)) => Ok(None),
        Ok(_) => Ok(Some(replace_ref_base(config, filter))),
    }
}

/// Finds the prefix under which replacement references are to be looked for, or `None`
/// where replacements are switched off. It fails only on a setting that is no boolean
/// while settings are strict.
pub fn replacement_objects_refs_prefix(
    config: &Config,
    lenient: bool,
    filter: &SectionFilter,
) -> (r: Result<Option<Vec<u8>>, Error>)
    ensures
        match r {
            Ok(prefix) => replacement_prefix(config@, *filter, lenient) == Ok::<
                Option<Seq<u8>>,
                (),
            >(option_view(prefix)),
            Err(e) => replacement_prefix(config@, *filter, lenient) is Err && e == Error::Config(
                ConfigError::ConfigBoolean { key: ConfigKey::UseReplaceRefs },
            ),
        },
{
    let mask = filter.mask(config);
    assert(mask@ =~= filtered_sections(config@, *filter));
    let enabled = match config.deciding_entry(ConfigKey::UseReplaceRefs, &mask) {
        Some(Some(value)) => match parse_boolean(value.as_slice()) {
            Some(b) => b,
            None => {
                if !lenient {
                    return Err(
                        Error::Config(
                            ConfigError::ConfigBoolean { key: ConfigKey::UseReplaceRefs },
                        ),
                    );
                }
                true
            },
        },
        _ => true,
    };
    if !enabled {
        return Ok(None);
    }
    match config.deciding_value(ConfigKey::ReplaceRefBase, &mask) {
        Some((_, value)) => Ok(Some(slice_to_vec(value.as_slice()))),
        None => {
            let base: [u8; 13] = [
                114u8,
                101u8,
                102u8,
                115u8,
                47u8,
                114u8,
                101u8,
                112u8,
                108u8,
                97u8,
                99u8,
                101u8,
                47u8,
            ];
            assert(base@ =~= default_prefix());
            Ok(Some(slice_to_vec(base.as_slice())))
        },
    }
}

/// A reference as far as replacements read it.
#[derive(Clone, PartialEq, Eq, Debug)]
pub struct Reference {
    /// The full name of the reference.
    pub name: Vec<u8>,
    /// The object that the reference points to, unless it points to another reference.
    pub target: Option<gix_hash::ObjectId>,
}

/// What a reference holds, with the name as bytes and the target as its digest.
pub struct ReferenceView {
    pub name: Seq<u8>,
    pub target: Option<Seq<u8>>,
}

impl View for Reference {
    type V = ReferenceView;

    open spec fn view(&self) -> ReferenceView {
        ReferenceView {
            name: self.name@,
            target: match self.target {
                Some(id) => Some(object_id_bytes(id)),
                None => None,
            },
        }
    }
}

/// The replacement that a reference stands for: the object that its name spells after
/// the prefix is replaced by the object it points to. A reference that points to no
/// object, that does not start with the prefix, or whose name spells no object id after
/// it, stands for none.
pub open spec fn replacement_of(prefix: Seq<u8>, reference: ReferenceView) -> Option<
    (Seq<u8>, Seq<u8>),
> {
    if reference.target is Some && prefix.is_prefix_of(reference.name) && hex_decoded(
        reference.name.skip(prefix.len() as int),
    ) is Some {
        Some(
            (
                hex_decoded(reference.name.skip(prefix.len() as int)).unwrap(),
                reference.target.unwrap(),
            ),
        )
    } else {
        None
    }
}

/// The replacements that the first `n` references stand for, in their order.
pub open spec fn replacements_below(prefix: Seq<u8>, references: Seq<ReferenceView>, n: int) -> Seq<
    (Seq<u8>, Seq<u8>),
>
    decreases n,
{
    if n <= 0 {
        Seq::empty()
    } else {
        let before = replacements_below(prefix, references, n - 1);
        match replacement_of(prefix, references[n - 1]) {
            Some(pair) => before.push(pair),
            None => before,
        }
    }
}

/// The digests of each pair of object ids.
pub open spec fn pairs_view(pairs: Vec<(gix_hash::ObjectId, gix_hash::ObjectId)>) -> Seq<
    (Seq<u8>, Seq<u8>),
> {
    pairs@.map_values(
        |p: (gix_hash::ObjectId, gix_hash::ObjectId)| (object_id_bytes(p.0), object_id_bytes(p.1)),
    )
}

/// The views of several references.
pub open spec fn references_view(references: Vec<Reference>) -> Seq<ReferenceView> {
    references@.map_values(|r: Reference| r@)
}

/// Collects the replacements that the references under `prefix` stand for. References
/// that stand for none are passed over.
pub fn replacements(prefix: &[u8], references: &Vec<Reference>) -> (r: Vec<
    (gix_hash::ObjectId, gix_hash::ObjectId),
>)
    ensures
        pairs_view(r) == replacements_below(
            prefix@,
            references_view(*references),
            references@.len() as int,
        ),
{
    let mut pairs: Vec<(gix_hash::ObjectId, gix_hash::ObjectId)> = Vec::new();
    let mut i: usize = 0;
    assert(pairs_view(pairs) =~= Seq::<(Seq<u8>, Seq<u8>)>::empty());
    while i < references.len()
        invariant
            i <= references@.len(),
            pairs_view(pairs) == replacements_below(
                prefix@,
                references_view(*references),
                i as int,
            ),
        decreases references@.len() - i,
    {
        let reference = &references[i];
        assert(references_view(*references)[i as int] == reference@);
        match reference.target {
            Some(target) => {
                let name = reference.name.as_slice();
                if prefix.len() <= name.len() {
                    let head = &name[0..prefix.len()];
                    let tail = &name[prefix.len()..name.len()];
                    assert(head@ == name@.subrange(0, prefix@.len() as int));
                    assert(tail@ == name@.skip(prefix@.len() as int));
                    if bytes_equal(head, prefix) {
                        match object_id_from_hex(tail) {
                            Some(source) => {
                                let ghost before = pairs_view(pairs);
                                pairs.push((source, target));
                                assert(pairs_view(pairs) =~= before.push(
                                    (object_id_bytes(source), object_id_bytes(target)),
                                ));
                            },
                            None => {},
                        }
                    }
                }
            },
            None => {},
        }
        i += 1;
    }
    pairs
}

} // verus!
