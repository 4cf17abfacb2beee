//! Paths, held as the bytes that configuration and the file system give, and what the
//! standard library and `gix_path` say of them.
use vstd::prelude::*;
use crate::bytes::{borrowed_view, bytes_equal, option_view, strings_view, DOT};

verus! {

/// The components of the path that `path` spells, first to last, each as its bytes: the
/// root is its separator, `.` and `..` stand for themselves. `None` where the bytes spell
/// no path on this platform.
pub uninterp spec fn path_parts(path: Seq<u8>) -> Option<Seq<Seq<u8>>>;

/// Whether the path that `path` spells is absolute on this platform.
pub uninterp spec fn path_is_absolute(path: Seq<u8>) -> bool;

/// The path that joining `path` onto `base` gives.
pub uninterp spec fn path_joined(base: Seq<u8>, path: Seq<u8>) -> Option<Seq<u8>>;

/// The path without its final component.
pub uninterp spec fn path_parent(path: Seq<u8>) -> Option<Seq<u8>>;

/// The path with its `..` components resolved against `current_dir`, without looking at
/// the file system.
pub uninterp spec fn path_normalized(path: Seq<u8>, current_dir: Seq<u8>) -> Option<Seq<u8>>;

/// The path with decomposed Unicode characters composed.
pub uninterp spec fn path_precomposed(path: Seq<u8>) -> Seq<u8>;

/// `Path::components`, each component turned into the bytes of its `as_os_str`. The bytes
/// become a path through `gix_path::from_byte_slice`, which refuses ill-formed UTF-8
/// where paths are not bytes.
#[verifier::external_body]
pub(crate) fn parts(path: &[u8]) -> (r: Option<Vec<Vec<u8>>>)
    ensures
        match r {
            Some(parts) => path_parts(path@) == Some(strings_view(parts)),
            None => path_parts(path@) is None,
        },
{
    let path = gix_path::from_byte_slice(path).ok()?;
    Some(path.components().map(|c| c.as_os_str().as_encoded_bytes().to_vec()).collect())
}

/// `Path::is_absolute`; bytes that spell no path are not absolute.
#[verifier::external_body]
pub(crate) fn is_absolute(path: &[u8]) -> (r: bool)
    ensures
        r == path_is_absolute(path@),
{
    gix_path::from_byte_slice(path).map(|p| p.is_absolute()).unwrap_or(false)
}

/// `Path::join`: `path` adjoined to `base`, or `path` alone where it is absolute. Two
/// paths always join to a path; there is none only where bytes spell no path.
#[verifier::external_body]
pub(crate) fn join(base: &[u8], path: &[u8]) -> (r: Option<Vec<u8>>)
    ensures
        option_view(r) == path_joined(base@, path@),
        path_parts(base@) is Some && path_parts(path@) is Some ==> r is Some,
{
    let joined = gix_path::from_byte_slice(base).ok()?.join(gix_path::from_byte_slice(path).ok()?);
    gix_path::into_bstr(joined).ok().map(|p| p.into_owned().into())
}

/// The name of the directory that holds a repository inside its work tree: `.git`.
pub open spec fn dot_git() -> Seq<u8> {
    seq![DOT, 103u8, 105u8, 116u8]
}

/// `Path::parent`: the path without its final component. There is none for a path that
/// ends in a root or a prefix and for the empty path; so there is one for a path whose
/// final component is the name `.git`.
#[verifier::external_body]
pub(crate) fn parent(path: &[u8]) -> (r: Option<Vec<u8>>)
    ensures
        option_view(r) == path_parent(path@),
        r is Some ==> path_parts(path@) is Some && path_parts(r.unwrap()@) == Some(
            path_parts(path@).unwrap().drop_last(),
        ),
        path_parts(path@) is Some && path_parts(path@).unwrap().len() > 0 && path_parts(
            path@,
        ).unwrap().last() == dot_git() ==> r is Some,
{
    let parent = gix_path::from_byte_slice(path).ok()?.parent()?;
    gix_path::into_bstr(parent).ok().map(|p| p.into_owned().into())
}

/// `gix_path::normalize`: resolves `..` without touching the file system, using
/// `current_dir` once the path itself is used up. `None` where it cannot be done.
#[verifier::external_body]
pub(crate) fn normalize(path: &[u8], current_dir: &[u8]) -> (r: Option<Vec<u8>>)
    ensures
        option_view(r) == path_normalized(path@, current_dir@),
{
    let path = gix_path::from_byte_slice(path).ok()?;
    let current_dir = gix_path::from_byte_slice(current_dir).ok()?;
    let normalized = gix_path::normalize(path.into(), current_dir)?;
    gix_path::into_bstr(normalized).ok().map(|p| p.into_owned().into())
}

/// `gix_utils::str::precompose_path`; bytes that spell no path come back as they are.
#[verifier::external_body]
pub(crate) fn precompose(path: &[u8]) -> (r: Vec<u8>)
    ensures
        r@ == path_precomposed(path@),
{
    match gix_path::from_byte_slice(path) {
        Ok(p) => gix_path::into_bstr(gix_utils::str::precompose_path(p.into()))
            .map(|b| b.into_owned().into())
            .unwrap_or_else(|_| path.to_vec()),
        Err(_) => path.to_vec(),
    }
}

/// Whether a configured path is taken as it stands: it is not empty and starts neither a
/// home directory (`~`), nor an install directory (`%`), nor a marker (`:`).
pub open spec fn is_plain(value: Seq<u8>) -> bool {
    value.len() > 0 && value[0] != 126 && value[0] != 37 && value[0] != 58
}

/// Whether what a configured path expands to depends on the machine: it names the home
/// directory of a user (`~name`), which is looked up in the user database, or it starts
/// with a marker (`:`), behind which such a name may stand.
pub open spec fn machine_dependent(value: Seq<u8>) -> bool {
    value.len() > 0 && (value[0] == 58 || (value[0] == 126 && value.len() > 1 && value[1]
        != 47))
}

/// What a configured path that does not depend on the machine expands to: `~` and `~/`
/// stand for the home directory, `%(prefix)/` for the install directory, and any other
/// path for itself. `None` where the directory that is asked for is missing, the value is
/// empty, or the bytes spell no path.
pub uninterp spec fn path_interpolated(
    value: Seq<u8>,
    install_dir: Option<Seq<u8>>,
    home: Option<Seq<u8>>,
) -> Option<Seq<u8>>;

/// Whether `outcome` can come of interpolating `value`: a value that does not depend on
/// the machine expands to what the directories handed in make of it, and a plain value
/// comes back unchanged unless its bytes spell no path. `None` stands for every failure.
pub open spec fn interpolation_allows(
    value: Seq<u8>,
    install_dir: Option<Seq<u8>>,
    home: Option<Seq<u8>>,
    outcome: Option<Seq<u8>>,
) -> bool {
    &&& !machine_dependent(value) ==> outcome == path_interpolated(value, install_dir, home)
    &&& is_plain(value) ==> outcome is None || outcome == Some(value)
}

/// `gix_config::Path::interpolate`, with the lookup of other users' home directories of
/// `gix_config`: expands `~`, `~/`, `~user/` and `%(prefix)/`. Only the home of another
/// user is looked up on the machine; everything else follows from the value and the two
/// directories. `None` stands for every failure of the outside call.
#[verifier::external_body]
pub(crate) fn interpolate(value: &[u8], install_dir: Option<&[u8]>, home: Option<&[u8]>) -> (r:
    Option<Vec<u8>>)
    ensures
        !machine_dependent(value@) ==> option_view(r) == path_interpolated(
            value@,
            borrowed_view(install_dir),
            borrowed_view(home),
        ),
        is_plain(value@) ==> r is None || option_view(r) == Some(value@),
{
    let context = gix_config::path::interpolate::Context {
        git_install_dir: install_dir.and_then(|d| gix_path::from_byte_slice(d).ok()),
        home_dir: home.and_then(|d| gix_path::from_byte_slice(d).ok()),
        home_for_user: Some(gix_config::path::interpolate::home_for_user),
    };
    let path = gix_config::Path::from(bstr::BStr::new(value)).interpolate(context).ok()?;
    gix_path::into_bstr(path).ok().map(|p| p.into_owned().into())
}

/// Whether `base` is made of the leading components of `path`.
pub open spec fn parts_start_with(path: Seq<Seq<u8>>, base: Seq<Seq<u8>>) -> bool {
    base.is_prefix_of(path)
}

/// Whether two paths have the same components.
pub fn same_parts(a: &Vec<Vec<u8>>, b: &Vec<Vec<u8>>) -> (r: bool)
    ensures
        r == (strings_view(*a) == strings_view(*b)),
{
    if a.len() != b.len() {
        return false;
    }
    let r = starts_with(a, b);
    proof {
        if r {
            assert(strings_view(*a) =~= strings_view(*b));
        }
    }
    r
}

/// Whether `path` lies at or below `base`, component by component.
pub fn starts_with(path: &Vec<Vec<u8>>, base: &Vec<Vec<u8>>) -> (r: bool)
    ensures
        r == parts_start_with(strings_view(*path), strings_view(*base)),
{
    if base.len() > path.len() {
        return false;
    }
    let mut i: usize = 0;
    while i < base.len()
        invariant
            i <= base@.len() <= path@.len(),
            forall|j: int| 0 <= j < i ==> path@[j]@ == base@[j]@,
        decreases base@.len() - i,
    {
        if !bytes_equal(path[i].as_slice(), base[i].as_slice()) {
            assert(strings_view(*path)[i as int] != strings_view(*base)[i as int]);
            return false;
        }
        i += 1;
    }
    assert(strings_view(*path).subrange(0, strings_view(*base).len() as int) =~= strings_view(
        *base,
    ));
    true
}

/// Whether `text` ends with the bytes of `suffix`.
pub open spec fn ends_with_bytes(text: Seq<u8>, suffix: Seq<u8>) -> bool {
    suffix.len() <= text.len() && text.skip(text.len() - suffix.len()) == suffix
}

/// Whether a byte string ends with another.
pub fn has_suffix(text: &[u8], suffix: &[u8]) -> (r: bool)
    ensures
        r == ends_with_bytes(text@, suffix@),
{
    if suffix.len() > text.len() {
        return false;
    }
    let start = text.len() - suffix.len();
    let tail = &text[start..text.len()];
    assert(tail@ == text@.skip(start as int));
    bytes_equal(tail, suffix)
}

} // verus!
