//! Byte strings: searching and comparing them, and the `bstr` types that carry them.
use vstd::prelude::*;

verus! {

/// `bstr::BStr`: a borrowed byte string. Only its bytes are spoken of.
#[verifier::external_type_specification]
#[verifier::external_body]
pub struct ExBStr(bstr::BStr);

/// `bstr::BString`: an owned byte string. Only its bytes are spoken of.
#[verifier::external_type_specification]
#[verifier::external_body]
pub struct ExBString(bstr::BString);

/// The bytes that a `BStr` holds.
pub uninterp spec fn bstr_bytes(s: &bstr::BStr) -> Seq<u8>;

/// The bytes that a `BString` holds.
pub uninterp spec fn bstring_bytes(s: bstr::BString) -> Seq<u8>;

/// Cloning a `BString` keeps its bytes.
pub assume_specification[ <bstr::BString as Clone>::clone ](s: &bstr::BString) -> (r: bstr::BString)
    ensures
        bstring_bytes(r) == bstring_bytes(*s),
;

/// `BStr::new`: views a byte slice as a `BStr` over the very same bytes.
#[verifier::external_body]
pub(crate) fn as_bstr<'a>(bytes: &'a [u8]) -> (r: &'a bstr::BStr)
    ensures
        bstr_bytes(r) == bytes@,
{
    bstr::BStr::new(bytes)
}

/// `<BStr as AsRef<[u8]>>::as_ref`: the bytes behind a `BStr`, unchanged.
#[verifier::external_body]
pub(crate) fn bstr_as_bytes<'a>(s: &'a bstr::BStr) -> (r: &'a [u8])
    ensures
        r@ == bstr_bytes(s),
{
    s.as_ref()
}

/// `BString::as_slice`: the bytes behind a `BString`, unchanged.
#[verifier::external_body]
pub(crate) fn bstring_as_bytes<'a>(s: &'a bstr::BString) -> (r: &'a [u8])
    ensures
        r@ == bstring_bytes(*s),
{
    s.as_slice()
}

/// `<BStr as ToOwned>::to_owned`: an owned copy holding the same bytes.
#[verifier::external_body]
pub(crate) fn bstr_to_owned(s: &bstr::BStr) -> (r: bstr::BString)
    ensures
        bstring_bytes(r) == bstr_bytes(s),
{
    s.to_owned()
}

/// The bytes of each of several byte strings.
pub open spec fn strings_view(strings: Vec<Vec<u8>>) -> Seq<Seq<u8>> {
    strings@.map_values(|s: Vec<u8>| s@)
}

/// The bytes of a byte string that may be missing.
pub open spec fn option_view(bytes: Option<Vec<u8>>) -> Option<Seq<u8>> {
    match bytes {
        Some(b) => Some(b@),
        None => None,
    }
}

/// The bytes of a borrowed byte string that may be missing.
pub open spec fn borrowed_view(bytes: Option<&[u8]>) -> Option<Seq<u8>> {
    match bytes {
        Some(b) => Some(b@),
        None => None,
    }
}

/// The byte `/`.
pub const SLASH: u8 = 47;

/// The byte `*`.
pub const STAR: u8 = 42;

/// The byte `.`.
pub const DOT: u8 = 46;

/// The index of the first occurrence of `value` in `s`, or the length of `s` if there is none.
pub open spec fn first_index_of(s: Seq<u8>, value: u8) -> int
    decreases s.len(),
{
    if s.len() == 0 || s[0] == value {
        0
    } else {
        1 + first_index_of(s.skip(1), value)
    }
}

/// `n` is the first index at which `value` occurs, or the length if it does not occur.
pub proof fn lemma_first_index_of(s: Seq<u8>, value: u8, n: int)
    requires
        0 <= n <= s.len(),
        forall|j: int| 0 <= j < n ==> s[j] != value,
        n == s.len() || s[n] == value,
    ensures
        first_index_of(s, value) == n,
    decreases n,
{
    if n > 0 {
        lemma_first_index_of(s.skip(1), value, n - 1);
    }
}

/// The first index lies within the sequence, no earlier byte is `value`, and the byte at
/// it, if any, is `value`.
pub proof fn lemma_first_index_of_bounds(s: Seq<u8>, value: u8)
    ensures
        0 <= first_index_of(s, value) <= s.len(),
        forall|j: int| 0 <= j < first_index_of(s, value) ==> s[j] != value,
        first_index_of(s, value) < s.len() ==> s[first_index_of(s, value)] == value,
    decreases s.len(),
{
    if s.len() == 0 || s[0] == value {
    } else {
        let t = s.skip(1);
        lemma_first_index_of_bounds(t, value);
        assert forall|j: int| 0 <= j < first_index_of(s, value) implies s[j] != value by {
            if j > 0 {
                assert(t[j - 1] == s[j]);
            }
        }
        assert(t[first_index_of(t, value)] == s[first_index_of(t, value) + 1] || first_index_of(
            t,
            value,
        ) == t.len());
    }
}

/// Finds the first occurrence of `value`.
pub fn position(s: &[u8], value: u8) -> (n: usize)
    ensures
        n == first_index_of(s@, value),
        n <= s@.len(),
{
    let mut i: usize = 0;
    while i < s.len()
        invariant
            i <= s@.len(),
            forall|j: int| 0 <= j < i ==> s@[j] != value,
        decreases s@.len() - i,
    {
        if s[i] == value {
            proof {
                lemma_first_index_of(s@, value, i as int);
            }
            return i;
        }
        i += 1;
    }
    proof {
        lemma_first_index_of(s@, value, i as int);
    }
    i
}

/// Whether two byte strings hold the same bytes.
pub fn bytes_equal(a: &[u8], b: &[u8]) -> (r: bool)
    ensures
        r == (a@ == b@),
{
    if a.len() != b.len() {
        return false;
    }
    let mut i: usize = 0;
    while i < a.len()
        invariant
            i <= a@.len(),
            a@.len() == b@.len(),
            forall|j: int| 0 <= j < i ==> a@[j] == b@[j],
        decreases a@.len() - i,
    {
        if a[i] != b[i] {
            return false;
        }
        i += 1;
    }
    assert(a@ =~= b@);
    true
}

/// Copies a byte string that may be missing.
pub fn copy_option(bytes: &Option<Vec<u8>>) -> (r: Option<Vec<u8>>)
    ensures
        option_view(r) == option_view(*bytes),
{
    match bytes {
        Some(b) => Some(vstd::slice::slice_to_vec(b.as_slice())),
        None => None,
    }
}

/// Copies several byte strings.
pub fn copy_strings(strings: &Vec<Vec<u8>>) -> (r: Vec<Vec<u8>>)
    ensures
        strings_view(r) == strings_view(*strings),
{
    let mut out: Vec<Vec<u8>> = Vec::new();
    let mut i: usize = 0;
    while i < strings.len()
        invariant
            i <= strings@.len(),
            out@.len() == i,
            forall|j: int| 0 <= j < i ==> out@[j]@ == strings@[j]@,
        decreases strings@.len() - i,
    {
        out.push(vstd::slice::slice_to_vec(strings[i].as_slice()));
        i += 1;
    }
    assert(strings_view(out) =~= strings_view(*strings));
    out
}

/// Borrows a byte string that may be missing.
pub fn borrow_option(bytes: &Option<Vec<u8>>) -> (r: Option<&[u8]>)
    ensures
        borrowed_view(r) == option_view(*bytes),
{
    match bytes {
        Some(b) => Some(b.as_slice()),
        None => None,
    }
}

/// The smaller of two lengths.
pub open spec fn min_len(a: Seq<u8>, b: Seq<u8>) -> int {
    if a.len() <= b.len() {
        a.len() as int
    } else {
        b.len() as int
    }
}

/// The number of leading positions at which `a` and `b` hold the same byte.
pub open spec fn common_prefix_len(a: Seq<u8>, b: Seq<u8>) -> int
    decreases a.len(),
{
    if a.len() == 0 || b.len() == 0 || a[0] != b[0] {
        0
    } else {
        1 + common_prefix_len(a.skip(1), b.skip(1))
    }
}

/// `n` is the length of the common prefix once both agree below `n` and part at `n`.
pub proof fn lemma_common_prefix_len(a: Seq<u8>, b: Seq<u8>, n: int)
    requires
        0 <= n <= a.len(),
        n <= b.len(),
        forall|j: int| 0 <= j < n ==> a[j] == b[j],
        n == a.len() || n == b.len() || a[n] != b[n],
    ensures
        common_prefix_len(a, b) == n,
    decreases n,
{
    if n > 0 {
        lemma_common_prefix_len(a.skip(1), b.skip(1), n - 1);
    }
}

/// The common prefix of two byte strings is as long whichever of them comes first, ends
/// within both, and is all of a byte string that is held against itself.
pub proof fn lemma_common_prefix_symmetric(a: Seq<u8>, b: Seq<u8>)
    ensures
        common_prefix_len(a, b) == common_prefix_len(b, a),
        0 <= common_prefix_len(a, b) <= a.len(),
        common_prefix_len(a, b) <= b.len(),
        common_prefix_len(a, a) == a.len(),
    decreases a.len(),
{
    if a.len() == 0 || b.len() == 0 || a[0] != b[0] {
    } else {
        lemma_common_prefix_symmetric(a.skip(1), b.skip(1));
    }
    if a.len() > 0 {
        lemma_common_prefix_symmetric(a.skip(1), a.skip(1));
    }
}

/// Counts the leading bytes that two byte strings share.
pub fn shared_prefix(a: &[u8], b: &[u8]) -> (n: usize)
    ensures
        n == common_prefix_len(a@, b@),
        n <= a@.len(),
        n <= b@.len(),
        forall|j: int| 0 <= j < n ==> a@[j] == b@[j],
        n < a@.len() && n < b@.len() ==> a@[n as int] != b@[n as int],
{
    let mut i: usize = 0;
    while i < a.len() && i < b.len()
        invariant
            i <= a@.len(),
            i <= b@.len(),
            forall|j: int| 0 <= j < i ==> a@[j] == b@[j],
        decreases a@.len() - i,
    {
        if a[i] != b[i] {
            proof {
                lemma_common_prefix_len(a@, b@, i as int);
            }
            return i;
        }
        i += 1;
    }
    proof {
        lemma_common_prefix_len(a@, b@, i as int);
    }
    i
}

} // verus!
