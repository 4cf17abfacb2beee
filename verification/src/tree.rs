//! The mode of a tree entry, as a number and in git's octal text form.
use vstd::prelude::*;
use vstd::std_specs::convert::FromSpecImpl;
use vstd::std_specs::convert::TryFromSpecImpl;
use crate::bytes::{
    as_bstr, bstr_bytes, first_index_of, lemma_first_index_of, lemma_first_index_of_bounds,
    position,
};

pub mod entry;

verus! {

/// The byte that ends a mode in a serialized tree.
pub const SPACE: u8 = 32;

/// Whether `b` is one of the ASCII digits `0` to `7`.
pub open spec fn is_octal_digit(b: u8) -> bool {
    48 <= b <= 55
}

/// Whether every byte of `s` is an octal digit.
pub open spec fn all_octal(s: Seq<u8>) -> bool {
    forall|j: int| 0 <= j < s.len() ==> is_octal_digit(#[trigger] s[j])
}

/// The number that a string of octal digits denotes, most significant digit first.
pub open spec fn octal_value(digits: Seq<u8>) -> nat
    decreases digits.len(),
{
    if digits.len() == 0 {
        0
    } else {
        (octal_value(digits.drop_last()) * 8 + (digits.last() - 48)) as nat
    }
}

/// The part of `input` that holds the mode: everything before the first space.
pub open spec fn mode_text(input: Seq<u8>) -> Seq<u8> {
    input.take(first_index_of(input, SPACE))
}

/// What `parse_git_mode` yields: the mode text must be at most seven octal digits, and
/// its number is kept modulo 2^16.
pub open spec fn git_mode_of(input: Seq<u8>) -> Option<u16> {
    let text = mode_text(input);
    if text.len() <= 7 && all_octal(text) {
        Some((octal_value(text) % 0x1_0000) as u16)
    } else {
        None
    }
}

proof fn lemma_shift_digit(mode: u16, digit: u8)
    by (bit_vector)
    requires
        digit <= 7,
    ensures
        (mode << 3) <= 0xfff8,
        (mode << 3) + digit == (mode * 8 + digit) % 0x1_0000,
{
}

proof fn lemma_octal_step(text: Seq<u8>, n: int, mode: u16)
    requires
        0 <= n < text.len(),
        is_octal_digit(text[n]),
        mode == octal_value(text.take(n)) % 0x1_0000,
    ensures
        (mode * 8 + (text[n] - 48)) % 0x1_0000 == octal_value(text.take(n + 1)) % 0x1_0000,
{
    let prev = text.take(n);
    let next = text.take(n + 1);
    assert(next.drop_last() == prev);
    assert(next.last() == text[n]);
    let v = octal_value(prev) as int;
    let d = (text[n] - 48) as int;
    assert(octal_value(next) == v * 8 + d);
    vstd::arithmetic::div_mod::lemma_mul_mod_noop_left(v, 8, 0x1_0000);
    vstd::arithmetic::div_mod::lemma_add_mod_noop(v * 8, d, 0x1_0000);
    vstd::arithmetic::div_mod::lemma_add_mod_noop((v % 0x1_0000) * 8, d, 0x1_0000);
}

/// Parses a git mode: up to seven octal digits, which either make up all of `i` or are
/// followed by a space and anything else.
pub fn parse_git_mode(i: &[u8]) -> (r: Option<u16>)
    ensures
        r == git_mode_of(i@),
{
    let mut mode: u16 = 0;
    let mut idx: usize = 0;
    proof {
        lemma_first_index_of_bounds(i@, SPACE);
    }
    while idx < i.len()
        invariant
            idx <= i@.len(),
            idx <= 7,
            forall|j: int| 0 <= j < idx ==> i@[j] != SPACE && is_octal_digit(#[trigger] i@[j]),
            mode == octal_value(i@.take(idx as int)) % 0x1_0000,
        decreases i@.len() - idx,
    {
        let b = i[idx];
        if b == SPACE {
            proof {
                lemma_first_index_of(i@, SPACE, idx as int);
            }
            return Some(mode);
        }
        if b < 48 || b > 55 {
            proof {
                lemma_first_index_of_bounds(i@, SPACE);
                let n = first_index_of(i@, SPACE);
                assert(n > idx) by {
                    if n <= idx {
                        assert(n < i@.len());
                    }
                }
                assert(mode_text(i@)[idx as int] == b);
            }
            return None;
        }
        if idx > 6 {
            proof {
                lemma_first_index_of_bounds(i@, SPACE);
                let n = first_index_of(i@, SPACE);
                assert(n > idx) by {
                    if n <= idx {
                        assert(n < i@.len());
                    }
                }
            }
            return None;
        }
        proof {
            lemma_shift_digit(mode, (b - 48) as u8);
            lemma_octal_step(i@, idx as int, mode);
        }
        mode = (mode << 3) + (b - 48) as u16;
        idx += 1;
    }
    proof {
        lemma_first_index_of(i@, SPACE, idx as int);
        assert(i@.take(idx as int) == i@);
    }
    Some(mode)
}

/// Where `value` first occurs in `s`, if it does.
pub open spec fn split_point(s: Seq<u8>, value: u8) -> Option<int> {
    if first_index_of(s, value) < s.len() {
        Some(first_index_of(s, value))
    } else {
        None
    }
}

/// Splits `slice` around the first occurrence of `value`, which belongs to neither part.
pub fn split_once(slice: &[u8], value: u8) -> (r: Option<(&[u8], &[u8])>)
    ensures
        match r {
            Some((head, tail)) => {
                &&& split_point(slice@, value) is Some
                &&& head@ == slice@.take(split_point(slice@, value).unwrap())
                &&& tail@ == slice@.skip(split_point(slice@, value).unwrap() + 1)
            },
            None => split_point(slice@, value) is None,
        },
{
    let n = position(slice, value);
    if n < slice.len() {
        let head = &slice[0..n];
        let tail = &slice[n + 1..slice.len()];
        assert(head@ == slice@.take(n as int));
        assert(tail@ == slice@.skip(n + 1));
        Some((head, tail))
    } else {
        None
    }
}

/// What `extract_git_mode` yields: the input must hold a space with something after it,
/// and what stands before the space must be a mode.
pub open spec fn extracted_mode(input: Seq<u8>) -> Option<(u16, (Seq<u8>, Seq<u8>))> {
    match split_point(input, SPACE) {
        Some(n) => if n + 1 < input.len() && git_mode_of(input.take(n)) is Some {
            Some((git_mode_of(input.take(n)).unwrap(), (input.take(n), input.skip(n + 1))))
        } else {
            None
        },
        None => None,
    }
}

/// From the start of a serialized tree entry, takes the mode, its text, and what follows
/// the space after it.
pub fn extract_git_mode(i: &[u8]) -> (r: Option<(u16, (&[u8], &[u8]))>)
    ensures
        match r {
            Some((mode, (text, rest))) => extracted_mode(i@) == Some((mode, (text@, rest@))),
            None => extracted_mode(i@) is None,
        },
{
    match split_once(i, SPACE) {
        Some((mode_slice, rest_slice)) => {
            proof {
                lemma_first_index_of_bounds(i@, SPACE);
                assert(rest_slice@.len() == i@.len() - (first_index_of(i@, SPACE) + 1));
            }
            if rest_slice.len() == 0 {
                return None;
            }
            match parse_git_mode(mode_slice) {
                Some(mode_num) => Some((mode_num, (mode_slice, rest_slice))),
                None => None,
            }
        },
        None => None,
    }
}

/// A discretized version of ideal and valid values for entry modes.
#[derive(Clone, Copy, PartialEq, Eq, Debug, PartialOrd, Ord, Hash, Structural)]
pub enum EntryKind {
    /// A tree, or directory
    Tree,
    /// A file that is not executable
    Blob,
    /// A file that is executable
    BlobExecutable,
    /// A symbolic link
    Link,
    /// A commit of a git submodule
    Commit,
}

/// The kind that a raw mode stands for. The four bits above the permissions decide:
/// `10` is a blob, executable if the owner may execute it, `12` a link, `04` a tree, and
/// anything else counts as a commit.
pub open spec fn kind_of(mode: u16) -> EntryKind {
    let file_type = mode / 0o10000;
    if file_type == 0o10 {
        if (mode / 0o100) % 2 == 1 {
            EntryKind::BlobExecutable
        } else {
            EntryKind::Blob
        }
    } else if file_type == 0o12 {
        EntryKind::Link
    } else if file_type == 0o04 {
        EntryKind::Tree
    } else {
        EntryKind::Commit
    }
}

proof fn lemma_mode_bits(mode: u16)
    by (bit_vector)
    ensures
        (mode & 0o170000 == 0o100000) <==> (mode / 0o10000 == 0o10),
        (mode & 0o170000 == 0o120000) <==> (mode / 0o10000 == 0o12),
        (mode & 0o170000 == 0o040000) <==> (mode / 0o10000 == 0o04),
        (mode & 0o000100 == 0o000100) <==> ((mode / 0o100) % 2 == 1),
{
}

/// Discretizes a raw mode.
pub fn parse_entry_kind_from_value(mode: u16) -> (r: EntryKind)
    ensures
        r == kind_of(mode),
{
    proof {
        lemma_mode_bits(mode);
    }
    let etype = mode & 0o170000;
    if etype == 0o100000 {
        if mode & 0o000100 == 0o000100 {
            EntryKind::BlobExecutable
        } else {
            EntryKind::Blob
        }
    } else if etype == 0o120000 {
        EntryKind::Link
    } else if etype == 0o040000 {
        EntryKind::Tree
    } else {
        EntryKind::Commit
    }
}

impl EntryKind {
    /// The mode that git writes for this kind.
    pub open spec fn mode_value(self) -> u16 {
        match self {
            EntryKind::Tree => 0o040000,
            EntryKind::Blob => 0o100644,
            EntryKind::BlobExecutable => 0o100755,
            EntryKind::Link => 0o120000,
            EntryKind::Commit => 0o160000,
        }
    }

    /// The octal digits that git writes for this kind.
    pub open spec fn octal_text(self) -> Seq<u8> {
        match self {
            EntryKind::Tree => seq![52u8, 48u8, 48u8, 48u8, 48u8],
            EntryKind::Blob => seq![49u8, 48u8, 48u8, 54u8, 52u8, 52u8],
            EntryKind::BlobExecutable => seq![49u8, 48u8, 48u8, 55u8, 53u8, 53u8],
            EntryKind::Link => seq![49u8, 50u8, 48u8, 48u8, 48u8, 48u8],
            EntryKind::Commit => seq![49u8, 54u8, 48u8, 48u8, 48u8, 48u8],
        }
    }

    /// The mode that git writes for this kind.
    pub fn value(&self) -> (r: u16)
        ensures
            r == self.mode_value(),
    {
        match self {
            EntryKind::Tree => 0o040000,
            EntryKind::Blob => 0o100644,
            EntryKind::BlobExecutable => 0o100755,
            EntryKind::Link => 0o120000,
            EntryKind::Commit => 0o160000,
        }
    }

    /// Return the representation as used in the git internal format.
    pub fn as_octal_str(&self) -> (r: &'static bstr::BStr)
        ensures
            bstr_bytes(r) == self.octal_text(),
    {
        as_bstr(self.as_octal_bytes())
    }

    /// Return the representation as used in the git internal format.
    pub fn as_octal_bytes(&self) -> (r: &'static [u8])
        ensures
            r@ == self.octal_text(),
    {
        match self {
            EntryKind::Tree => {
                let text: &'static [u8; 5] = &[52u8, 48u8, 48u8, 48u8, 48u8];
                assert(text@ =~= self.octal_text());
                text.as_slice()
            },
            EntryKind::Blob => {
                let text: &'static [u8; 6] = &[49u8, 48u8, 48u8, 54u8, 52u8, 52u8];
                assert(text@ =~= self.octal_text());
                text.as_slice()
            },
            EntryKind::BlobExecutable => {
                let text: &'static [u8; 6] = &[49u8, 48u8, 48u8, 55u8, 53u8, 53u8];
                assert(text@ =~= self.octal_text());
                text.as_slice()
            },
            EntryKind::Link => {
                let text: &'static [u8; 6] = &[49u8, 50u8, 48u8, 48u8, 48u8, 48u8];
                assert(text@ =~= self.octal_text());
                text.as_slice()
            },
            EntryKind::Commit => {
                let text: &'static [u8; 6] = &[49u8, 54u8, 48u8, 48u8, 48u8, 48u8];
                assert(text@ =~= self.octal_text());
                text.as_slice()
            },
        }
    }

    /// Return the representation as a human readable description
    pub fn as_descriptive_str(&self) -> (r: &'static str)
        ensures
            r@ == match *self {
                EntryKind::Tree => "tree"@,
                EntryKind::Blob => "blob"@,
                EntryKind::BlobExecutable => "exe"@,
                EntryKind::Link => "link"@,
                EntryKind::Commit => "commit"@,
            },
    {
        match self {
            EntryKind::Tree => "tree",
            EntryKind::Blob => "blob",
            EntryKind::BlobExecutable => "exe",
            EntryKind::Link => "link",
            EntryKind::Commit => "commit",
        }
    }
}

/// The mode of items storable in a tree, similar to the file mode on a unix file system.
///
/// It keeps the number together with the octal digits it was written with, so that a mode
/// read as `040000` is written back as such.
#[derive(Clone, Copy, PartialEq, Eq, PartialOrd, Ord, Hash, Debug)]
pub struct EntryMode {
    pub(crate) value: u16,
    pub(crate) git_representation: [u8; 6],
}

/// `text`, followed by as many spaces as it takes to fill six bytes.
pub open spec fn padded(text: Seq<u8>) -> Seq<u8> {
    Seq::new(6, |i: int| if i < text.len() { text[i] } else { SPACE })
}

impl EntryMode {
    /// The number of this mode.
    pub closed spec fn raw(self) -> u16 {
        self.value
    }

    /// The six bytes kept for the octal digits: the digits, then spaces.
    pub closed spec fn representation(self) -> Seq<u8> {
        self.git_representation@
    }

    /// The octal digits of this mode, as git writes them.
    pub open spec fn text(self) -> Seq<u8> {
        mode_text(self.representation())
    }

    /// The kind that this mode stands for.
    pub open spec fn spec_kind(self) -> EntryKind {
        kind_of(self.raw())
    }

    /// The digits are octal and denote the number, and only spaces follow them.
    pub open spec fn wf(self) -> bool {
        &&& self.text().len() <= 6
        &&& all_octal(self.text())
        &&& self.representation() == padded(self.text())
        &&& self.raw() == octal_value(self.text()) % 0x1_0000
    }

    /// The mode with the number `value` that is written as `text`.
    pub closed spec fn of(value: u16, text: Seq<u8>) -> EntryMode {
        EntryMode { value, git_representation: choose|a: [u8; 6]| a@ == padded(text) }
    }

    /// What `of` builds has the number and the digits it was given.
    pub proof fn lemma_of(value: u16, text: Seq<u8>)
        requires
            text.len() <= 6,
            !text.contains(SPACE),
        ensures
            Self::of(value, text).raw() == value,
            Self::of(value, text).representation() == padded(text),
            Self::of(value, text).text() == text,
    {
        let p = padded(text);
        let a0 = vstd::array::spec_array_fill_for_copy_type::<u8, 6>(SPACE);
        let a1 = vstd::array::spec_array_update(a0, 0, p[0]);
        let a2 = vstd::array::spec_array_update(a1, 1, p[1]);
        let a3 = vstd::array::spec_array_update(a2, 2, p[2]);
        let a4 = vstd::array::spec_array_update(a3, 3, p[3]);
        let a5 = vstd::array::spec_array_update(a4, 4, p[4]);
        let a6 = vstd::array::spec_array_update(a5, 5, p[5]);
        assert(a6@ =~= p);
        let chosen = choose|a: [u8; 6]| a@ == p;
        assert(chosen@ == p);
        lemma_padded_text(text);
    }

    fn build(value: u16, text: &[u8]) -> (r: EntryMode)
        requires
            text@.len() <= 6,
        ensures
            r == Self::of(value, text@),
            r.raw() == value,
            r.representation() == padded(text@),
    {
        let mut representation: [u8; 6] = [SPACE; 6];
        let mut i: usize = 0;
        while i < text.len()
            invariant
                i <= text@.len() <= 6,
                forall|j: int| 0 <= j < i ==> representation@[j] == text@[j],
                forall|j: int| i <= j < 6 ==> representation@[j] == SPACE,
            decreases text@.len() - i,
        {
            representation[i] = text[i];
            i += 1;
        }
        proof {
            assert(representation@ =~= padded(text@));
            let chosen = choose|a: [u8; 6]| a@ == padded(text@);
            assert(chosen@ == representation@);
            assert(chosen =~= representation);
        }
        EntryMode { value, git_representation: representation }
    }

    /// Discretize the raw mode into an enum with well-known state while dropping
    /// unnecessary details.
    pub fn kind(&self) -> (r: EntryKind)
        ensures
            r == self.spec_kind(),
    {
        parse_entry_kind_from_value(self.value)
    }

    /// Return true if this entry mode represents the commit of a submodule.
    pub fn is_commit(&self) -> (r: bool)
        ensures
            r == (self.spec_kind() == EntryKind::Commit),
    {
        matches!(self.kind(), EntryKind::Commit)
    }

    /// Return true if this entry mode represents a symbolic link
    pub fn is_link(&self) -> (r: bool)
        ensures
            r == (self.spec_kind() == EntryKind::Link),
    {
        matches!(self.kind(), EntryKind::Link)
    }

    /// Return true if this entry mode represents a tree, that is a directory
    pub fn is_tree(&self) -> (r: bool)
        ensures
            r == (self.spec_kind() == EntryKind::Tree),
    {
        matches!(self.kind(), EntryKind::Tree)
    }

    /// Return true if this entry mode represents anything BUT Tree/directory
    pub fn is_no_tree(&self) -> (r: bool)
        ensures
            r == (self.spec_kind() != EntryKind::Tree),
    {
        !matches!(self.kind(), EntryKind::Tree)
    }

    /// Return true if the entry is any kind of blob.
    pub fn is_blob(&self) -> (r: bool)
        ensures
            r == (self.spec_kind() == EntryKind::Blob || self.spec_kind()
                == EntryKind::BlobExecutable),
    {
        matches!(self.kind(), EntryKind::Blob | EntryKind::BlobExecutable)
    }

    /// Return true if the entry is an executable blob.
    pub fn is_executable(&self) -> (r: bool)
        ensures
            r == (self.spec_kind() == EntryKind::BlobExecutable),
    {
        matches!(self.kind(), EntryKind::BlobExecutable)
    }

    /// Return true if the entry is any kind of blob or symlink.
    pub fn is_blob_or_symlink(&self) -> (r: bool)
        ensures
            r == (self.spec_kind() == EntryKind::Blob || self.spec_kind()
                == EntryKind::BlobExecutable || self.spec_kind() == EntryKind::Link),
    {
        matches!(self.kind(), EntryKind::Blob | EntryKind::BlobExecutable | EntryKind::Link)
    }

    /// How many bytes of the backing representation are significant?
    pub fn len(&self) -> (r: usize)
        ensures
            r == self.text().len(),
            r == first_index_of(self.representation(), SPACE),
            self.representation().len() == 6,
            r <= 6,
    {
        let n = position(self.git_representation.as_slice(), SPACE);
        assert(self.text() == self.representation().take(n as int));
        n
    }

    /// Return the representation as used in the git internal format: the octal digits,
    /// without the spaces that pad them.
    pub fn as_bytes(&self) -> (r: &[u8])
        ensures
            r@ == self.text(),
    {
        let all = self.git_representation.as_slice();
        let n = position(all, SPACE);
        let text = &all[0..n];
        assert(text@ == all@.take(n as int));
        text
    }

    /// Return the representation as used in the git internal format: the octal digits,
    /// without the spaces that pad them.
    pub fn as_bstr(&self) -> (r: &bstr::BStr)
        ensures
            bstr_bytes(r) == self.text(),
    {
        as_bstr(self.as_bytes())
    }
}

/// Padding a text without spaces leaves it as the part before the first space.
pub proof fn lemma_padded_text(text: Seq<u8>)
    requires
        text.len() <= 6,
        !text.contains(SPACE),
    ensures
        mode_text(padded(text)) == text,
{
    let p = padded(text);
    assert forall|j: int| 0 <= j < text.len() implies p[j] != SPACE by {
        assert(text.contains(text[j]));
    }
    lemma_first_index_of(p, SPACE, text.len() as int);
    assert(p.take(text.len() as int) =~= text);
}

/// Appending a digit to octal digits multiplies their number by eight and adds the digit.
pub proof fn lemma_octal_push(digits: Seq<u8>, digit: u8)
    requires
        is_octal_digit(digit),
    ensures
        octal_value(digits.push(digit)) == octal_value(digits) * 8 + (digit - 48),
{
    assert(digits.push(digit).drop_last() == digits);
}

/// The digits that git writes for a kind are octal and denote the mode of the kind.
pub proof fn lemma_kind_text(kind: EntryKind)
    ensures
        all_octal(kind.octal_text()),
        kind.octal_text().len() <= 6,
        octal_value(kind.octal_text()) == kind.mode_value(),
{
    let text = kind.octal_text();
    let d0 = Seq::<u8>::empty().push(text[0]);
    let d1 = d0.push(text[1]);
    let d2 = d1.push(text[2]);
    let d3 = d2.push(text[3]);
    let d4 = d3.push(text[4]);
    assert(octal_value(Seq::<u8>::empty()) == 0);
    lemma_octal_push(Seq::<u8>::empty(), text[0]);
    lemma_octal_push(d0, text[1]);
    lemma_octal_push(d1, text[2]);
    lemma_octal_push(d2, text[3]);
    lemma_octal_push(d3, text[4]);
    if text.len() == 5 {
        assert(text =~= d4);
    } else {
        lemma_octal_push(d4, text[5]);
        assert(text =~= d4.push(text[5]));
    }
}

/// A mode that is built from octal digits and the number they denote is well-formed;
/// so is the mode of every kind.
pub proof fn lemma_of_is_wf(value: u16, text: Seq<u8>, kind: EntryKind)
    requires
        text.len() <= 6,
        all_octal(text),
        value == octal_value(text) % 0x1_0000,
    ensures
        EntryMode::of(value, text).wf(),
        EntryMode::of(kind.mode_value(), kind.octal_text()).wf(),
        EntryMode::of(kind.mode_value(), kind.octal_text()).text() == kind.octal_text(),
        EntryMode::of(kind.mode_value(), kind.octal_text()).spec_kind() == kind,
{
    lemma_octal_has_no_space(text);
    EntryMode::lemma_of(value, text);
    lemma_kind_text(kind);
    lemma_octal_has_no_space(kind.octal_text());
    EntryMode::lemma_of(kind.mode_value(), kind.octal_text());
}

/// Octal digits hold no space.
pub proof fn lemma_octal_has_no_space(text: Seq<u8>)
    requires
        all_octal(text),
    ensures
        !text.contains(SPACE),
{
    if text.contains(SPACE) {
        let j = choose|j: int| 0 <= j < text.len() && text[j] == SPACE;
        assert(is_octal_digit(text[j]));
    }
}

impl From<u16> for EntryKind {
    fn from(mode: u16) -> (r: Self) {
        parse_entry_kind_from_value(mode)
    }
}

impl FromSpecImpl<u16> for EntryKind {
    open spec fn obeys_from_spec() -> bool {
        true
    }

    open spec fn from_spec(mode: u16) -> Self {
        kind_of(mode)
    }
}

impl From<EntryKind> for EntryMode {
    fn from(value: EntryKind) -> (r: Self) {
        EntryMode::build(value.value(), value.as_octal_bytes())
    }
}

impl FromSpecImpl<EntryKind> for EntryMode {
    open spec fn obeys_from_spec() -> bool {
        true
    }

    open spec fn from_spec(kind: EntryKind) -> Self {
        EntryMode::of(kind.mode_value(), kind.octal_text())
    }
}

impl From<u16> for EntryMode {
    fn from(value: u16) -> (r: Self) {
        let kind = parse_entry_kind_from_value(value);
        EntryMode::build(kind.value(), kind.as_octal_bytes())
    }
}

impl FromSpecImpl<u16> for EntryMode {
    open spec fn obeys_from_spec() -> bool {
        true
    }

    open spec fn from_spec(value: u16) -> Self {
        EntryMode::of(kind_of(value).mode_value(), kind_of(value).octal_text())
    }
}

impl From<EntryMode> for u16 {
    fn from(value: EntryMode) -> (r: Self) {
        value.value
    }
}

impl FromSpecImpl<EntryMode> for u16 {
    open spec fn obeys_from_spec() -> bool {
        true
    }

    open spec fn from_spec(value: EntryMode) -> Self {
        value.raw()
    }
}

impl From<EntryMode> for EntryKind {
    fn from(value: EntryMode) -> (r: Self) {
        value.kind()
    }
}

impl FromSpecImpl<EntryMode> for EntryKind {
    open spec fn obeys_from_spec() -> bool {
        true
    }

    open spec fn from_spec(value: EntryMode) -> Self {
        value.spec_kind()
    }
}

/// Whether a 32 bit mode names a tree, a link or a commit exactly, or carries the bit of
/// a regular file.
pub open spec fn is_entry_mode(mode: u32) -> bool {
    mode == 0o40000 || mode == 0o120000 || mode == 0o160000 || (mode / 0o100000) % 2 == 1
}

proof fn lemma_file_bit(mode: u32)
    by (bit_vector)
    ensures
        (mode & 0o100000 == 0o100000) <==> ((mode / 0o100000) % 2 == 1),
        (mode as u16) == mode % 0x1_0000,
{
}

impl TryFrom<u32> for EntryMode {
    type Error = u32;

    fn try_from(mode: u32) -> (r: Result<Self, u32>) {
        proof {
            lemma_file_bit(mode);
        }
        if mode == 0o40000 || mode == 0o120000 || mode == 0o160000 || mode & 0o100000 == 0o100000 {
            let low = #[verifier::truncate] (mode as u16);
            let kind = parse_entry_kind_from_value(low);
            Ok(EntryMode::build(kind.value(), kind.as_octal_bytes()))
        } else {
            Err(mode)
        }
    }
}

impl TryFromSpecImpl<u32> for EntryMode {
    open spec fn obeys_try_from_spec() -> bool {
        true
    }

    open spec fn try_from_spec(mode: u32) -> Result<Self, u32> {
        if is_entry_mode(mode) {
            let kind = kind_of((mode % 0x1_0000) as u16);
            Ok(EntryMode::of(kind.mode_value(), kind.octal_text()))
        } else {
            Err(mode)
        }
    }
}

impl<'a> TryFrom<&'a [u8]> for EntryMode {
    type Error = ();

    fn try_from(mode: &'a [u8]) -> (r: Result<Self, ()>) {
        match parse_git_mode(mode) {
            Some(value) => {
                let n = position(mode, SPACE);
                if n > 6 {
                    return Err(());
                }
                let text = &mode[0..n];
                assert(text@ == mode_text(mode@));
                Ok(EntryMode::build(value, text))
            },
            None => Err(()),
        }
    }
}

impl<'a> TryFromSpecImpl<&'a [u8]> for EntryMode {
    open spec fn obeys_try_from_spec() -> bool {
        true
    }

    open spec fn try_from_spec(mode: &'a [u8]) -> Result<Self, ()> {
        if git_mode_of(mode@) is Some && mode_text(mode@).len() <= 6 {
            Ok(EntryMode::of(git_mode_of(mode@).unwrap(), mode_text(mode@)))
        } else {
            Err(())
        }
    }
}

} // verus!
