//! Tags as git stores them: the header fields, a blank line, the message, and the
//! signature if there is one.
use vstd::prelude::*;
use crate::bytes::{borrow_option, borrowed_view, option_view};

verus! {

/// The byte that ends a line.
pub const NL: u8 = 10;

/// The byte that parts the name of a header field from its value.
pub const SPACE: u8 = 32;

/// The byte `-`.
pub const DASH: u8 = 45;

/// Whether a byte may not stand in the name of a tag: a control character, a space, or
/// one of `\ ^ : [ ? ~ *`.
pub open spec fn forbidden_in_name(b: u8) -> bool {
    b <= 32 || b == 127 || b == 92 || b == 94 || b == 58 || b == 91 || b == 63 || b == 126 || b
        == 42
}

/// Whether the bytes end in `.lock`.
pub open spec fn ends_in_lock(name: Seq<u8>) -> bool {
    name.len() >= 5 && name.skip(name.len() - 5) == seq![46u8, 108u8, 111u8, 99u8, 107u8]
}

/// Whether the bytes are a tag name that git accepts: not empty, no `/` at the end, no
/// forbidden byte, neither `..` nor `@{` within, no `.` at the start and no `.lock` at
/// the end.
pub open spec fn valid_tag_name(name: Seq<u8>) -> bool {
    &&& name.len() > 0
    &&& name.last() != 47
    &&& forall|i: int| 0 <= i < name.len() ==> !forbidden_in_name(#[trigger] name[i])
    &&& forall|i: int|
        0 < i < name.len() ==> !(#[trigger] name[i] == 46 && name[i - 1] == 46) && !(name[i]
            == 123 && name[i - 1] == 64)
    &&& name[0] != 46
    &&& !ends_in_lock(name)
}

/// `git_validate::tag::name`: accepts a name, or refuses it, by the rules that git has
/// for the names of tags.
#[verifier::external_body]
pub(crate) fn is_tag_name(name: &[u8]) -> (r: bool)
    ensures
        r == valid_tag_name(name@),
{
    git_validate::tag::name(bstr::BStr::new(name)).is_ok()
}

/// The kinds of objects.
#[derive(Clone, Copy, PartialEq, Eq, Debug, Hash, Structural)]
pub enum ObjectKind {
    Tree,
    Blob,
    Commit,
    Tag,
}

impl ObjectKind {
    /// The name of the kind as git writes it.
    pub open spec fn text(self) -> Seq<u8> {
        match self {
            ObjectKind::Tree => seq![116u8, 114u8, 101u8, 101u8],
            ObjectKind::Blob => seq![98u8, 108u8, 111u8, 98u8],
            ObjectKind::Commit => seq![99u8, 111u8, 109u8, 109u8, 105u8, 116u8],
            ObjectKind::Tag => seq![116u8, 97u8, 103u8],
        }
    }

    /// The name of the kind as git writes it.
    pub fn as_bytes(&self) -> (r: &'static [u8])
        ensures
            r@ == self.text(),
    {
        match self {
            ObjectKind::Tree => {
                let text: &'static [u8; 4] = &[116u8, 114u8, 101u8, 101u8];
                assert(text@ =~= self.text());
                text.as_slice()
            },
            ObjectKind::Blob => {
                let text: &'static [u8; 4] = &[98u8, 108u8, 111u8, 98u8];
                assert(text@ =~= self.text());
                text.as_slice()
            },
            ObjectKind::Commit => {
                let text: &'static [u8; 6] = &[99u8, 111u8, 109u8, 109u8, 105u8, 116u8];
                assert(text@ =~= self.text());
                text.as_slice()
            },
            ObjectKind::Tag => {
                let text: &'static [u8; 3] = &[116u8, 97u8, 103u8];
                assert(text@ =~= self.text());
                text.as_slice()
            },
        }
    }
}

/// Why a tag cannot be written.
#[derive(Clone, Copy, PartialEq, Eq, Debug, Structural)]
pub enum Error {
    /// Tags must not start with a dash: '-'
    StartsWithDash,
    /// The tag name was no valid reference name
    InvalidRefName,
}

/// A tag that borrows its parts.
#[derive(Clone, Copy, PartialEq, Eq, Debug)]
pub struct TagRef<'a> {
    /// The hexadecimal id of the object that the tag points to.
    pub target: &'a [u8],
    /// The kind of that object.
    pub target_kind: ObjectKind,
    /// The name of the tag.
    pub name: &'a [u8],
    /// Who made the tag and when, as the line that git stores.
    pub tagger: Option<&'a [u8]>,
    /// The message of the tag.
    pub message: &'a [u8],
    /// A cryptographic signature over the rest.
    pub pgp_signature: Option<&'a [u8]>,
}

/// A tag that owns its parts.
#[derive(Clone, PartialEq, Eq, Debug)]
pub struct Tag {
    pub target: Vec<u8>,
    pub target_kind: ObjectKind,
    pub name: Vec<u8>,
    pub tagger: Option<Vec<u8>>,
    pub message: Vec<u8>,
    pub pgp_signature: Option<Vec<u8>>,
}

/// What a tag holds, with every part as bytes.
pub struct TagView {
    pub target: Seq<u8>,
    pub target_kind: ObjectKind,
    pub name: Seq<u8>,
    pub tagger: Option<Seq<u8>>,
    pub message: Seq<u8>,
    pub pgp_signature: Option<Seq<u8>>,
}

impl<'a> View for TagRef<'a> {
    type V = TagView;

    open spec fn view(&self) -> TagView {
        TagView {
            target: self.target@,
            target_kind: self.target_kind,
            name: self.name@,
            tagger: borrowed_view(self.tagger),
            message: self.message@,
            pgp_signature: borrowed_view(self.pgp_signature),
        }
    }
}

impl View for Tag {
    type V = TagView;

    open spec fn view(&self) -> TagView {
        TagView {
            target: self.target@,
            target_kind: self.target_kind,
            name: self.name@,
            tagger: option_view(self.tagger),
            message: self.message@,
            pgp_signature: option_view(self.pgp_signature),
        }
    }
}

/// A header field: its name, a space, its value, and the end of the line.
pub open spec fn header(name: Seq<u8>, value: Seq<u8>) -> Seq<u8> {
    name + seq![SPACE] + value + seq![NL]
}

/// The name of the field that holds the target: `object`.
pub open spec fn object_field() -> Seq<u8> {
    seq![111u8, 98u8, 106u8, 101u8, 99u8, 116u8]
}

/// The name of the field that holds the kind of the target: `type`.
pub open spec fn type_field() -> Seq<u8> {
    seq![116u8, 121u8, 112u8, 101u8]
}

/// The name of the field that holds the name of the tag: `tag`.
pub open spec fn tag_field() -> Seq<u8> {
    seq![116u8, 97u8, 103u8]
}

/// The name of the field that holds the tagger: `tagger`.
pub open spec fn tagger_field() -> Seq<u8> {
    seq![116u8, 97u8, 103u8, 103u8, 101u8, 114u8]
}

/// A tag as git stores it.
pub open spec fn tag_bytes(tag: TagView) -> Seq<u8> {
    header(object_field(), tag.target) + header(type_field(), tag.target_kind.text()) + header(
        tag_field(),
        tag.name,
    ) + (match tag.tagger {
        Some(tagger) => header(tagger_field(), tagger),
        None => Seq::empty(),
    }) + seq![NL] + tag.message + (match tag.pgp_signature {
        Some(signature) => seq![NL] + signature,
        None => Seq::empty(),
    })
}

/// The number of bytes that a tag takes as git stores it.
pub open spec fn tag_size(tag: TagView) -> nat {
    6 + 1 + tag.target.len() + 1 + 4 + 1 + tag.target_kind.text().len() + 1 + 3 + 1
        + tag.name.len() + 1 + (match tag.tagger {
        Some(tagger) => 6 + 1 + tagger.len() + 1,
        None => 0nat,
    }) + 1 + tag.message.len() + (match tag.pgp_signature {
        Some(signature) => 1 + signature.len(),
        None => 0nat,
    })
}

/// The size that is computed for a tag is the number of bytes that writing it gives.
pub proof fn law_size_is_length_written(tag: TagView)
    ensures
        tag_bytes(tag).len() == tag_size(tag),
{
}

/// Whether a name can stand in the header of a tag: git accepts it as the name of a tag,
/// and it does not start with a dash.
pub open spec fn writable_name(name: Seq<u8>) -> Result<(), Error> {
    if !valid_tag_name(name) {
        Err(Error::InvalidRefName)
    } else if name[0] == DASH {
        Err(Error::StartsWithDash)
    } else {
        Ok(())
    }
}

/// A name that can stand in the header of a tag holds no newline, so that the header
/// field ends where the name ends.
pub proof fn law_writable_names_hold_no_newline(name: Seq<u8>)
    requires
        writable_name(name) is Ok,
    ensures
        !name.contains(NL),
{
    if name.contains(NL) {
        let i = choose|i: int| 0 <= i < name.len() && name[i] == NL;
        assert(forbidden_in_name(name[i]));
    }
}

/// Hands the name back if it can stand in the header of a tag.
pub fn validated_name(name: &[u8]) -> (r: Result<&[u8], Error>)
    ensures
        match r {
            Ok(same) => same@ == name@ && writable_name(name@) is Ok,
            Err(error) => writable_name(name@) == Err::<(), Error>(error),
        },
{
    if !is_tag_name(name) {
        return Err(Error::InvalidRefName);
    }
    if name[0] == DASH {
        return Err(Error::StartsWithDash);
    }
    Ok(name)
}

fn push_all(out: &mut Vec<u8>, bytes: &[u8])
    ensures
        final(out)@ == old(out)@ + bytes@,
{
    let mut i: usize = 0;
    assert(out@ =~= old(out)@ + bytes@.take(0));
    while i < bytes.len()
        invariant
            i <= bytes@.len(),
            out@ == old(out)@ + bytes@.take(i as int),
        decreases bytes@.len() - i,
    {
        out.push(bytes[i]);
        assert(out@ =~= old(out)@ + bytes@.take(i + 1));
        i += 1;
    }
    assert(bytes@.take(bytes@.len() as int) =~= bytes@);
}

fn push_header(out: &mut Vec<u8>, name: &[u8], value: &[u8])
    ensures
        final(out)@ == old(out)@ + header(name@, value@),
{
    push_all(out, name);
    out.push(SPACE);
    push_all(out, value);
    out.push(NL);
    assert(out@ =~= old(out)@ + header(name@, value@));
}

impl<'a> TagRef<'a> {
    /// The bytes of the tag as git stores them, for a name that can stand in its header.
    pub fn write_to(&self) -> (r: Result<Vec<u8>, Error>)
        ensures
            match r {
                Ok(out) => writable_name(self.name@) is Ok && out@ == tag_bytes(self@),
                Err(error) => writable_name(self.name@) == Err::<(), Error>(error),
            },
    {
        let name = match validated_name(self.name) {
            Ok(name) => name,
            Err(error) => {
                return Err(error);
            },
        };
        let mut out: Vec<u8> = Vec::new();
        let object: [u8; 6] = [111u8, 98u8, 106u8, 101u8, 99u8, 116u8];
        let kind: [u8; 4] = [116u8, 121u8, 112u8, 101u8];
        let tag: [u8; 3] = [116u8, 97u8, 103u8];
        let tagger_name: [u8; 6] = [116u8, 97u8, 103u8, 103u8, 101u8, 114u8];
        assert(object@ =~= object_field());
        assert(kind@ =~= type_field());
        assert(tag@ =~= tag_field());
        assert(tagger_name@ =~= tagger_field());
        push_header(&mut out, object.as_slice(), self.target);
        push_header(&mut out, kind.as_slice(), self.target_kind.as_bytes());
        push_header(&mut out, tag.as_slice(), name);
        match self.tagger {
            Some(tagger) => {
                push_header(&mut out, tagger_name.as_slice(), tagger);
            },
            None => {
                assert(out@ + Seq::<u8>::empty() =~= out@);
            },
        }
        out.push(NL);
        push_all(&mut out, self.message);
        match self.pgp_signature {
            Some(signature) => {
                let ghost before = out@;
                out.push(NL);
                push_all(&mut out, signature);
                assert(out@ =~= before + (seq![NL] + signature@));
            },
            None => {
                assert(out@ + Seq::<u8>::empty() =~= out@);
            },
        }
        assert(out@ =~= tag_bytes(self@));
        Ok(out)
    }

    /// The number of bytes that writing the tag gives.
    pub fn size(&self) -> (r: usize)
        requires
            tag_size(self@) <= usize::MAX,
        ensures
            r == tag_size(self@),
    {
        let tagger = match self.tagger {
            Some(tagger) => 6 + 1 + tagger.len() + 1,
            None => 0,
        };
        let signature = match self.pgp_signature {
            Some(signature) => 1 + signature.len(),
            None => 0,
        };
        6 + 1 + self.target.len() + 1 + 4 + 1 + self.target_kind.as_bytes().len() + 1 + 3 + 1
            + self.name.len() + 1 + tagger + 1 + self.message.len() + signature
    }

    /// The kind of object that a tag is.
    pub fn kind(&self) -> (r: ObjectKind)
        ensures
            r == ObjectKind::Tag,
    {
        ObjectKind::Tag
    }
}

impl Tag {
    /// The tag with its parts borrowed.
    pub fn to_ref(&self) -> (r: TagRef<'_>)
        ensures
            r@ == self@,
    {
        TagRef {
            target: self.target.as_slice(),
            target_kind: self.target_kind,
            name: self.name.as_slice(),
            tagger: borrow_option(&self.tagger),
            message: self.message.as_slice(),
            pgp_signature: borrow_option(&self.pgp_signature),
        }
    }

    /// The bytes of the tag as git stores them, for a name that can stand in its header.
    pub fn write_to(&self) -> (r: Result<Vec<u8>, Error>)
        ensures
            match r {
                Ok(out) => writable_name(self.name@) is Ok && out@ == tag_bytes(self@),
                Err(error) => writable_name(self.name@) == Err::<(), Error>(error),
            },
    {
        self.to_ref().write_to()
    }

    /// The number of bytes that writing the tag gives.
    pub fn size(&self) -> (r: usize)
        requires
            tag_size(self@) <= usize::MAX,
        ensures
            r == tag_size(self@),
    {
        self.to_ref().size()
    }

    /// The kind of object that a tag is.
    pub fn kind(&self) -> (r: ObjectKind)
        ensures
            r == ObjectKind::Tag,
    {
        ObjectKind::Tag
    }
}

} // verus!
