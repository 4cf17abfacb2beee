//! Entries of a tree, the trees that hold them, and the order in which git keeps them.
use vstd::prelude::*;
use vstd::std_specs::cmp::PartialOrdSpecImpl;
use core::cmp::Ordering;
use crate::bytes::{
    bstr_as_bytes, bstr_bytes, bstr_to_owned, bstring_as_bytes, bstring_bytes,
    common_prefix_len, lemma_common_prefix_symmetric, shared_prefix, SLASH,
};
use crate::hash::{object_id_bytes, oid_bytes, oid_len, oid_to_owned, SHA1_LEN};
use crate::tree::{EntryKind, EntryMode};

verus! {

/// An element of a [`TreeRef`].
#[derive(PartialEq, Eq, Debug, Hash, Clone, Copy)]
pub struct EntryRef<'a> {
    /// The kind of object to which `oid` is pointing.
    pub mode: EntryMode,
    /// The name of the file in the parent tree.
    pub filename: &'a bstr::BStr,
    /// The id of the object representing the entry.
    pub oid: &'a gix_hash::oid,
}

/// An entry in a [`Tree`], similar to an entry in a directory.
#[derive(PartialEq, Eq, Debug, Hash, Clone)]
pub struct Entry {
    /// The kind of object to which `oid` is pointing to.
    pub mode: EntryMode,
    /// The name of the file in the parent tree.
    pub filename: bstr::BString,
    /// The id of the object representing the entry.
    pub oid: gix_hash::ObjectId,
}

/// A directory snapshot containing files (blobs), directories (trees) and submodules
/// (commits), borrowing names and ids.
#[derive(PartialEq, Eq, Debug, Hash, Clone)]
pub struct TreeRef<'a> {
    /// The directories and files contained in this tree.
    pub entries: Vec<EntryRef<'a>>,
}

/// A mutable tree, containing other trees, blobs or commits.
#[derive(PartialEq, Eq, Debug, Hash, Clone)]
pub struct Tree {
    /// The directories and files contained in this tree.
    pub entries: Vec<Entry>,
}

/// What an entry is ordered and identified by: its mode, the bytes of its name and the
/// bytes of its id.
pub struct EntryView {
    pub mode: EntryMode,
    pub name: Seq<u8>,
    pub id: Seq<u8>,
}

impl<'a> View for EntryRef<'a> {
    type V = EntryView;

    open spec fn view(&self) -> EntryView {
        EntryView { mode: self.mode, name: bstr_bytes(self.filename), id: oid_bytes(self.oid) }
    }
}

impl View for Entry {
    type V = EntryView;

    open spec fn view(&self) -> EntryView {
        EntryView {
            mode: self.mode,
            name: bstring_bytes(self.filename),
            id: object_id_bytes(self.oid),
        }
    }
}

impl<'a> View for TreeRef<'a> {
    type V = Seq<EntryView>;

    open spec fn view(&self) -> Seq<EntryView> {
        self.entries@.map_values(|e: EntryRef<'a>| e@)
    }
}

impl View for Tree {
    type V = Seq<EntryView>;

    open spec fn view(&self) -> Seq<EntryView> {
        self.entries@.map_values(|e: Entry| e@)
    }
}

/// What decides the order once the common length of both names is used up: the next byte
/// of the longer name, a slash after the name of a directory, and nothing otherwise.
pub open spec fn byte_after(name: Seq<u8>, is_tree: bool, at: int) -> Option<u8> {
    if at < name.len() {
        Some(name[at])
    } else if is_tree {
        Some(SLASH)
    } else {
        None
    }
}

/// How two bytes, either of which may be missing, compare: a missing one comes first.
pub open spec fn order_of_bytes(a: Option<u8>, b: Option<u8>) -> Ordering {
    match (a, b) {
        (None, None) => Ordering::Equal,
        (None, Some(_)) => Ordering::Less,
        (Some(_), None) => Ordering::Greater,
        (Some(x), Some(y)) => if x < y {
            Ordering::Less
        } else if x == y {
            Ordering::Equal
        } else {
            Ordering::Greater
        },
    }
}

/// The order of tree entries. Names compare byte by byte over their common length; if
/// they agree there, the single byte after it decides, where the name of a directory
/// counts as followed by a slash.
pub open spec fn tree_order(a: EntryView, b: EntryView) -> Ordering {
    let shared = common_prefix_len(a.name, b.name);
    if shared < a.name.len() && shared < b.name.len() {
        order_of_bytes(Some(a.name[shared]), Some(b.name[shared]))
    } else {
        order_of_bytes(
            byte_after(a.name, a.mode.spec_kind() == EntryKind::Tree, shared),
            byte_after(b.name, b.mode.spec_kind() == EntryKind::Tree, shared),
        )
    }
}

/// An entry is equal to itself in the order of tree entries, and two entries compare one
/// way round as they compare the other way round.
pub proof fn law_tree_order_is_antisymmetric(a: EntryView, b: EntryView)
    ensures
        tree_order(a, a) == Ordering::Equal,
        (tree_order(a, b) == Ordering::Less) == (tree_order(b, a) == Ordering::Greater),
        (tree_order(a, b) == Ordering::Equal) == (tree_order(b, a) == Ordering::Equal),
{
    lemma_common_prefix_symmetric(a.name, b.name);
    lemma_common_prefix_symmetric(a.name, a.name);
    lemma_common_prefix_symmetric(b.name, a.name);
}

fn order_bytes(a: Option<u8>, b: Option<u8>) -> (r: Ordering)
    ensures
        r == order_of_bytes(a, b),
{
    match (a, b) {
        (None, None) => Ordering::Equal,
        (None, Some(_)) => Ordering::Less,
        (Some(_), None) => Ordering::Greater,
        (Some(x), Some(y)) => if x < y {
            Ordering::Less
        } else if x == y {
            Ordering::Equal
        } else {
            Ordering::Greater
        },
    }
}

fn order_entries(a_name: &[u8], a_mode: EntryMode, b_name: &[u8], b_mode: EntryMode) -> (r:
    Ordering)
    ensures
        r == tree_order(
            EntryView { mode: a_mode, name: a_name@, id: Seq::empty() },
            EntryView { mode: b_mode, name: b_name@, id: Seq::empty() },
        ),
{
    let shared = shared_prefix(a_name, b_name);
    if shared < a_name.len() && shared < b_name.len() {
        order_bytes(Some(a_name[shared]), Some(b_name[shared]))
    } else {
        let a_next = if shared < a_name.len() {
            Some(a_name[shared])
        } else if a_mode.is_tree() {
            Some(SLASH)
        } else {
            None
        };
        let b_next = if shared < b_name.len() {
            Some(b_name[shared])
        } else if b_mode.is_tree() {
            Some(SLASH)
        } else {
            None
        };
        order_bytes(a_next, b_next)
    }
}

impl<'a> PartialOrd for EntryRef<'a> {
    fn partial_cmp(&self, other: &Self) -> (r: Option<Ordering>) {
        Some(
            order_entries(
                bstr_as_bytes(self.filename),
                self.mode,
                bstr_as_bytes(other.filename),
                other.mode,
            ),
        )
    }
}

impl<'a> PartialOrdSpecImpl for EntryRef<'a> {
    open spec fn obeys_partial_cmp_spec() -> bool {
        true
    }

    open spec fn partial_cmp_spec(&self, other: &Self) -> Option<Ordering> {
        Some(tree_order(self@, other@))
    }
}

impl PartialOrd for Entry {
    fn partial_cmp(&self, other: &Self) -> (r: Option<Ordering>) {
        Some(
            order_entries(
                bstring_as_bytes(&self.filename),
                self.mode,
                bstring_as_bytes(&other.filename),
                other.mode,
            ),
        )
    }
}

impl PartialOrdSpecImpl for Entry {
    open spec fn obeys_partial_cmp_spec() -> bool {
        true
    }

    open spec fn partial_cmp_spec(&self, other: &Self) -> Option<Ordering> {
        Some(tree_order(self@, other@))
    }
}

impl<'a> EntryRef<'a> {
    /// Whether the id is a SHA-1 digest, the only kind that can be copied into an owned id.
    pub open spec fn has_sha1_id(&self) -> bool {
        oid_bytes(self.oid).len() == SHA1_LEN
    }

    /// Whether the id is a SHA-1 digest.
    pub fn is_sha1(&self) -> (r: bool)
        ensures
            r == self.has_sha1_id(),
    {
        oid_len(self.oid) == SHA1_LEN
    }

    /// Copies the name and the id into an entry that owns them, if the id is a SHA-1
    /// digest; there is no owned entry for any other id.
    pub fn try_to_entry(&self) -> (r: Option<Entry>)
        ensures
            match r {
                Some(entry) => self.has_sha1_id() && entry@ == self@,
                None => !self.has_sha1_id(),
            },
    {
        if self.is_sha1() {
            Some(self.to_entry())
        } else {
            None
        }
    }

    /// Copies the name and the id into an entry that owns them.
    pub fn to_entry(&self) -> (r: Entry)
        requires
            self.has_sha1_id(),
        ensures
            r@ == self@,
    {
        Entry {
            mode: self.mode,
            filename: bstr_to_owned(self.filename),
            oid: oid_to_owned(self.oid),
        }
    }
}

impl<'a> TreeRef<'a> {
    /// Whether every entry's id is a SHA-1 digest.
    pub open spec fn has_sha1_ids(&self) -> bool {
        forall|i: int| 0 <= i < self.entries@.len() ==> (#[trigger] self.entries@[i]).has_sha1_id()
    }

    /// Whether every entry's id is a SHA-1 digest.
    pub fn holds_sha1_ids(&self) -> (r: bool)
        ensures
            r == self.has_sha1_ids(),
    {
        let mut i: usize = 0;
        while i < self.entries.len()
            invariant
                i <= self.entries@.len(),
                forall|j: int| 0 <= j < i ==> (#[trigger] self.entries@[j]).has_sha1_id(),
            decreases self.entries@.len() - i,
        {
            if !self.entries[i].is_sha1() {
                return false;
            }
            i += 1;
        }
        true
    }

    /// Convert this instance into its own version, creating a copy of all data, if
    /// every id is a SHA-1 digest; there is no owned tree otherwise.
    pub fn try_to_owned(&self) -> (r: Option<Tree>)
        ensures
            match r {
                Some(tree) => self.has_sha1_ids() && tree@ == self@,
                None => !self.has_sha1_ids(),
            },
    {
        if self.holds_sha1_ids() {
            Some(self.to_owned())
        } else {
            None
        }
    }

    /// Convert this instance into its own version, creating a copy of all data.
    pub fn to_owned(&self) -> (r: Tree)
        requires
            self.has_sha1_ids(),
        ensures
            r@ == self@,
    {
        let mut entries: Vec<Entry> = Vec::new();
        let mut i: usize = 0;
        while i < self.entries.len()
            invariant
                i <= self.entries@.len(),
                self.has_sha1_ids(),
                entries@.len() == i,
                forall|j: int| 0 <= j < i ==> (#[trigger] entries@[j])@ == self.entries@[j]@,
            decreases self.entries@.len() - i,
        {
            entries.push(self.entries[i].to_entry());
            i += 1;
        }
        let tree = Tree { entries };
        assert(tree@ =~= self@);
        tree
    }

    /// Convert this instance into its own version, creating a copy of all data.
    pub fn into_owned(self) -> (r: Tree)
        requires
            self.has_sha1_ids(),
        ensures
            r@ == self@,
    {
        self.to_owned()
    }
}

} // verus!
