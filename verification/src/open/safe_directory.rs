//! Which directories may be trusted although another user owns them: the ordered list of
//! `safe.directory` entries, matched against the directory in question.
use vstd::prelude::*;
use vstd::slice::slice_to_vec;
use crate::bytes::{borrowed_view, option_view, strings_view, STAR};
use crate::open::error::Error;
use crate::open::path::{
    interpolate, interpolation_allows, is_absolute, machine_dependent, parts, parts_start_with,
    path_interpolated, path_is_absolute, path_parts, same_parts, starts_with,
};

verus! {

/// An entry of the list, once it is known what it stands for.
#[derive(Clone, PartialEq, Eq, Debug)]
pub enum SafeDirectoryPattern {
    /// `*`: every directory is safe.
    Wildcard,
    /// The empty entry: forget every entry before it.
    Reset,
    /// An absolute path, by its components: that directory is safe.
    AbsoluteLiteral(Vec<Vec<u8>>),
    /// An absolute path that ended in `*`, by the components before it: that directory
    /// and everything below it is safe.
    AbsolutePrefixWildcard(Vec<Vec<u8>>),
}

/// What an entry of the list stands for, with paths as sequences of components.
pub enum PatternView {
    Wildcard,
    Reset,
    AbsoluteLiteral(Seq<Seq<u8>>),
    AbsolutePrefixWildcard(Seq<Seq<u8>>),
}

impl View for SafeDirectoryPattern {
    type V = PatternView;

    open spec fn view(&self) -> PatternView {
        match self {
            SafeDirectoryPattern::Wildcard => PatternView::Wildcard,
            SafeDirectoryPattern::Reset => PatternView::Reset,
            SafeDirectoryPattern::AbsoluteLiteral(p) => PatternView::AbsoluteLiteral(
                strings_view(*p),
            ),
            SafeDirectoryPattern::AbsolutePrefixWildcard(p) => PatternView::AbsolutePrefixWildcard(
                strings_view(*p),
            ),
        }
    }
}

/// The view of an entry that may have been skipped.
pub open spec fn entry_view(entry: Option<SafeDirectoryPattern>) -> Option<PatternView> {
    match entry {
        Some(p) => Some(p@),
        None => None,
    }
}

/// The views of a list of entries.
pub open spec fn entries_view(entries: Vec<Option<SafeDirectoryPattern>>) -> Seq<
    Option<PatternView>,
> {
    entries@.map_values(|e: Option<SafeDirectoryPattern>| entry_view(e))
}

/// The components of a path that may spell none.
pub open spec fn test_view(test: Option<Vec<Vec<u8>>>) -> Option<Seq<Seq<u8>>> {
    match test {
        Some(p) => Some(strings_view(p)),
        None => None,
    }
}

/// Whether a pattern by itself declares the directory with the components `test` safe.
pub open spec fn pattern_matches(pattern: PatternView, test: Option<Seq<Seq<u8>>>) -> bool {
    match pattern {
        PatternView::Wildcard => true,
        PatternView::Reset => false,
        PatternView::AbsoluteLiteral(p) => test == Some(p),
        PatternView::AbsolutePrefixWildcard(parent) => test is Some && parts_start_with(
            test.unwrap(),
            parent,
        ),
    }
}

/// Whether the directory counts as safe after one more entry. `*` grants, the empty entry
/// revokes, a path grants where it matches and never revokes, and a skipped entry changes
/// nothing.
pub open spec fn after_entry(
    safe: bool,
    entry: Option<PatternView>,
    test: Option<Seq<Seq<u8>>>,
) -> bool {
    match entry {
        Some(PatternView::Wildcard) => true,
        Some(PatternView::Reset) => false,
        Some(pattern) => safe || pattern_matches(pattern, test),
        None => safe,
    }
}

/// Whether the directory counts as safe after the first `n` entries, having counted as
/// `safe` before them.
pub open spec fn safe_after(
    safe: bool,
    test: Option<Seq<Seq<u8>>>,
    entries: Seq<Option<PatternView>>,
    n: int,
) -> bool
    decreases n,
{
    if n <= 0 {
        safe
    } else {
        after_entry(safe_after(safe, test, entries, n - 1), entries[n - 1], test)
    }
}

/// Whether the list declares the directory safe: nothing is safe to begin with, and the
/// entries are applied in their order.
pub open spec fn is_safe_directory(
    test: Option<Seq<Seq<u8>>>,
    entries: Seq<Option<PatternView>>,
) -> bool {
    safe_after(false, test, entries, entries.len() as int)
}

/// What a path stands for as an entry of the list. A path that is not absolute stands
/// for nothing; one whose last component is `*` stands for everything at or below the
/// components before it; any other for itself.
pub open spec fn classified(absolute: bool, parts: Option<Seq<Seq<u8>>>) -> Option<PatternView> {
    if !absolute || parts is None {
        None
    } else if parts.unwrap().len() > 0 && parts.unwrap().last() == seq![STAR] {
        Some(PatternView::AbsolutePrefixWildcard(parts.unwrap().drop_last()))
    } else {
        Some(PatternView::AbsoluteLiteral(parts.unwrap()))
    }
}

/// What the bytes of a path stand for as an entry of the list.
pub open spec fn path_pattern(path: Seq<u8>) -> Option<PatternView> {
    classified(path_is_absolute(path), path_parts(path))
}

/// The path that a configured entry names, given what came of interpolating it: the
/// interpolated path, or the entry as it was written where interpolation failed.
pub open spec fn named_path(raw: Seq<u8>, interpolated: Option<Seq<u8>>) -> Seq<u8> {
    match interpolated {
        Some(path) => path,
        None => raw,
    }
}

/// What a configured entry stands for, given what came of interpolating it. `*` and the
/// empty entry are themselves, whatever came of it; any other entry stands for what the
/// path it names stands for.
pub open spec fn resolved_entry(raw: Seq<u8>, interpolated: Option<Seq<u8>>) -> Option<
    PatternView,
> {
    if raw == seq![STAR] {
        Some(PatternView::Wildcard)
    } else if raw.len() == 0 {
        Some(PatternView::Reset)
    } else {
        path_pattern(named_path(raw, interpolated))
    }
}

/// What each entry of a list stands for, given what came of interpolating each.
pub open spec fn resolved_entries(
    raw: Seq<Seq<u8>>,
    interpolated: Seq<Option<Seq<u8>>>,
) -> Seq<Option<PatternView>> {
    Seq::new(raw.len(), |i: int| resolved_entry(raw[i], interpolated[i]))
}

/// Whether an entry is interpolated at all: `*` and the empty entry are not.
pub open spec fn is_interpolated(raw: Seq<u8>) -> bool {
    raw != seq![STAR] && raw.len() > 0
}

/// Whether `interpolated` holds, for each entry in turn, something that can come of
/// interpolating it with the two directories.
pub open spec fn interpolations_of(
    raw: Seq<Seq<u8>>,
    install_dir: Option<Seq<u8>>,
    home: Option<Seq<u8>>,
    interpolated: Seq<Option<Seq<u8>>>,
) -> bool {
    &&& interpolated.len() == raw.len()
    &&& forall|i: int|
        0 <= i < raw.len() && is_interpolated(#[trigger] raw[i]) ==> interpolation_allows(
            raw[i],
            install_dir,
            home,
            interpolated[i],
        )
}

/// Whether no entry depends on the machine, so that the list and the two directories
/// fix what every entry stands for.
pub open spec fn all_fixed(raw: Seq<Seq<u8>>) -> bool {
    forall|i: int| 0 <= i < raw.len() ==> !machine_dependent(#[trigger] raw[i])
}

/// What each entry of a list stands for where none depends on the machine.
pub open spec fn fixed_entries(
    raw: Seq<Seq<u8>>,
    install_dir: Option<Seq<u8>>,
    home: Option<Seq<u8>>,
) -> Seq<Option<PatternView>> {
    Seq::new(
        raw.len(),
        |i: int| resolved_entry(raw[i], path_interpolated(raw[i], install_dir, home)),
    )
}

/// The directory that is tested: the canonical form of the path, or the path as given
/// where it has no canonical form.
pub open spec fn tested_path(path: Seq<u8>, canonical: Option<Seq<u8>>) -> Seq<u8> {
    match canonical {
        Some(c) => c,
        None => path,
    }
}

fn is_star(raw: &[u8]) -> (r: bool)
    ensures
        r == (raw@ == seq![STAR]),
{
    let r = raw.len() == 1 && raw[0] == STAR;
    proof {
        if r {
            assert(raw@ =~= seq![STAR]);
        }
    }
    r
}

impl SafeDirectoryPattern {
    /// Classifies a path by whether it is absolute and by its components.
    pub fn classify(absolute: bool, parts: Option<Vec<Vec<u8>>>) -> (r: Option<
        SafeDirectoryPattern,
    >)
        ensures
            entry_view(r) == classified(absolute, test_view(parts)),
    {
        if !absolute {
            return None;
        }
        match parts {
            None => None,
            Some(mut parts) => {
                let n = parts.len();
                if n > 0 && is_star(parts[n - 1].as_slice()) {
                    let ghost before = strings_view(parts);
                    parts.pop();
                    assert(strings_view(parts) =~= before.drop_last());
                    Some(SafeDirectoryPattern::AbsolutePrefixWildcard(parts))
                } else {
                    Some(SafeDirectoryPattern::AbsoluteLiteral(parts))
                }
            },
        }
    }

    /// Whether this pattern by itself declares the directory with the components `test`
    /// safe.
    pub fn matches(&self, test: &Option<Vec<Vec<u8>>>) -> (r: bool)
        ensures
            r == pattern_matches(self@, test_view(*test)),
    {
        match self {
            SafeDirectoryPattern::Wildcard => true,
            SafeDirectoryPattern::Reset => false,
            SafeDirectoryPattern::AbsoluteLiteral(p) => match test {
                Some(t) => same_parts(t, p),
                None => false,
            },
            SafeDirectoryPattern::AbsolutePrefixWildcard(parent) => match test {
                Some(t) => starts_with(t, parent),
                None => false,
            },
        }
    }

    /// What a configured entry stands for, given what came of interpolating it, or
    /// `None` where interpolation failed: the entry is then taken as it was written.
    /// The result is `None` for an entry that is skipped because the path it names is
    /// not absolute.
    pub fn resolved(raw: &[u8], interpolated: Option<Vec<u8>>) -> (r: Option<SafeDirectoryPattern>)
        ensures
            entry_view(r) == resolved_entry(raw@, option_view(interpolated)),
    {
        if is_star(raw) {
            return Some(SafeDirectoryPattern::Wildcard);
        }
        if raw.len() == 0 {
            return Some(SafeDirectoryPattern::Reset);
        }
        let path = match interpolated {
            Some(path) => path,
            None => slice_to_vec(raw),
        };
        Self::classify(is_absolute(path.as_slice()), parts(path.as_slice()))
    }

    /// Resolves a configured entry: `*` and the empty entry are themselves; anything
    /// else is interpolated with the two directories and then stands for what
    /// [`Self::resolved`] makes of the outcome.
    pub fn resolve(raw: &[u8], git_install_dir: Option<&[u8]>, home: Option<&[u8]>) -> (r: Option<
        SafeDirectoryPattern,
    >)
        ensures
            exists|interpolated: Option<Seq<u8>>|
                (is_interpolated(raw@) ==> interpolation_allows(
                    raw@,
                    borrowed_view(git_install_dir),
                    borrowed_view(home),
                    interpolated,
                )) && entry_view(r) == #[trigger] resolved_entry(raw@, interpolated),
            !machine_dependent(raw@) ==> entry_view(r) == resolved_entry(
                raw@,
                path_interpolated(raw@, borrowed_view(git_install_dir), borrowed_view(home)),
            ),
    {
        if is_star(raw) || raw.len() == 0 {
            let r = Self::resolved(raw, None);
            assert(entry_view(r) == resolved_entry(raw@, None));
            return r;
        }
        let interpolated = interpolate(raw, git_install_dir, home);
        let ghost outcome = option_view(interpolated);
        let r = Self::resolved(raw, interpolated);
        assert(entry_view(r) == resolved_entry(raw@, outcome));
        r
    }

    /// Resolves every entry of a list, in its order.
    pub fn resolve_all(
        safe_dirs: &Vec<Vec<u8>>,
        git_install_dir: Option<&[u8]>,
        home: Option<&[u8]>,
    ) -> (r: Vec<Option<SafeDirectoryPattern>>)
        ensures
            exists|interpolated: Seq<Option<Seq<u8>>>|
                #[trigger] interpolations_of(
                    strings_view(*safe_dirs),
                    borrowed_view(git_install_dir),
                    borrowed_view(home),
                    interpolated,
                ) && entries_view(r) == resolved_entries(strings_view(*safe_dirs), interpolated),
            all_fixed(strings_view(*safe_dirs)) ==> entries_view(r) == fixed_entries(
                strings_view(*safe_dirs),
                borrowed_view(git_install_dir),
                borrowed_view(home),
            ),
    {
        let ghost raw = strings_view(*safe_dirs);
        let ghost install = borrowed_view(git_install_dir);
        let ghost user = borrowed_view(home);
        let ghost mut outcomes: Seq<Option<Seq<u8>>> = Seq::empty();
        let mut entries: Vec<Option<SafeDirectoryPattern>> = Vec::new();
        let mut i: usize = 0;
        while i < safe_dirs.len()
            invariant
                i <= safe_dirs@.len(),
                raw == strings_view(*safe_dirs),
                install == borrowed_view(git_install_dir),
                user == borrowed_view(home),
                outcomes.len() == i,
                entries@.len() == i,
                forall|j: int|
                    0 <= j < i && is_interpolated(#[trigger] raw[j]) ==> interpolation_allows(
                        raw[j],
                        install,
                        user,
                        outcomes[j],
                    ),
                forall|j: int|
                    0 <= j < i ==> entry_view(#[trigger] entries@[j]) == resolved_entry(
                        raw[j],
                        outcomes[j],
                    ),
                forall|j: int|
                    0 <= j < i && !machine_dependent(raw[j]) ==> entry_view(
                        #[trigger] entries@[j],
                    ) == resolved_entry(raw[j], path_interpolated(raw[j], install, user)),
            decreases safe_dirs@.len() - i,
        {
            let entry = Self::resolve(safe_dirs[i].as_slice(), git_install_dir, home);
            proof {
                assert(raw[i as int] == safe_dirs@[i as int]@);
                let outcome = choose|o: Option<Seq<u8>>|
                    (is_interpolated(raw[i as int]) ==> interpolation_allows(
                        raw[i as int],
                        install,
                        user,
                        o,
                    )) && entry_view(entry) == #[trigger] resolved_entry(raw[i as int], o);
                outcomes = outcomes.push(outcome);
            }
            entries.push(entry);
            i += 1;
        }
        proof {
            assert(interpolations_of(raw, install, user, outcomes));
            assert(entries_view(entries) =~= resolved_entries(raw, outcomes));
            if all_fixed(raw) {
                assert(entries_view(entries) =~= fixed_entries(raw, install, user));
            }
        }
        entries
    }
}

/// Applies the entries in their order to the directory with the components `test`.
pub fn is_safe(
    test: &Option<Vec<Vec<u8>>>,
    entries: &Vec<Option<SafeDirectoryPattern>>,
) -> (r: bool)
    ensures
        r == is_safe_directory(test_view(*test), entries_view(*entries)),
{
    let mut safe = false;
    let mut i: usize = 0;
    while i < entries.len()
        invariant
            i <= entries@.len(),
            safe == safe_after(false, test_view(*test), entries_view(*entries), i as int),
        decreases entries@.len() - i,
    {
        match &entries[i] {
            Some(SafeDirectoryPattern::Wildcard) => {
                safe = true;
            },
            Some(SafeDirectoryPattern::Reset) => {
                safe = false;
            },
            Some(pattern) => {
                if !safe {
                    safe = pattern.matches(test);
                }
            },
            None => {},
        }
        i += 1;
    }
    safe
}

/// Decides whether `path_to_test` is a safe directory. `canonical` is the path with its
/// symbolic links resolved, or `None` where that failed: the path is then tested as it
/// was given. Every entry of `safe_dirs` is resolved with the two directories, and the
/// entries are applied in their order.
///
/// The error holds the path that was tested.
pub fn check_safe_directories(
    path_to_test: &[u8],
    canonical: Option<&[u8]>,
    git_install_dir: Option<&[u8]>,
    home: Option<&[u8]>,
    safe_dirs: &Vec<Vec<u8>>,
) -> (r: Result<(), Error>)
    ensures
        exists|interpolated: Seq<Option<Seq<u8>>>|
            #[trigger] interpolations_of(
                strings_view(*safe_dirs),
                borrowed_view(git_install_dir),
                borrowed_view(home),
                interpolated,
            ) && r.is_ok() == is_safe_directory(
                path_parts(tested_path(path_to_test@, borrowed_view(canonical))),
                resolved_entries(strings_view(*safe_dirs), interpolated),
            ),
        all_fixed(strings_view(*safe_dirs)) ==> r.is_ok() == is_safe_directory(
            path_parts(tested_path(path_to_test@, borrowed_view(canonical))),
            fixed_entries(
                strings_view(*safe_dirs),
                borrowed_view(git_install_dir),
                borrowed_view(home),
            ),
        ),
        match r {
            Ok(_) => true,
            Err(Error::UnsafeGitDir { path }) => path@ == tested_path(
                path_to_test@,
                borrowed_view(canonical),
            ),
            Err(_) => false,
        },
{
    let tested = match canonical {
        Some(c) => c,
        None => path_to_test,
    };
    let test = parts(tested);
    let entries = SafeDirectoryPattern::resolve_all(safe_dirs, git_install_dir, home);
    if is_safe(&test, &entries) {
        Ok(())
    } else {
        Err(Error::UnsafeGitDir { path: slice_to_vec(tested) })
    }
}

/// Whether an entry by itself declares the directory safe.
pub open spec fn grants(entry: Option<PatternView>, test: Option<Seq<Seq<u8>>>) -> bool {
    entry is Some && pattern_matches(entry.unwrap(), test)
}

/// Whether one of the first `n` entries grants safety and no empty entry follows it
/// among them.
pub open spec fn granted_below(
    test: Option<Seq<Seq<u8>>>,
    entries: Seq<Option<PatternView>>,
    n: int,
) -> bool {
    exists|k: int|
        0 <= k < n && #[trigger] grants(entries[k], test) && forall|j: int|
            k < j < n ==> entries[j] != Some(PatternView::Reset)
}

/// Two lists that agree on their first `n` entries leave the directory in the same state
/// after them.
pub proof fn lemma_safe_after_prefix(
    safe: bool,
    test: Option<Seq<Seq<u8>>>,
    a: Seq<Option<PatternView>>,
    b: Seq<Option<PatternView>>,
    n: int,
)
    requires
        n <= a.len(),
        n <= b.len(),
        forall|j: int| 0 <= j < n ==> a[j] == b[j],
    ensures
        safe_after(safe, test, a, n) == safe_after(safe, test, b, n),
    decreases n,
{
    if n > 0 {
        lemma_safe_after_prefix(safe, test, a, b, n - 1);
    }
}

/// Applying a list that is made of two parts is applying the first part and then the second.
pub proof fn lemma_safe_after_concat(
    safe: bool,
    test: Option<Seq<Seq<u8>>>,
    a: Seq<Option<PatternView>>,
    b: Seq<Option<PatternView>>,
    n: int,
)
    requires
        0 <= n <= b.len(),
    ensures
        safe_after(safe, test, a + b, a.len() + n) == safe_after(
            safe_after(safe, test, a, a.len() as int),
            test,
            b,
            n,
        ),
    decreases n,
{
    if n > 0 {
        lemma_safe_after_concat(safe, test, a, b, n - 1);
        assert((a + b)[a.len() + n - 1] == b[n - 1]);
    } else {
        lemma_safe_after_prefix(safe, test, a + b, a, a.len() as int);
    }
}

/// Entries that are neither `*` nor empty never take safety away.
pub proof fn lemma_safe_stays(
    test: Option<Seq<Seq<u8>>>,
    entries: Seq<Option<PatternView>>,
    n: int,
)
    requires
        0 <= n <= entries.len(),
        forall|j: int| 0 <= j < n ==> entries[j] != Some(PatternView::Reset),
    ensures
        safe_after(true, test, entries, n),
    decreases n,
{
    if n > 0 {
        lemma_safe_stays(test, entries, n - 1);
    }
}

/// The whole rule in one sentence: a list declares a directory safe exactly if one of
/// its entries grants safety (a `*`, a path that is the directory, a path ending in `*`
/// at or above it) and no empty entry follows that entry. So a list without entries
/// declares nothing safe, an empty entry wins over everything before it, and a grant
/// after it restores safety.
pub proof fn law_safe_exactly_if_granted_after_the_last_reset(
    test: Option<Seq<Seq<u8>>>,
    entries: Seq<Option<PatternView>>,
    n: int,
)
    requires
        0 <= n <= entries.len(),
    ensures
        safe_after(false, test, entries, n) == granted_below(test, entries, n),
    decreases n,
{
    if n > 0 {
        law_safe_exactly_if_granted_after_the_last_reset(test, entries, n - 1);
        let last = entries[n - 1];
        let before = safe_after(false, test, entries, n - 1);
        if last == Some(PatternView::Reset) {
            assert(!grants(last, test));
            assert(!granted_below(test, entries, n)) by {
                if granted_below(test, entries, n) {
                    let k = choose|k: int|
                        0 <= k < n && #[trigger] grants(entries[k], test) && forall|j: int|
                            k < j < n ==> entries[j] != Some(PatternView::Reset);
                    assert(k < n - 1);
                    assert(entries[n - 1] != Some(PatternView::Reset));
                }
            }
        } else {
            if grants(last, test) {
                assert(granted_below(test, entries, n));
            } else {
                if granted_below(test, entries, n) {
                    let k = choose|k: int|
                        0 <= k < n && #[trigger] grants(entries[k], test) && forall|j: int|
                            k < j < n ==> entries[j] != Some(PatternView::Reset);
                    assert(k < n - 1);
                    assert(grants(entries[k], test));
                    assert(granted_below(test, entries, n - 1));
                }
                if granted_below(test, entries, n - 1) {
                    let k = choose|k: int|
                        0 <= k < n - 1 && #[trigger] grants(entries[k], test) && forall|j: int|
                            k < j < n - 1 ==> entries[j] != Some(PatternView::Reset);
                    assert(grants(entries[k], test));
                    assert(forall|j: int| k < j < n ==> entries[j] != Some(PatternView::Reset));
                    assert(granted_below(test, entries, n));
                }
            }
        }
    }
}

/// The empty entry wins over everything before it: a list in which an empty entry
/// follows a `*` leaves every directory unsafe at that point, whatever stands before and
/// between them. And a `*` that follows an empty entry makes every directory safe again,
/// as long as no empty entry follows it.
pub proof fn law_reset_and_wildcard(
    test: Option<Seq<Seq<u8>>>,
    before: Seq<Option<PatternView>>,
    between: Seq<Option<PatternView>>,
    after: Seq<Option<PatternView>>,
)
    requires
        forall|j: int| 0 <= j < after.len() ==> after[j] != Some(PatternView::Reset),
    ensures
        !is_safe_directory(
            test,
            before.push(Some(PatternView::Wildcard)) + between.push(Some(PatternView::Reset)),
        ),
        is_safe_directory(
            test,
            before.push(Some(PatternView::Reset)) + between.push(Some(PatternView::Wildcard))
                + after,
        ),
{
    let a = before.push(Some(PatternView::Wildcard));
    let b = between.push(Some(PatternView::Reset));
    lemma_safe_after_concat(false, test, a, b, b.len() as int);
    assert((a + b).len() == a.len() + b.len());
    let c = before.push(Some(PatternView::Reset));
    let d = between.push(Some(PatternView::Wildcard));
    lemma_safe_after_concat(false, test, c, d, d.len() as int);
    assert((c + d).len() == c.len() + d.len());
    assert(safe_after(false, test, c + d, (c + d).len() as int));
    lemma_safe_after_concat(false, test, c + d, after, after.len() as int);
    lemma_safe_stays(test, after, after.len() as int);
}

/// In a configured list, an empty entry wins over every `*` before it, and a `*` after
/// the last empty entry restores safety, whatever the other entries are and whatever
/// comes of interpolating them.
pub proof fn law_reset_and_wildcard_in_lists(
    test: Option<Seq<Seq<u8>>>,
    raw: Seq<Seq<u8>>,
    interpolated: Seq<Option<Seq<u8>>>,
    at: int,
)
    requires
        interpolated.len() == raw.len(),
        0 <= at < raw.len(),
    ensures
        raw[at].len() == 0 && (forall|j: int|
            at < j < raw.len() ==> !grants(
                #[trigger] resolved_entry(raw[j], interpolated[j]),
                test,
            )) ==> !is_safe_directory(test, resolved_entries(raw, interpolated)),
        raw[at] == seq![STAR] && (forall|j: int|
            at < j < raw.len() ==> (#[trigger] raw[j]).len() > 0) ==> is_safe_directory(
            test,
            resolved_entries(raw, interpolated),
        ),
{
    let entries = resolved_entries(raw, interpolated);
    law_safe_exactly_if_granted_after_the_last_reset(test, entries, entries.len() as int);
    if raw[at].len() == 0 && (forall|j: int|
        at < j < raw.len() ==> !grants(#[trigger] resolved_entry(raw[j], interpolated[j]), test)) {
        assert(entries[at] == Some(PatternView::Reset));
        if granted_below(test, entries, entries.len() as int) {
            let k = choose|k: int|
                0 <= k < entries.len() && #[trigger] grants(entries[k], test) && forall|j: int|
                    k < j < entries.len() ==> entries[j] != Some(PatternView::Reset);
            if k < at {
                assert(entries[at] != Some(PatternView::Reset));
            } else if k > at {
                assert(!grants(resolved_entry(raw[k], interpolated[k]), test));
            }
        }
    }
    if raw[at] == seq![STAR] && (forall|j: int|
        at < j < raw.len() ==> (#[trigger] raw[j]).len() > 0) {
        assert(entries[at] == Some(PatternView::Wildcard));
        assert(grants(entries[at], test));
        assert forall|j: int| at < j < entries.len() implies entries[j] != Some(
            PatternView::Reset,
        ) by {
            assert(raw[j].len() > 0);
        }
        assert(granted_below(test, entries, entries.len() as int));
    }
}

/// A list that holds `*` alone declares every directory safe, and a list without entries
/// declares none safe. Neither depends on the machine.
pub proof fn law_wildcard_alone_and_no_entries(
    test: Option<Seq<Seq<u8>>>,
    install_dir: Option<Seq<u8>>,
    home: Option<Seq<u8>>,
)
    ensures
        all_fixed(seq![seq![STAR]]),
        all_fixed(Seq::<Seq<u8>>::empty()),
        is_safe_directory(test, fixed_entries(seq![seq![STAR]], install_dir, home)),
        !is_safe_directory(test, fixed_entries(Seq::<Seq<u8>>::empty(), install_dir, home)),
{
    let alone = seq![seq![STAR]];
    assert(!machine_dependent(alone[0]));
    let entries = fixed_entries(alone, install_dir, home);
    assert(entries[0] == Some(PatternView::Wildcard));
    assert(safe_after(false, test, entries, 1) == after_entry(
        safe_after(false, test, entries, 0),
        entries[0],
        test,
    ));
}

/// Everything before an empty entry is forgotten.
pub proof fn law_reset_forgets(
    test: Option<Seq<Seq<u8>>>,
    before: Seq<Option<PatternView>>,
    after: Seq<Option<PatternView>>,
)
    ensures
        is_safe_directory(test, before.push(Some(PatternView::Reset)) + after) == is_safe_directory(
            test,
            after,
        ),
{
    let a = before.push(Some(PatternView::Reset));
    lemma_safe_after_concat(false, test, a, after, after.len() as int);
    assert((a + after).len() == a.len() + after.len());
}

/// A literal absolute path declares exactly the directory with the same components
/// safe. In particular it does not match a directory below it.
pub proof fn law_literal_is_exact(pattern: Seq<Seq<u8>>, test: Seq<Seq<u8>>, suffix: Seq<Seq<u8>>)
    requires
        suffix.len() > 0,
    ensures
        is_safe_directory(Some(test), seq![Some(PatternView::AbsoluteLiteral(pattern))]) <==> test
            == pattern,
        !is_safe_directory(
            Some(pattern + suffix),
            seq![Some(PatternView::AbsoluteLiteral(pattern))],
        ),
{
    let entries = seq![Some(PatternView::AbsoluteLiteral(pattern))];
    assert(safe_after(false, Some(test), entries, 0) == false);
    assert(safe_after(false, Some(pattern + suffix), entries, 0) == false);
    assert((pattern + suffix).len() != pattern.len());
}

/// A path that ends in `*` declares the directory before the `*` safe, and every
/// directory below it, and no other: a directory whose component at the place of the
/// parent's last one has another name is not matched, even where one name starts with
/// the other.
pub proof fn law_prefix_wildcard(
    parent: Seq<Seq<u8>>,
    test: Seq<Seq<u8>>,
    below: Seq<Seq<u8>>,
    sibling: Seq<u8>,
)
    requires
        parent.len() > 0,
        sibling != parent.last(),
    ensures
        is_safe_directory(Some(test), seq![Some(PatternView::AbsolutePrefixWildcard(parent))])
            <==> parts_start_with(test, parent),
        is_safe_directory(Some(parent), seq![Some(PatternView::AbsolutePrefixWildcard(parent))]),
        is_safe_directory(
            Some(parent + below),
            seq![Some(PatternView::AbsolutePrefixWildcard(parent))],
        ),
        !is_safe_directory(
            Some(parent.drop_last().push(sibling) + below),
            seq![Some(PatternView::AbsolutePrefixWildcard(parent))],
        ),
{
    let entries = seq![Some(PatternView::AbsolutePrefixWildcard(parent))];
    assert(safe_after(false, Some(test), entries, 0) == false);
    assert(safe_after(false, Some(parent), entries, 0) == false);
    assert(safe_after(false, Some(parent + below), entries, 0) == false);
    let other = parent.drop_last().push(sibling) + below;
    assert(safe_after(false, Some(other), entries, 0) == false);
    assert(parent.is_prefix_of(parent)) by {
        assert(parent.subrange(0, parent.len() as int) =~= parent);
    }
    assert(parent.is_prefix_of(parent + below)) by {
        assert((parent + below).subrange(0, parent.len() as int) =~= parent);
    }
    assert(!parent.is_prefix_of(other)) by {
        if parent.is_prefix_of(other) {
            assert(other.subrange(0, parent.len() as int)[parent.len() - 1] == sibling);
        }
    }
}

/// A path that is not absolute stands for nothing: wherever it is put into a list, the
/// list declares the same directories safe as without it.
pub proof fn law_relative_is_ignored(
    test: Option<Seq<Seq<u8>>>,
    before: Seq<Option<PatternView>>,
    after: Seq<Option<PatternView>>,
    parts: Option<Seq<Seq<u8>>>,
)
    ensures
        classified(false, parts) is None,
        is_safe_directory(test, before.push(classified(false, parts)) + after)
            == is_safe_directory(test, before + after),
{
    let a = before.push(classified(false, parts));
    lemma_safe_after_concat(false, test, a, after, after.len() as int);
    lemma_safe_after_concat(false, test, before, after, after.len() as int);
    lemma_safe_after_prefix(false, test, a, before, before.len() as int);
    assert((a + after).len() == a.len() + after.len());
    assert((before + after).len() == before.len() + after.len());
}

/// In a configured list, an entry that names a path which is not absolute changes
/// nothing, wherever it stands: the list declares the same directories safe as the list
/// without it. That holds of the entry as written where interpolation failed, and of
/// what it was interpolated to otherwise.
pub proof fn law_relative_is_ignored_in_lists(
    test: Option<Seq<Seq<u8>>>,
    before: Seq<Seq<u8>>,
    after: Seq<Seq<u8>>,
    interpolated_before: Seq<Option<Seq<u8>>>,
    interpolated_after: Seq<Option<Seq<u8>>>,
    entry: Seq<u8>,
    interpolated: Option<Seq<u8>>,
)
    requires
        interpolated_before.len() == before.len(),
        interpolated_after.len() == after.len(),
        is_interpolated(entry),
        !path_is_absolute(named_path(entry, interpolated)),
    ensures
        resolved_entry(entry, interpolated) is None,
        is_safe_directory(
            test,
            resolved_entries(
                before.push(entry) + after,
                interpolated_before.push(interpolated) + interpolated_after,
            ),
        ) == is_safe_directory(
            test,
            resolved_entries(before + after, interpolated_before + interpolated_after),
        ),
{
    let b = resolved_entries(before, interpolated_before);
    let a = resolved_entries(after, interpolated_after);
    let with = resolved_entries(
        before.push(entry) + after,
        interpolated_before.push(interpolated) + interpolated_after,
    );
    let without = resolved_entries(before + after, interpolated_before + interpolated_after);
    let skipped = classified(false, path_parts(named_path(entry, interpolated)));
    assert(with =~= b.push(skipped) + a);
    assert(without =~= b + a);
    law_relative_is_ignored(test, b, a, path_parts(named_path(entry, interpolated)));
}

} // verus!
