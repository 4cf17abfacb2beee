//! Raising the trust of single sections of the configuration once it is decided how far
//! the repository itself is trusted.
//!
//! A section that is neither trusted by default nor fully trusted already is judged by
//! the file it came from. Each file is judged once, however many sections came from it.
use vstd::prelude::*;
use vstd::slice::slice_to_vec;
use crate::bytes::{borrowed_view, bytes_equal, option_view, strings_view};
use crate::open::config::{Config, ConfigSection, ConfigSectionView, TrustLevel};
use crate::open::path::{parts, parts_start_with, path_parts, starts_with};
use crate::open::safe_directory::{
    all_fixed, check_safe_directories, fixed_entries, interpolations_of, is_safe_directory,
    resolved_entries, tested_path,
};

verus! {

/// Whether a section is judged at all: it is not trusted by default, not yet fully
/// trusted, and came from a file.
pub open spec fn eligible(section: ConfigSectionView) -> bool {
    &&& !section.kind.trusted_by_default()
    &&& section.trust != TrustLevel::Full
    &&& section.origin_path is Some
}

/// The files that the first `n` sections ask to be judged, each once, in the order in
/// which the sections first name them.
pub open spec fn judged_paths_below(config: Seq<ConfigSectionView>, n: int) -> Seq<Seq<u8>>
    decreases n,
{
    if n <= 0 {
        Seq::empty()
    } else {
        let before = judged_paths_below(config, n - 1);
        if eligible(config[n - 1]) && !before.contains(config[n - 1].origin_path.unwrap()) {
            before.push(config[n - 1].origin_path.unwrap())
        } else {
            before
        }
    }
}

/// The files to judge for a configuration.
pub open spec fn judged_paths(config: Seq<ConfigSectionView>) -> Seq<Seq<u8>> {
    judged_paths_below(config, config.len() as int)
}

/// The section as it is after the files in `safe` were found safe.
pub open spec fn elevated_section(
    section: ConfigSectionView,
    safe: Set<Seq<u8>>,
) -> ConfigSectionView {
    if eligible(section) && safe.contains(section.origin_path.unwrap()) {
        ConfigSectionView { trust: TrustLevel::Full, ..section }
    } else {
        section
    }
}

/// The configuration as it is after the files in `safe` were found safe: every section
/// that is judged and came from one of them is fully trusted, and nothing else changed.
pub open spec fn elevated(config: Seq<ConfigSectionView>, safe: Set<Seq<u8>>) -> Seq<
    ConfigSectionView,
> {
    config.map_values(|section: ConfigSectionView| elevated_section(section, safe))
}

/// Whether a file lies in the directory that was just validated, under a repository
/// that is fully trusted: such a file is safe without a check of its own.
pub open spec fn covered(path: Seq<u8>, test_dir: Seq<u8>, trust: TrustLevel) -> bool {
    &&& trust == TrustLevel::Full
    &&& path_parts(path) is Some
    &&& path_parts(test_dir) is Some
    &&& parts_start_with(path_parts(path).unwrap(), path_parts(test_dir).unwrap())
}

/// A file to judge, and whether it is covered by the validated directory. Only a file
/// that is not covered needs its canonical form.
#[derive(Clone, PartialEq, Eq, Debug)]
pub struct PendingPath {
    pub path: Vec<u8>,
    pub covered: bool,
}

/// A file, and whether it was found safe.
#[derive(Clone, PartialEq, Eq, Debug)]
pub struct Judgement {
    pub path: Vec<u8>,
    pub safe: bool,
}

/// The files that were found safe.
pub open spec fn safe_paths(judgements: Seq<Judgement>) -> Set<Seq<u8>> {
    Set::new(
        |path: Seq<u8>|
            exists|i: int|
                0 <= i < judgements.len() && (#[trigger] judgements[i]).path@ == path
                    && judgements[i].safe,
    )
}

/// The canonical form that was handed in for the file at `i`, if any.
pub open spec fn canonical_at(canonical: Seq<Option<Vec<u8>>>, i: int) -> Option<Seq<u8>> {
    if 0 <= i < canonical.len() {
        option_view(canonical[i])
    } else {
        None
    }
}

/// Whether `safe` is a verdict that the rules allow for a file: a covered file is safe,
/// any other is safe exactly if the list of safe directories says so of its canonical
/// form, or of the path itself where it has none. What the entries of the list stand for
/// is fixed by the list and the two directories, except for entries that depend on the
/// machine.
pub open spec fn is_verdict(
    safe: bool,
    path: Seq<u8>,
    canonical: Option<Seq<u8>>,
    test_dir: Seq<u8>,
    trust: TrustLevel,
    safe_dirs: Seq<Seq<u8>>,
    install_dir: Option<Seq<u8>>,
    home: Option<Seq<u8>>,
) -> bool {
    if covered(path, test_dir, trust) {
        safe
    } else {
        exists|interpolated: Seq<Option<Seq<u8>>>|
            #[trigger] interpolations_of(safe_dirs, install_dir, home, interpolated) && safe
                == is_safe_directory(
                path_parts(tested_path(path, canonical)),
                resolved_entries(safe_dirs, interpolated),
            )
    }
}

/// The verdict for a file where no entry of the list depends on the machine.
pub open spec fn fixed_verdict(
    path: Seq<u8>,
    canonical: Option<Seq<u8>>,
    test_dir: Seq<u8>,
    trust: TrustLevel,
    safe_dirs: Seq<Seq<u8>>,
    install_dir: Option<Seq<u8>>,
    home: Option<Seq<u8>>,
) -> bool {
    covered(path, test_dir, trust) || is_safe_directory(
        path_parts(tested_path(path, canonical)),
        fixed_entries(safe_dirs, install_dir, home),
    )
}

impl ConfigSection {
    /// Whether the section is judged at all.
    pub fn is_eligible(&self) -> (r: bool)
        ensures
            r == eligible(self@),
    {
        !self.kind.is_trusted_by_default() && self.trust != TrustLevel::Full
            && self.origin_path.is_some()
    }
}

fn contains_path(paths: &Vec<Vec<u8>>, path: &[u8]) -> (r: bool)
    ensures
        r == strings_view(*paths).contains(path@),
{
    let mut i: usize = 0;
    while i < paths.len()
        invariant
            i <= paths@.len(),
            forall|j: int| 0 <= j < i ==> strings_view(*paths)[j] != path@,
        decreases paths@.len() - i,
    {
        if bytes_equal(paths[i].as_slice(), path) {
            assert(strings_view(*paths)[i as int] == path@);
            return true;
        }
        i += 1;
    }
    false
}

/// Lists the files to judge, each once.
pub fn paths_to_judge(config: &Config) -> (r: Vec<Vec<u8>>)
    ensures
        strings_view(r) == judged_paths(config@),
        strings_view(r).no_duplicates(),
{
    let mut paths: Vec<Vec<u8>> = Vec::new();
    let mut i: usize = 0;
    assert(strings_view(paths) =~= Seq::<Seq<u8>>::empty());
    while i < config.sections.len()
        invariant
            i <= config.sections@.len(),
            strings_view(paths) == judged_paths_below(config@, i as int),
            strings_view(paths).no_duplicates(),
        decreases config.sections@.len() - i,
    {
        let section = &config.sections[i];
        if section.is_eligible() {
            match &section.origin_path {
                Some(path) => {
                    if !contains_path(&paths, path.as_slice()) {
                        let ghost before = strings_view(paths);
                        paths.push(slice_to_vec(path.as_slice()));
                        assert(strings_view(paths) =~= before.push(path@));
                    }
                },
                None => {},
            }
        }
        i += 1;
    }
    paths
}

/// Whether a file is covered by the validated directory.
pub fn is_covered(path: &[u8], test_dir: &[u8], trust: TrustLevel) -> (r: bool)
    ensures
        r == covered(path@, test_dir@, trust),
{
    if trust != TrustLevel::Full {
        return false;
    }
    match (parts(path), parts(test_dir)) {
        (Some(p), Some(t)) => starts_with(&p, &t),
        _ => false,
    }
}

/// Lists the files to judge and marks those that are covered by the validated directory.
pub fn pending_paths(config: &Config, test_dir: &[u8], trust: TrustLevel) -> (r: Vec<PendingPath>)
    ensures
        r@.len() == judged_paths(config@).len(),
        forall|i: int|
            0 <= i < r@.len() ==> (#[trigger] r@[i]).path@ == judged_paths(config@)[i]
                && r@[i].covered == covered(r@[i].path@, test_dir@, trust),
{
    let mut paths = paths_to_judge(config);
    let ghost all = strings_view(paths);
    let mut pending: Vec<PendingPath> = Vec::new();
    let n = paths.len();
    let mut i: usize = 0;
    while i < n
        invariant
            i <= n,
            n == paths@.len(),
            strings_view(paths) == all,
            pending@.len() == i,
            forall|j: int|
                0 <= j < i ==> (#[trigger] pending@[j]).path@ == all[j] && pending@[j].covered
                    == covered(pending@[j].path@, test_dir@, trust),
        decreases n - i,
    {
        let path = slice_to_vec(paths[i].as_slice());
        assert(path@ == all[i as int]);
        let covered = is_covered(path.as_slice(), test_dir, trust);
        pending.push(PendingPath { path, covered });
        i += 1;
    }
    pending
}

/// Judges each pending file. A file that the validated directory covers is safe as it
/// is. For any other, `canonical` holds at its place the canonical form of its path, or
/// `None` where it has none; what is missing at the end counts as `None`.
pub fn judge(
    pending: &Vec<PendingPath>,
    canonical: &Vec<Option<Vec<u8>>>,
    test_dir: &[u8],
    trust: TrustLevel,
    git_install_dir: Option<&[u8]>,
    home: Option<&[u8]>,
    safe_dirs: &Vec<Vec<u8>>,
) -> (r: Vec<Judgement>)
    ensures
        r@.len() == pending@.len(),
        forall|i: int|
            0 <= i < r@.len() ==> (#[trigger] r@[i]).path@ == pending@[i].path@ && is_verdict(
                r@[i].safe,
                r@[i].path@,
                canonical_at(canonical@, i),
                test_dir@,
                trust,
                strings_view(*safe_dirs),
                borrowed_view(git_install_dir),
                borrowed_view(home),
            ),
        all_fixed(strings_view(*safe_dirs)) ==> forall|i: int|
            0 <= i < r@.len() ==> (#[trigger] r@[i]).safe == fixed_verdict(
                r@[i].path@,
                canonical_at(canonical@, i),
                test_dir@,
                trust,
                strings_view(*safe_dirs),
                borrowed_view(git_install_dir),
                borrowed_view(home),
            ),
{
    let mut judgements: Vec<Judgement> = Vec::new();
    let mut i: usize = 0;
    while i < pending.len()
        invariant
            i <= pending@.len(),
            judgements@.len() == i,
            forall|k: int|
                0 <= k < i ==> (#[trigger] judgements@[k]).path@ == pending@[k].path@
                    && is_verdict(
                    judgements@[k].safe,
                    judgements@[k].path@,
                    canonical_at(canonical@, k),
                    test_dir@,
                    trust,
                    strings_view(*safe_dirs),
                    borrowed_view(git_install_dir),
                    borrowed_view(home),
                ),
            all_fixed(strings_view(*safe_dirs)) ==> forall|k: int|
                0 <= k < i ==> (#[trigger] judgements@[k]).safe == fixed_verdict(
                    judgements@[k].path@,
                    canonical_at(canonical@, k),
                    test_dir@,
                    trust,
                    strings_view(*safe_dirs),
                    borrowed_view(git_install_dir),
                    borrowed_view(home),
                ),
        decreases pending@.len() - i,
    {
        let path = slice_to_vec(pending[i].path.as_slice());
        let safe = if is_covered(path.as_slice(), test_dir, trust) {
            true
        } else {
            let form: Option<&[u8]> = if i < canonical.len() {
                match &canonical[i] {
                    Some(c) => Some(c.as_slice()),
                    None => None,
                }
            } else {
                None
            };
            check_safe_directories(path.as_slice(), form, git_install_dir, home, safe_dirs).is_ok()
        };
        judgements.push(Judgement { path, safe });
        i += 1;
    }
    judgements
}

fn found_safe(judgements: &Vec<Judgement>, path: &[u8]) -> (r: bool)
    ensures
        r == safe_paths(judgements@).contains(path@),
{
    let mut i: usize = 0;
    while i < judgements.len()
        invariant
            i <= judgements@.len(),
            forall|j: int|
                0 <= j < i ==> !((#[trigger] judgements@[j]).path@ == path@ && judgements@[j].safe),
        decreases judgements@.len() - i,
    {
        if judgements[i].safe && bytes_equal(judgements[i].path.as_slice(), path) {
            return true;
        }
        i += 1;
    }
    false
}

/// Raises to full trust every judged section whose file was found safe. The
/// configuration is taken and handed back, so that nobody else holds it meanwhile.
pub fn elevate(config: Config, judgements: &Vec<Judgement>) -> (r: Config)
    ensures
        r@ == elevated(config@, safe_paths(judgements@)),
{
    let mut config = config;
    let ghost initial = config@;
    let ghost safe = safe_paths(judgements@);
    let n = config.sections.len();
    let mut i: usize = 0;
    while i < n
        invariant
            i <= n,
            n == config.sections@.len(),
            initial.len() == n,
            safe == safe_paths(judgements@),
            forall|j: int|
                0 <= j < i ==> (#[trigger] config@[j]) == elevated_section(initial[j], safe),
            forall|j: int| i <= j < n ==> (#[trigger] config@[j]) == initial[j],
        decreases n - i,
    {
        let raise = config.sections[i].is_eligible() && match &config.sections[i].origin_path {
            Some(path) => found_safe(judgements, path.as_slice()),
            None => false,
        };
        if raise {
            let ghost before = config@;
            config.sections[i].trust = TrustLevel::Full;
            assert(config@[i as int] == (ConfigSectionView {
                trust: TrustLevel::Full,
                ..before[i as int]
            }));
            assert forall|j: int| 0 <= j < n && j != i implies #[trigger] config@[j]
                == before[j] by {}
        }
        i += 1;
    }
    assert(config@ =~= elevated(initial, safe));
    config
}

/// Judging twice changes nothing more: a configuration that was elevated for a set of
/// safe files is left as it is by elevating it for the same files again.
pub proof fn law_elevation_is_idempotent(config: Seq<ConfigSectionView>, safe: Set<Seq<u8>>)
    ensures
        elevated(elevated(config, safe), safe) == elevated(config, safe),
{
    assert(elevated(elevated(config, safe), safe) =~= elevated(config, safe));
}

/// A later pass that finds no file safe that the first pass did not find safe changes
/// nothing: the sections that the first pass raised are no longer judged, and the others
/// are judged as before.
pub proof fn law_later_pass_changes_nothing(
    config: Seq<ConfigSectionView>,
    first: Set<Seq<u8>>,
    later: Set<Seq<u8>>,
)
    requires
        later.subset_of(first),
    ensures
        elevated(elevated(config, first), later) == elevated(config, first),
{
    assert(elevated(elevated(config, first), later) =~= elevated(config, first));
}

/// The files to judge are listed once each, and they are exactly the files of the
/// sections that are judged.
pub proof fn law_each_file_is_judged_once(config: Seq<ConfigSectionView>, n: int)
    requires
        0 <= n <= config.len(),
    ensures
        judged_paths_below(config, n).no_duplicates(),
        forall|path: Seq<u8>|
            judged_paths_below(config, n).contains(path) <==> exists|k: int|
                0 <= k < n && eligible(#[trigger] config[k]) && config[k].origin_path == Some(
                    path,
                ),
    decreases n,
{
    if n > 0 {
        law_each_file_is_judged_once(config, n - 1);
        let before = judged_paths_below(config, n - 1);
        let now = judged_paths_below(config, n);
        let section = config[n - 1];
        assert forall|path: Seq<u8>| now.contains(path) <==> exists|k: int|
            0 <= k < n && eligible(#[trigger] config[k]) && config[k].origin_path == Some(
                path,
            ) by {
            if now.contains(path) {
                if before.contains(path) {
                    let k = choose|k: int|
                        0 <= k < n - 1 && eligible(#[trigger] config[k]) && config[k].origin_path
                            == Some(path);
                    assert(0 <= k < n && eligible(config[k]));
                } else {
                    let j = choose|j: int| 0 <= j < now.len() && now[j] == path;
                    assert(now != before);
                    if j < before.len() {
                        assert(before[j] == path);
                    }
                    assert(path == section.origin_path.unwrap());
                    assert(eligible(config[n - 1]));
                }
            }
            if exists|k: int|
                0 <= k < n && eligible(#[trigger] config[k]) && config[k].origin_path == Some(
                    path,
                ) {
                let k = choose|k: int|
                    0 <= k < n && eligible(#[trigger] config[k]) && config[k].origin_path == Some(
                        path,
                    );
                if k < n - 1 {
                    assert(before.contains(path));
                    let j = choose|j: int| 0 <= j < before.len() && before[j] == path;
                    assert(now[j] == path);
                } else {
                    if before.contains(path) {
                        let j = choose|j: int| 0 <= j < before.len() && before[j] == path;
                        assert(now[j] == path);
                    } else {
                        assert(now == before.push(path));
                        assert(now[before.len() as int] == path);
                    }
                }
            }
        }
    }
}

/// After an elevation no file that was found safe is judged again: the files that a
/// second pass would judge are those of the first pass that were not found safe.
pub proof fn law_safe_files_are_not_judged_again(
    config: Seq<ConfigSectionView>,
    safe: Set<Seq<u8>>,
    path: Seq<u8>,
)
    ensures
        judged_paths(elevated(config, safe)).contains(path) <==> judged_paths(config).contains(
            path,
        ) && !safe.contains(path),
{
    let after = elevated(config, safe);
    law_each_file_is_judged_once(config, config.len() as int);
    law_each_file_is_judged_once(after, after.len() as int);
    if judged_paths(after).contains(path) {
        let k = choose|k: int|
            0 <= k < after.len() && eligible(#[trigger] after[k]) && after[k].origin_path == Some(
                path,
            );
        assert(after[k] == elevated_section(config[k], safe));
        assert(eligible(config[k]) && config[k].origin_path == Some(path));
    }
    if judged_paths(config).contains(path) && !safe.contains(path) {
        let k = choose|k: int|
            0 <= k < config.len() && eligible(#[trigger] config[k]) && config[k].origin_path
                == Some(path);
        assert(after[k] == elevated_section(config[k], safe));
        assert(eligible(after[k]) && after[k].origin_path == Some(path));
    }
}

} // verus!
