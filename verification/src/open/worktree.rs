//! Where the work tree of a repository is: what `core.worktree` says, and what the name
//! of the git directory and `core.bare` imply where it says nothing.
use vstd::prelude::*;
use vstd::slice::slice_to_vec;
use crate::bytes::{borrowed_view, bytes_equal, DOT, option_view};
use crate::open::config::{
    deciding_section, section_value, Config, ConfigKey, ConfigSection, ConfigSectionView,
    ConfigSourceKind, SectionFilter,
};
use crate::open::error::{ConfigError, Error};
use crate::open::path::{
    dot_git, ends_with_bytes, has_suffix, interpolate, interpolation_allows, join,
    machine_dependent, normalize, parent, parts, parts_start_with, path_interpolated,
    path_joined, path_normalized, path_parent, path_parts, starts_with,
};

verus! {

/// What a configured boolean reads as, or `None` where it is none.
pub uninterp spec fn config_boolean(value: Seq<u8>) -> Option<bool>;

/// `gix_config::Boolean::try_from`: reads `yes`, `on`, `true`, `no`, `off`, `false`, the
/// empty value and numbers as git does.
#[verifier::external_body]
pub(crate) fn parse_boolean(value: &[u8]) -> (r: Option<bool>)
    ensures
        r == config_boolean(value@),
{
    gix_config::Boolean::try_from(bstr::BStr::new(value)).ok().map(|b| b.is_true())
}

/// Whether the last component of a path is `.git`.
pub open spec fn named_dot_git(path: Seq<u8>) -> bool {
    &&& path_parts(path) is Some
    &&& path_parts(path).unwrap().len() > 0
    &&& path_parts(path).unwrap().last() == dot_git()
}

/// Whether a path looks like a git directory by its name alone: its last component is
/// `.git` or ends in `.git`.
pub open spec fn named_like_git_dir(path: Seq<u8>) -> bool {
    &&& path_parts(path) is Some
    &&& path_parts(path).unwrap().len() > 0
    &&& ends_with_bytes(path_parts(path).unwrap().last(), dot_git())
}

/// Whether the file of a section lies in the repository at `git_dir`: the section came
/// from a file, and the file's path, normalized against the current directory, lies at
/// or below `git_dir`. This leaves out what belongs to another repository nested in
/// this one, such as a submodule.
pub open spec fn in_repository(
    section: ConfigSectionView,
    git_dir: Seq<u8>,
    current_dir: Seq<u8>,
) -> bool {
    &&& section.origin_path is Some
    &&& path_normalized(section.origin_path.unwrap(), current_dir) is Some
    &&& path_parts(path_normalized(section.origin_path.unwrap(), current_dir).unwrap()) is Some
    &&& path_parts(git_dir) is Some
    &&& parts_start_with(
        path_parts(path_normalized(section.origin_path.unwrap(), current_dir).unwrap()).unwrap(),
        path_parts(git_dir).unwrap(),
    )
}

/// For each section, whether it may set the work tree: the caller's filter passes it and
/// its file lies in the repository.
pub open spec fn worktree_sections(
    config: Seq<ConfigSectionView>,
    filter: SectionFilter,
    git_dir: Seq<u8>,
    current_dir: Seq<u8>,
) -> Seq<bool> {
    Seq::new(
        config.len(),
        |i: int| filter.accepts(config[i]) && in_repository(config[i], git_dir, current_dir),
    )
}

/// For each section, whether the caller's filter passes it.
pub open spec fn filtered_sections(
    config: Seq<ConfigSectionView>,
    filter: SectionFilter,
) -> Seq<bool> {
    Seq::new(config.len(), |i: int| filter.accepts(config[i]))
}

/// Where a configured work tree lies. A value that the process supplied is taken as it
/// stands; a value from a file is relative to the git directory. Either is then
/// normalized against the current directory.
pub open spec fn placed_worktree(
    kind: ConfigSourceKind,
    value: Seq<u8>,
    git_dir: Seq<u8>,
    current_dir: Seq<u8>,
) -> Option<Seq<u8>> {
    if kind.process_supplied() {
        path_normalized(value, current_dir)
    } else {
        match path_joined(git_dir, value) {
            Some(joined) => path_normalized(joined, current_dir),
            None => None,
        }
    }
}

/// Places a work tree whose configured value was interpolated to `interpolated`, or
/// could not be interpolated where that is `None`: the latter is an error that holds the
/// value as configured.
pub fn place_worktree(
    kind: ConfigSourceKind,
    configured: &[u8],
    interpolated: Option<Vec<u8>>,
    git_dir: &[u8],
    current_dir: &[u8],
) -> (r: Result<Option<Vec<u8>>, Error>)
    ensures
        match interpolated {
            Some(value) => match r {
                Ok(worktree) => option_view(worktree) == placed_worktree(
                    kind,
                    value@,
                    git_dir@,
                    current_dir@,
                ),
                Err(_) => false,
            },
            None => match r {
                Err(Error::Config(ConfigError::PathInterpolation { path })) => path@
                    == configured@,
                _ => false,
            },
        },
{
    match interpolated {
        None => Err(
            Error::Config(ConfigError::PathInterpolation { path: slice_to_vec(configured) }),
        ),
        Some(value) => {
            if kind.is_process_supplied() {
                Ok(normalize(value.as_slice(), current_dir))
            } else {
                match join(git_dir, value.as_slice()) {
                    Some(joined) => Ok(normalize(joined.as_slice(), current_dir)),
                    None => Ok(None),
                }
            }
        },
    }
}

/// The same value gives the work tree as it stands where an override of the environment
/// supplied it, and joined onto the git directory where the local configuration file
/// did; both are normalized against the current directory.
pub proof fn law_worktree_placement(value: Seq<u8>, git_dir: Seq<u8>, current_dir: Seq<u8>)
    ensures
        placed_worktree(ConfigSourceKind::EnvOverride, value, git_dir, current_dir)
            == path_normalized(value, current_dir),
        path_joined(git_dir, value) is Some ==> placed_worktree(
            ConfigSourceKind::Local,
            value,
            git_dir,
            current_dir,
        ) == path_normalized(path_joined(git_dir, value).unwrap(), current_dir),
{
}

/// What was decided about `core.worktree` before any path is computed.
pub enum WorktreeDecision {
    /// The section at this index sets the work tree.
    Override(int),
    /// No section sets it, but one names the key while settings are strict.
    Refused,
    /// Nothing is configured: the work tree stays as it was discovered.
    Unchanged,
}

/// Decides about `core.worktree`: the last section that may set the work tree and holds
/// a value for it wins. Without one, strict settings refuse a configuration in which any
/// section that the filter passes names the key.
pub open spec fn worktree_decision(
    config: Seq<ConfigSectionView>,
    filter: SectionFilter,
    git_dir: Seq<u8>,
    current_dir: Seq<u8>,
    lenient: bool,
) -> WorktreeDecision {
    match deciding_section(
        config,
        ConfigKey::CoreWorktree,
        worktree_sections(config, filter, git_dir, current_dir),
        true,
    ) {
        Some(i) => WorktreeDecision::Override(i),
        None => if !lenient && deciding_section(
            config,
            ConfigKey::CoreWorktree,
            filtered_sections(config, filter),
            false,
        ) is Some {
            WorktreeDecision::Refused
        } else {
            WorktreeDecision::Unchanged
        },
    }
}

/// Whether the file of `section` lies in the repository at `git_dir`.
pub fn is_in_repository(section: &ConfigSection, git_dir: &[u8], current_dir: &[u8]) -> (r: bool)
    ensures
        r == in_repository(section@, git_dir@, current_dir@),
{
    match &section.origin_path {
        None => false,
        Some(origin) => match normalize(origin.as_slice(), current_dir) {
            None => false,
            Some(normalized) => match (parts(normalized.as_slice()), parts(git_dir)) {
                (Some(p), Some(g)) => starts_with(&p, &g),
                _ => false,
            },
        },
    }
}

fn worktree_mask(config: &Config, filter: &SectionFilter, git_dir: &[u8], current_dir: &[u8]) -> (r:
    Vec<bool>)
    ensures
        r@ == worktree_sections(config@, *filter, git_dir@, current_dir@),
{
    let mut mask: Vec<bool> = Vec::new();
    let mut i: usize = 0;
    while i < config.sections.len()
        invariant
            i <= config.sections@.len(),
            mask@.len() == i,
            forall|j: int|
                0 <= j < i ==> mask@[j] == (filter.accepts(#[trigger] config@[j]) && in_repository(
                    config@[j],
                    git_dir@,
                    current_dir@,
                )),
        decreases config.sections@.len() - i,
    {
        let section = &config.sections[i];
        mask.push(filter.is_accepted(section) && is_in_repository(section, git_dir, current_dir));
        i += 1;
    }
    assert(mask@ =~= worktree_sections(config@, *filter, git_dir@, current_dir@));
    mask
}

/// What comes of resolving the work tree.
pub enum Resolution {
    /// The work tree, or none.
    Path(Option<Seq<u8>>),
    /// The configured value, which could not be interpolated.
    Uninterpolated(Seq<u8>),
    /// The key is named while settings are strict, but no section may set the work tree.
    Refused,
}

/// The value of `core.worktree` that is interpolated, if a section sets the work tree.
pub open spec fn configured_worktree(
    config: Seq<ConfigSectionView>,
    filter: SectionFilter,
    git_dir: Seq<u8>,
    current_dir: Seq<u8>,
    lenient: bool,
) -> Option<Seq<u8>> {
    match worktree_decision(config, filter, git_dir, current_dir, lenient) {
        WorktreeDecision::Override(i) => Some(
            section_value(config[i], ConfigKey::CoreWorktree).unwrap().unwrap(),
        ),
        _ => None,
    }
}

/// What comes of resolving the work tree, given what came of interpolating the
/// configured value: `interpolated` is the interpolated path, or `None` where
/// interpolation failed. Where nothing is configured the work tree that discovery found
/// stays.
pub open spec fn worktree_resolution(
    config: Seq<ConfigSectionView>,
    filter: SectionFilter,
    git_dir: Seq<u8>,
    current_dir: Seq<u8>,
    lenient: bool,
    discovered: Option<Seq<u8>>,
    interpolated: Option<Seq<u8>>,
) -> Resolution {
    match worktree_decision(config, filter, git_dir, current_dir, lenient) {
        WorktreeDecision::Override(i) => match interpolated {
            Some(path) => Resolution::Path(
                placed_worktree(config[i].kind, path, git_dir, current_dir),
            ),
            None => Resolution::Uninterpolated(
                section_value(config[i], ConfigKey::CoreWorktree).unwrap().unwrap(),
            ),
        },
        WorktreeDecision::Refused => Resolution::Refused,
        WorktreeDecision::Unchanged => Resolution::Path(discovered),
    }
}

/// What a result of resolving the work tree says.
pub open spec fn resolution_of(r: Result<Option<Vec<u8>>, Error>) -> Option<Resolution> {
    match r {
        Ok(worktree) => Some(Resolution::Path(option_view(worktree))),
        Err(Error::Config(ConfigError::PathInterpolation { path })) => Some(
            Resolution::Uninterpolated(path@),
        ),
        Err(Error::Config(ConfigError::ConfigTypedString { key: ConfigKey::CoreWorktree })) => Some(
            Resolution::Refused,
        ),
        Err(_) => None,
    }
}

/// Whether `interpolated` can come of interpolating the configured work tree, if there
/// is one, with the two directories.
pub open spec fn worktree_interpolation(
    configured: Option<Seq<u8>>,
    install_dir: Option<Seq<u8>>,
    home: Option<Seq<u8>>,
    interpolated: Option<Seq<u8>>,
) -> bool {
    match configured {
        Some(value) => interpolation_allows(value, install_dir, home, interpolated),
        None => true,
    }
}

/// Whether the machine has no say in where the work tree is: nothing is configured, or
/// what is configured does not depend on the machine.
pub open spec fn worktree_is_fixed(configured: Option<Seq<u8>>) -> bool {
    match configured {
        Some(value) => !machine_dependent(value),
        None => true,
    }
}

/// What the configured work tree expands to where the machine has no say in it.
pub open spec fn fixed_interpolation(
    configured: Option<Seq<u8>>,
    install_dir: Option<Seq<u8>>,
    home: Option<Seq<u8>>,
) -> Option<Seq<u8>> {
    match configured {
        Some(value) => path_interpolated(value, install_dir, home),
        None => None,
    }
}

/// Resolves the work tree of a repository that is not known to be bare. `discovered` is
/// the work tree that discovery found, which stays where nothing is configured.
///
/// Where a section sets the work tree, its value is interpolated with the two
/// directories and [`place_worktree`] places what comes of it.
pub fn resolve_worktree(
    config: &Config,
    filter: &SectionFilter,
    git_dir: &[u8],
    current_dir: &[u8],
    git_install_dir: Option<&[u8]>,
    home: Option<&[u8]>,
    lenient: bool,
    discovered: Option<Vec<u8>>,
) -> (r: Result<Option<Vec<u8>>, Error>)
    ensures
        exists|interpolated: Option<Seq<u8>>|
            #[trigger] worktree_interpolation(
                configured_worktree(config@, *filter, git_dir@, current_dir@, lenient),
                borrowed_view(git_install_dir),
                borrowed_view(home),
                interpolated,
            ) && resolution_of(r) == Some(
                worktree_resolution(
                    config@,
                    *filter,
                    git_dir@,
                    current_dir@,
                    lenient,
                    option_view(discovered),
                    interpolated,
                ),
            ),
        worktree_is_fixed(configured_worktree(config@, *filter, git_dir@, current_dir@, lenient))
            ==> resolution_of(r) == Some(
            worktree_resolution(
                config@,
                *filter,
                git_dir@,
                current_dir@,
                lenient,
                option_view(discovered),
                fixed_interpolation(
                    configured_worktree(config@, *filter, git_dir@, current_dir@, lenient),
                    borrowed_view(git_install_dir),
                    borrowed_view(home),
                ),
            ),
        ),
{
    let mask = worktree_mask(config, filter, git_dir, current_dir);
    match config.deciding_value(ConfigKey::CoreWorktree, &mask) {
        Some((i, value)) => {
            let interpolated = interpolate(value.as_slice(), git_install_dir, home);
            let ghost outcome = option_view(interpolated);
            let r = place_worktree(
                config.sections[i].kind,
                value.as_slice(),
                interpolated,
                git_dir,
                current_dir,
            );
            proof {
                let configured = configured_worktree(
                    config@,
                    *filter,
                    git_dir@,
                    current_dir@,
                    lenient,
                );
                assert(configured == Some(value@));
                assert(worktree_interpolation(
                    configured,
                    borrowed_view(git_install_dir),
                    borrowed_view(home),
                    outcome,
                ));
            }
            r
        },
        None => {
            let plain = filter.mask(config);
            assert(plain@ =~= filtered_sections(config@, *filter));
            proof {
                assert(worktree_interpolation(
                    configured_worktree(config@, *filter, git_dir@, current_dir@, lenient),
                    borrowed_view(git_install_dir),
                    borrowed_view(home),
                    None,
                ));
            }
            if !lenient && config.deciding(ConfigKey::CoreWorktree, &plain, false).is_some() {
                Err(Error::Config(ConfigError::ConfigTypedString { key: ConfigKey::CoreWorktree }))
            } else {
                Ok(discovered)
            }
        },
    }
}

/// For each section, whether it came from the local configuration file.
pub open spec fn local_sections(config: Seq<ConfigSectionView>) -> Seq<bool> {
    Seq::new(config.len(), |i: int| config[i].kind == ConfigSourceKind::Local)
}

/// Whether the local configuration file holds a `core.bare` that reads as a boolean.
pub open spec fn local_bare_is_set(config: Seq<ConfigSectionView>) -> bool {
    match deciding_section(config, ConfigKey::CoreBare, local_sections(config), false) {
        Some(i) => match section_value(config[i], ConfigKey::CoreBare) {
            Some(Some(value)) => config_boolean(value) is Some,
            _ => true,
        },
        None => false,
    }
}

/// The work tree once the name of the git directory and `core.bare` had their say.
/// Without a work tree, a repository that is not bare and whose git directory is named
/// `.git` has its work tree in the directory that holds the git directory. With one, a
/// repository that is bare by its local configuration, and whose git directory is named
/// `.git`, has none after all.
pub open spec fn reconciled_worktree(
    worktree: Option<Seq<u8>>,
    git_dir: Seq<u8>,
    is_bare: bool,
    config: Seq<ConfigSectionView>,
) -> Option<Seq<u8>> {
    match worktree {
        None => if !is_bare && named_dot_git(git_dir) {
            path_parent(git_dir)
        } else {
            None
        },
        Some(w) => if named_dot_git(git_dir) && local_bare_is_set(config) && is_bare {
            None
        } else {
            Some(w)
        },
    }
}

/// A repository that is not bare and was found without a work tree has its work tree
/// in the directory that holds its git directory, where that is named `.git`; and a
/// work tree that is there stays, unless the local configuration says that the
/// repository is bare.
pub proof fn law_worktree_is_inferred(
    git_dir: Seq<u8>,
    worktree: Seq<u8>,
    config: Seq<ConfigSectionView>,
)
    requires
        named_dot_git(git_dir),
    ensures
        reconciled_worktree(None, git_dir, false, config) == path_parent(git_dir),
        reconciled_worktree(Some(worktree), git_dir, false, config) == Some(worktree),
        reconciled_worktree(None, git_dir, true, config) is None,
{
}

/// Whether the last component of `path` is `.git`.
pub fn is_named_dot_git(path: &[u8]) -> (r: bool)
    ensures
        r == named_dot_git(path@),
{
    match parts(path) {
        Some(p) => {
            let n = p.len();
            if n == 0 {
                return false;
            }
            let name: [u8; 4] = [DOT, 103u8, 105u8, 116u8];
            assert(name@ =~= dot_git());
            bytes_equal(p[n - 1].as_slice(), name.as_slice())
        },
        None => false,
    }
}

/// Whether the last component of `path` is `.git` or ends in `.git`.
pub fn is_named_like_git_dir(path: &[u8]) -> (r: bool)
    ensures
        r == named_like_git_dir(path@),
{
    match parts(path) {
        Some(p) => {
            let n = p.len();
            if n == 0 {
                return false;
            }
            let name: [u8; 4] = [DOT, 103u8, 105u8, 116u8];
            assert(name@ =~= dot_git());
            has_suffix(p[n - 1].as_slice(), name.as_slice())
        },
        None => false,
    }
}

fn is_local_bare_set(config: &Config) -> (r: bool)
    ensures
        r == local_bare_is_set(config@),
{
    let mut mask: Vec<bool> = Vec::new();
    let mut i: usize = 0;
    while i < config.sections.len()
        invariant
            i <= config.sections@.len(),
            mask@.len() == i,
            forall|j: int|
                0 <= j < i ==> mask@[j] == ((#[trigger] config@[j]).kind
                    == ConfigSourceKind::Local),
        decreases config.sections@.len() - i,
    {
        mask.push(config.sections[i].kind == ConfigSourceKind::Local);
        i += 1;
    }
    assert(mask@ =~= local_sections(config@));
    match config.deciding_entry(ConfigKey::CoreBare, &mask) {
        Some(Some(value)) => parse_boolean(value.as_slice()).is_some(),
        Some(None) => true,
        None => false,
    }
}

/// Lets the name of the git directory and `core.bare` have their say on the work tree.
pub fn reconcile_worktree(
    worktree: Option<Vec<u8>>,
    git_dir: &[u8],
    is_bare: bool,
    config: &Config,
) -> (r: Option<Vec<u8>>)
    ensures
        option_view(r) == reconciled_worktree(option_view(worktree), git_dir@, is_bare, config@),
        worktree is None && !is_bare && named_dot_git(git_dir@) ==> r is Some && path_parts(
            r.unwrap()@,
        ) == Some(path_parts(git_dir@).unwrap().drop_last()),
{
    match worktree {
        None => {
            if !is_bare && is_named_dot_git(git_dir) {
                parent(git_dir)
            } else {
                None
            }
        },
        Some(w) => {
            if is_named_dot_git(git_dir) && is_local_bare_set(config) && is_bare {
                None
            } else {
                Some(w)
            }
        },
    }
}

} // verus!
