//! The steps of an open, in their order. Each step takes what an outside service
//! answered, decides, and names the service to ask next.
use vstd::prelude::*;
use vstd::slice::slice_to_vec;
use crate::bytes::{
    borrow_option, bytes_equal, copy_option, copy_strings, option_view, STAR, strings_view,
};
use crate::hash::HashKind;
use crate::open::config::{Config, ConfigKey, ConfigSectionView, SectionFilter, TrustLevel};
use crate::open::error::{ConfigError, Error, Failure};
use crate::open::path::{dot_git, join, path_joined, path_parts, path_precomposed, precompose};
use crate::open::replace::{
    is_relative_path, pairs_view, references_view, replacement_objects_refs_prefix,
    replacement_prefix, replacements, replacements_below, valid_relative_path, Reference,
};
use crate::open::repository::{
    derived_directories, directories, first_candidate, reflog_or_default, reflog_policy,
    reviewed_directory, reviewed_trust, safe_directories, safe_directory_list,
    trust_of_ownership, EnvironmentOverrides, LoadedConfig, LoadRequest, ObjectStoreOptions,
    Options, Permission, RefStoreOptions, StageOne, ThreadSafeRepository, TrustMapping,
    WriteReflog,
};
use crate::open::safe_directory::{
    all_fixed, check_safe_directories, fixed_entries, interpolations_of, is_safe_directory,
    law_wildcard_alone_and_no_entries, resolved_entries, tested_path,
};
use crate::open::trust::{
    canonical_at, covered, elevate, elevated, fixed_verdict, is_verdict, judge, judged_paths,
    pending_paths, safe_paths, Judgement, PendingPath,
};
use crate::open::worktree::{
    configured_worktree, fixed_interpolation, is_named_like_git_dir, reconcile_worktree,
    reconciled_worktree, resolution_of, resolve_worktree, worktree_interpolation,
    worktree_is_fixed, worktree_resolution, Resolution,
};

verus! {

/// What an open waits for.
#[derive(Clone, Copy, PartialEq, Eq, Debug, Structural)]
pub enum Phase {
    /// Whether the candidate is a git directory.
    Probing,
    /// The current directory.
    CurrentDir,
    /// Whether the current user owns the git directory.
    GitDirOwnership,
    /// What the `commondir` file of the git directory holds.
    CommonDir,
    /// The values that must be known before the configuration is loaded.
    StageOne,
    /// The install directory of git and the home directory.
    Environment,
    /// The cascaded configuration.
    Config,
    /// Whether the current user owns the work tree.
    WorktreeOwnership,
    /// The canonical form of the directory whose safety is reviewed.
    TestDirCanonical,
    /// The canonical forms of the configuration files that are judged.
    FileCanonicals,
    /// The references under the prefix of replacements.
    References,
    /// Nothing: the open has ended.
    Done,
}

/// What is asked of the outside.
pub enum Action {
    /// Classify `path` as a git directory.
    Probe { path: Vec<u8> },
    /// Tell the current directory.
    QueryCurrentDir,
    /// Tell whether the current user owns `path`.
    QueryOwnership { path: Vec<u8> },
    /// Read the `commondir` file of `git_dir`, if there is one.
    ReadCommonDir { git_dir: Vec<u8> },
    /// Read from the configuration at `config_dir` what is needed first, leniently.
    LoadStageOne {
        config_dir: Vec<u8>,
        git_dir: Vec<u8>,
        trust: TrustLevel,
        lossy: Option<bool>,
        lenient: bool,
    },
    /// Tell where git is installed and where the home directory is.
    QueryEnvironment,
    /// Load the cascaded configuration.
    LoadConfig(LoadRequest),
    /// Resolve the symbolic links of `path`.
    Canonicalize { path: Vec<u8> },
    /// Resolve the symbolic links of each file that is not covered.
    CanonicalizeFiles { files: Vec<PendingPath> },
    /// List the references under `prefix`.
    ListReferences { prefix: Vec<u8> },
    /// The repository is open.
    Finish(ThreadSafeRepository),
    /// The repository cannot be opened.
    Fail(Error),
}

/// What the outside answers.
pub enum Event {
    Probed(Result<gix_discover::repository::Kind, Failure>),
    CurrentDir(Result<Vec<u8>, Failure>),
    Ownership(Result<bool, Failure>),
    CommonDir(Result<Option<Vec<u8>>, Failure>),
    StageOne(Result<StageOne, Error>),
    Environment { git_install_dir: Option<Vec<u8>>, home: Option<Vec<u8>> },
    Config(Result<LoadedConfig, Error>),
    Canonical(Option<Vec<u8>>),
    CanonicalFiles(Vec<Option<Vec<u8>>>),
    /// The references, or `None` where they cannot be listed.
    References(Option<Vec<Reference>>),
}

/// An open under way.
pub struct Opening {
    pub phase: Phase,
    pub options: Options,
    /// The options to go on with should the git directory turn out not to be owned by
    /// the current user, where the caller gave options by trust.
    pub reduced_options: Option<Options>,
    /// The path that the caller named.
    pub path: Vec<u8>,
    /// The path that is or was probed.
    pub candidate: Vec<u8>,
    /// Whether the path itself is probed should the candidate be no git directory.
    pub may_probe_again: bool,
    /// The work tree that the environment names.
    pub override_worktree: Option<Vec<u8>>,
    pub kind: Option<gix_discover::repository::Kind>,
    pub current_dir: Vec<u8>,
    pub git_dir: Vec<u8>,
    pub common_dir: Option<Vec<u8>>,
    pub worktree_dir: Option<Vec<u8>>,
    pub trust: TrustLevel,
    pub stage_one: Option<StageOne>,
    pub git_install_dir: Option<Vec<u8>>,
    pub home: Option<Vec<u8>>,
    pub loaded: Option<LoadedConfig>,
    /// The directory whose safety is reviewed.
    pub test_dir: Vec<u8>,
    pub safe_dirs: Vec<Vec<u8>>,
    pub pending: Vec<PendingPath>,
    pub prefix: Vec<u8>,
}

impl Opening {
    /// What must be known at each phase.
    pub open spec fn wf(&self) -> bool {
        &&& self.phase == Phase::CurrentDir ==> self.kind is Some
        &&& (self.phase == Phase::Environment || self.phase == Phase::Config)
            ==> self.stage_one is Some
        &&& (self.phase == Phase::WorktreeOwnership || self.phase == Phase::TestDirCanonical
            || self.phase == Phase::FileCanonicals || self.phase == Phase::References)
            ==> self.stage_one is Some && self.loaded is Some
    }

    /// Whether `event` answers what the open waits for.
    pub open spec fn accepts(&self, event: Event) -> bool {
        match event {
            Event::Probed(_) => self.phase == Phase::Probing,
            Event::CurrentDir(_) => self.phase == Phase::CurrentDir,
            Event::Ownership(_) => self.phase == Phase::GitDirOwnership || self.phase
                == Phase::WorktreeOwnership,
            Event::CommonDir(_) => self.phase == Phase::CommonDir,
            Event::StageOne(_) => self.phase == Phase::StageOne,
            Event::Environment { .. } => self.phase == Phase::Environment,
            Event::Config(_) => self.phase == Phase::Config,
            Event::Canonical(_) => self.phase == Phase::TestDirCanonical,
            Event::CanonicalFiles(_) => self.phase == Phase::FileCanonicals,
            Event::References(_) => self.phase == Phase::References,
        }
    }

    /// Whether `event` answers what the open waits for.
    pub fn is_expected(&self, event: &Event) -> (r: bool)
        ensures
            r == self.accepts(*event),
    {
        match event {
            Event::Probed(_) => self.phase == Phase::Probing,
            Event::CurrentDir(_) => self.phase == Phase::CurrentDir,
            Event::Ownership(_) => self.phase == Phase::GitDirOwnership || self.phase
                == Phase::WorktreeOwnership,
            Event::CommonDir(_) => self.phase == Phase::CommonDir,
            Event::StageOne(_) => self.phase == Phase::StageOne,
            Event::Environment { .. } => self.phase == Phase::Environment,
            Event::Config(_) => self.phase == Phase::Config,
            Event::Canonical(_) => self.phase == Phase::TestDirCanonical,
            Event::CanonicalFiles(_) => self.phase == Phase::FileCanonicals,
            Event::References(_) => self.phase == Phase::References,
        }
    }

    /// Whether this is the state in which an open begins: a path is about to be probed
    /// and nothing is known yet.
    pub open spec fn begins(
        self,
        options: Options,
        reduced_options: Option<Options>,
        path: Vec<u8>,
        override_worktree: Option<Vec<u8>>,
    ) -> bool {
        &&& self.phase == Phase::Probing
        &&& self.options == options
        &&& self.reduced_options == reduced_options
        &&& self.path == path
        &&& self.override_worktree == override_worktree
        &&& self.kind is None
        &&& self.current_dir@.len() == 0
        &&& self.git_dir@.len() == 0
        &&& self.common_dir is None
        &&& self.worktree_dir is None
        &&& self.trust == TrustLevel::Reduced
        &&& self.stage_one is None
        &&& self.git_install_dir is None
        &&& self.home is None
        &&& self.loaded is None
        &&& self.test_dir@.len() == 0
        &&& self.safe_dirs@.len() == 0
        &&& self.pending@.len() == 0
        &&& self.prefix@.len() == 0
    }

    fn begin(
        options: Options,
        reduced_options: Option<Options>,
        path: Vec<u8>,
        candidate: Vec<u8>,
        may_probe_again: bool,
        override_worktree: Option<Vec<u8>>,
    ) -> (r: Opening)
        ensures
            r.wf(),
            r.begins(options, reduced_options, path, override_worktree),
            r.candidate == candidate,
            r.may_probe_again == may_probe_again,
    {
        Opening {
            phase: Phase::Probing,
            options,
            reduced_options,
            path,
            candidate,
            may_probe_again,
            override_worktree,
            kind: None,
            current_dir: Vec::new(),
            git_dir: Vec::new(),
            common_dir: None,
            worktree_dir: None,
            trust: TrustLevel::Reduced,
            stage_one: None,
            git_install_dir: None,
            home: None,
            loaded: None,
            test_dir: Vec::new(),
            safe_dirs: Vec::new(),
            pending: Vec::new(),
            prefix: Vec::new(),
        }
    }

    fn fail(self, error: Error) -> (r: (Opening, Action))
        ensures
            r.0 == (Opening { phase: Phase::Done, ..self }),
            r.0.phase == Phase::Done,
            r.0.wf(),
            r.1 == Action::Fail(error),
    {
        let mut next = self;
        next.phase = Phase::Done;
        (next, Action::Fail(error))
    }
}

impl ThreadSafeRepository {
    /// Begins to open the repository at `path`, which may be a git directory or hold one
    /// named `.git`, with the options that are usual.
    pub fn open(path: Vec<u8>) -> (r: (Opening, Action))
        ensures
            r.0.wf(),
            r.0.options.is_usual(),
            r.0.begins(r.0.options, None, path, None),
            r.0.candidate@ == first_candidate(path@, false),
            r.0.may_probe_again == (r.0.candidate@ != path@),
            match r.1 {
                Action::Probe { path: probed } => probed@ == r.0.candidate@,
                _ => false,
            },
    {
        Self::open_opts(path, Options::default())
    }

    /// Begins to open the repository at `path` under `options`. The directory probed
    /// first is `.git` below `path`, unless `path` is to be taken as it is or is itself
    /// named like a git directory; only where `.git` below it is probed is `path` itself
    /// probed next, should the first probe fail.
    pub fn open_opts(path: Vec<u8>, options: Options) -> (r: (Opening, Action))
        ensures
            r.0.wf(),
            r.0.begins(options, None, path, None),
            r.0.candidate@ == first_candidate(path@, options.open_path_as_is),
            r.0.may_probe_again == (r.0.candidate@ != path@),
            match r.1 {
                Action::Probe { path: probed } => probed@ == r.0.candidate@,
                _ => false,
            },
    {
        let looks_like_git_dir = is_named_like_git_dir(path.as_slice());
        let name: [u8; 4] = [46u8, 103u8, 105u8, 116u8];
        assert(name@ =~= dot_git());
        let joined = if !options.open_path_as_is && !looks_like_git_dir {
            join(path.as_slice(), name.as_slice())
        } else {
            None
        };
        let (candidate, again) = match joined {
            Some(candidate) => {
                let again = !bytes_equal(candidate.as_slice(), path.as_slice());
                (candidate, again)
            },
            None => (slice_to_vec(path.as_slice()), false),
        };
        let probed = slice_to_vec(candidate.as_slice());
        let state = Opening::begin(options, None, path, candidate, again, None);
        (state, Action::Probe { path: probed })
    }

    /// Begins to open the repository that the environment names, or the one at
    /// `fallback_directory` where it names none. The directory is probed as it is and
    /// only once. The options are taken from `trust_map` by the trust that the ownership
    /// of the git directory gives.
    pub fn open_with_environment_overrides(
        fallback_directory: Vec<u8>,
        trust_map: TrustMapping,
        overrides: EnvironmentOverrides,
    ) -> (r: (Opening, Action))
        ensures
            r.0.wf(),
            r.0.begins(
                trust_map.full,
                Some(trust_map.reduced),
                match overrides.git_dir {
                    Some(git_dir) => git_dir,
                    None => fallback_directory,
                },
                overrides.worktree_dir,
            ),
            !r.0.may_probe_again,
            r.0.candidate@ == match overrides.git_dir {
                Some(git_dir) => git_dir@,
                None => fallback_directory@,
            },
            match r.1 {
                Action::Probe { path: probed } => probed@ == r.0.candidate@,
                _ => false,
            },
    {
        let EnvironmentOverrides { worktree_dir, git_dir } = overrides;
        let path = match git_dir {
            Some(git_dir) => git_dir,
            None => fallback_directory,
        };
        let candidate = slice_to_vec(path.as_slice());
        let probed = slice_to_vec(path.as_slice());
        let TrustMapping { full, reduced } = trust_map;
        (
            Opening::begin(full, Some(reduced), path, candidate, false, worktree_dir),
            Action::Probe { path: probed },
        )
    }
}

/// The filter that an open looks configuration up with: the caller's, or the one that
/// passes the fully trusted sections.
pub open spec fn effective_filter(options: Options) -> SectionFilter {
    match options.filter_config_section {
        Some(filter) => filter,
        None => SectionFilter { trusted_only: true, file_sections: true, process_sections: true },
    }
}

fn filter_of(options: &Options) -> (r: SectionFilter)
    ensures
        r == effective_filter(*options),
{
    match options.filter_config_section {
        Some(filter) => filter,
        None => SectionFilter::trusted(),
    }
}

fn precompose_option(path: Option<Vec<u8>>) -> (r: Option<Vec<u8>>)
    ensures
        option_view(r) == match path {
            Some(p) => Some(path_precomposed(p@)),
            None => None,
        },
{
    match path {
        Some(p) => Some(precompose(p.as_slice())),
        None => None,
    }
}

/// What holds of the step that is taken once a probe was answered. Nothing but what is
/// named changes in the state.
pub open spec fn after_probed(
    before: Opening,
    outcome: Result<gix_discover::repository::Kind, Failure>,
    r: (Opening, Action),
) -> bool {
    match outcome {
        Ok(kind) => {
            &&& r.0 == (Opening { phase: Phase::CurrentDir, kind: Some(kind), ..before })
            &&& r.1 == Action::QueryCurrentDir
        },
        Err(failure) => if before.may_probe_again {
            &&& r.0 == (Opening { may_probe_again: false, candidate: r.0.candidate, ..before })
            &&& r.0.candidate@ == before.path@
            &&& match r.1 {
                Action::Probe { path } => path@ == before.path@,
                _ => false,
            }
        } else {
            &&& r.0 == (Opening { phase: Phase::Done, candidate: r.0.candidate, ..before })
            &&& r.1 == Action::Fail(
                Error::NotARepository { path: before.candidate, source: failure },
            )
        },
    }
}

/// What holds of the step that is taken once the current directory was told. The open
/// fails exactly where no directories follow from what discovery found. Otherwise the
/// git directory is the one that follows, and the work tree is the one that follows or,
/// where none does, the one that the environment names.
pub open spec fn after_current_dir(
    before: Opening,
    outcome: Result<Vec<u8>, Failure>,
    r: (Opening, Action),
) -> bool {
    match outcome {
        Err(failure) => r.0 == (Opening { phase: Phase::Done, ..before }) && r.1 == Action::Fail(
            Error::Io(failure),
        ),
        Ok(current_dir) => match derived_directories(
            before.candidate@,
            before.kind.unwrap(),
            current_dir@,
        ) {
            None => r.0.phase == Phase::Done && match r.1 {
                Action::Fail(Error::NotARepository { path, source }) => path == before.candidate,
                _ => false,
            },
            Some((git_dir, worktree)) => {
                &&& r.0 == (Opening {
                    phase: r.0.phase,
                    kind: None,
                    git_dir: r.0.git_dir,
                    worktree_dir: r.0.worktree_dir,
                    current_dir,
                    trust: r.0.trust,
                    ..before
                })
                &&& r.0.git_dir@ == git_dir
                &&& option_view(r.0.worktree_dir) == match worktree {
                    Some(w) => Some(w),
                    None => option_view(before.override_worktree),
                }
                &&& if before.reduced_options is None && before.options.git_dir_trust is Some {
                    &&& r.0.phase == Phase::CommonDir
                    &&& Some(r.0.trust) == before.options.git_dir_trust
                    &&& match r.1 {
                        Action::ReadCommonDir { git_dir: asked } => asked@ == git_dir,
                        _ => false,
                    }
                } else {
                    &&& r.0.phase == Phase::GitDirOwnership
                    &&& r.0.trust == before.trust
                    &&& match r.1 {
                        Action::QueryOwnership { path } => path@ == git_dir,
                        _ => false,
                    }
                }
            },
        },
    }
}

/// The options that an open goes on with once the ownership of the git directory is
/// known: those for the trust that ownership gives where the caller gave options by
/// trust, and the caller's one set of options otherwise.
pub open spec fn chosen_options(before: Opening, owned: bool) -> Options {
    match before.reduced_options {
        Some(reduced) => if owned {
            before.options
        } else {
            reduced
        },
        None => before.options,
    }
}

/// The trust in the git directory once its ownership is known: full exactly if the
/// current user owns it, unless the options chosen by trust name another.
pub open spec fn trust_by_ownership(before: Opening, owned: bool) -> TrustLevel {
    match (before.reduced_options, chosen_options(before, owned).git_dir_trust) {
        (Some(_), Some(trust)) => trust,
        _ => trust_of_ownership(owned),
    }
}

/// What holds of the step that is taken once the ownership of the git directory was
/// told. The open goes on with the chosen options, which from here on name the trust.
pub open spec fn after_git_dir_ownership(
    before: Opening,
    outcome: Result<bool, Failure>,
    r: (Opening, Action),
) -> bool {
    match outcome {
        Err(failure) => r.0 == (Opening { phase: Phase::Done, ..before }) && r.1 == Action::Fail(
            Error::Io(failure),
        ),
        Ok(owned) => {
            &&& r.0 == (Opening {
                phase: Phase::CommonDir,
                trust: trust_by_ownership(before, owned),
                options: Options {
                    git_dir_trust: Some(trust_by_ownership(before, owned)),
                    ..chosen_options(before, owned)
                },
                reduced_options: None,
                ..before
            })
            &&& match r.1 {
                Action::ReadCommonDir { git_dir } => git_dir@ == before.git_dir@,
                _ => false,
            }
        },
    }
}

/// What holds of the step that is taken once the `commondir` file was read.
pub open spec fn after_common_dir(
    before: Opening,
    outcome: Result<Option<Vec<u8>>, Failure>,
    r: (Opening, Action),
) -> bool {
    match outcome {
        Err(failure) => r.0 == (Opening { phase: Phase::Done, ..before }) && r.1 == Action::Fail(
            Error::Io(failure),
        ),
        Ok(common) => {
            &&& r.0 == (Opening { phase: Phase::StageOne, common_dir: r.0.common_dir, ..before })
            &&& option_view(r.0.common_dir) == match common {
                Some(c) => path_joined(before.git_dir@, c@),
                None => None,
            }
            &&& match r.1 {
                Action::LoadStageOne { config_dir, git_dir, trust, lossy, lenient } => {
                    &&& config_dir@ == match r.0.common_dir {
                        Some(c) => c@,
                        None => before.git_dir@,
                    }
                    &&& git_dir@ == before.git_dir@
                    &&& trust == before.trust
                    &&& lossy == before.options.lossy_config
                    &&& lenient == before.options.lenient_config
                },
                _ => false,
            }
        },
    }
}

/// The path as it is where precomposed Unicode is asked for, and as it was otherwise.
pub open spec fn precomposed_if(precompose: bool, path: Seq<u8>) -> Seq<u8> {
    if precompose {
        path_precomposed(path)
    } else {
        path
    }
}

/// A path that may be missing, precomposed where that is asked for.
pub open spec fn precomposed_option_if(precompose: bool, path: Option<Vec<u8>>) -> Option<
    Seq<u8>,
> {
    match path {
        Some(p) => Some(precomposed_if(precompose, p@)),
        None => None,
    }
}

/// What holds of the step that is taken once the first look at the configuration was
/// taken.
pub open spec fn after_stage_one(
    before: Opening,
    outcome: Result<StageOne, Error>,
    r: (Opening, Action),
) -> bool {
    match outcome {
        Err(error) => r.0 == (Opening { phase: Phase::Done, ..before }) && r.1 == Action::Fail(
            error,
        ),
        Ok(stage_one) => {
            &&& r.0 == (Opening {
                phase: Phase::Environment,
                stage_one: Some(stage_one),
                git_dir: r.0.git_dir,
                current_dir: r.0.current_dir,
                common_dir: r.0.common_dir,
                worktree_dir: r.0.worktree_dir,
                ..before
            })
            &&& r.1 == Action::QueryEnvironment
            &&& r.0.git_dir@ == precomposed_if(stage_one.precompose_unicode, before.git_dir@)
            &&& r.0.current_dir@ == precomposed_if(
                stage_one.precompose_unicode,
                before.current_dir@,
            )
            &&& option_view(r.0.common_dir) == precomposed_option_if(
                stage_one.precompose_unicode,
                before.common_dir,
            )
            &&& option_view(r.0.worktree_dir) == precomposed_option_if(
                stage_one.precompose_unicode,
                before.worktree_dir,
            )
        },
    }
}

/// The home directory as far as the permissions let it be used.
pub open spec fn permitted_home(options: Options, home: Option<Vec<u8>>) -> Option<Vec<u8>> {
    if options.permissions.env.home == Permission::Allow {
        home
    } else {
        None
    }
}

/// What holds of the step that is taken once the environment was told.
pub open spec fn after_environment(
    before: Opening,
    git_install_dir: Option<Vec<u8>>,
    home: Option<Vec<u8>>,
    r: (Opening, Action),
) -> bool {
    &&& r.0 == (Opening {
        phase: Phase::Config,
        git_install_dir,
        home: permitted_home(before.options, home),
        ..before
    })
    &&& match r.1 {
        Action::LoadConfig(request) => {
            &&& request.git_dir@ == before.git_dir@
            &&& option_view(request.common_dir) == option_view(before.common_dir)
            &&& request.trust == before.trust
            &&& Some(request.stage_one) == before.stage_one
            &&& request.filter == effective_filter(before.options)
            &&& option_view(request.git_install_dir) == option_view(git_install_dir)
            &&& option_view(request.home) == option_view(r.0.home)
            &&& request.permissions == before.options.permissions
            &&& request.lenient == before.options.lenient_config
            &&& strings_view(request.api_config_overrides) == strings_view(
                before.options.api_config_overrides,
            )
            &&& strings_view(request.cli_config_overrides) == strings_view(
                before.options.cli_config_overrides,
            )
        },
        _ => false,
    }
}

impl Opening {
    /// Takes the answer of a probe. A git directory is gone on with. A candidate that is
    /// none is followed by a probe of the path itself where that is still to be tried;
    /// otherwise the open fails, naming the directory probed last and what discovery
    /// said of it.
    pub fn on_probed(self, outcome: Result<gix_discover::repository::Kind, Failure>) -> (r: (
        Opening,
        Action,
    ))
        requires
            self.phase == Phase::Probing,
        ensures
            r.0.wf(),
            after_probed(self, outcome, r),
    {
        let mut next = self;
        match outcome {
            Ok(kind) => {
                next.kind = Some(kind);
                next.phase = Phase::CurrentDir;
                (next, Action::QueryCurrentDir)
            },
            Err(failure) => {
                if next.may_probe_again {
                    next.may_probe_again = false;
                    next.candidate = slice_to_vec(next.path.as_slice());
                    let path = slice_to_vec(next.path.as_slice());
                    (next, Action::Probe { path })
                } else {
                    let mut path: Vec<u8> = Vec::new();
                    std::mem::swap(&mut path, &mut next.candidate);
                    next.fail(Error::NotARepository { path, source: failure })
                }
            },
        }
    }

    /// Takes the current directory and derives the git directory and the work tree from
    /// what discovery found. A work tree that the environment names is taken where
    /// discovery found none. The trust is the caller's where one set of options decides
    /// it, and is asked of ownership otherwise.
    pub fn on_current_dir(self, outcome: Result<Vec<u8>, Failure>) -> (r: (Opening, Action))
        requires
            self.phase == Phase::CurrentDir,
            self.wf(),
        ensures
            r.0.wf(),
            after_current_dir(self, outcome, r),
    {
        let mut next = self;
        match outcome {
            Err(failure) => next.fail(Error::Io(failure)),
            Ok(current_dir) => {
                let kind = next.kind.take().unwrap();
                match directories(next.candidate.as_slice(), kind, current_dir.as_slice()) {
                    None => {
                        let mut path: Vec<u8> = Vec::new();
                    std::mem::swap(&mut path, &mut next.candidate);
                        let source = Failure {
                            description: "the directory cannot be resolved".to_owned(),
                        };
                        next.fail(Error::NotARepository { path, source })
                    },
                    Some((git_dir, worktree_dir)) => {
                        next.worktree_dir = match worktree_dir {
                            Some(w) => Some(w),
                            None => copy_option(&next.override_worktree),
                        };
                        next.git_dir = git_dir;
                        next.current_dir = current_dir;
                        let forced = if next.reduced_options.is_some() {
                            None
                        } else {
                            next.options.git_dir_trust
                        };
                        match forced {
                            Some(trust) => {
                                next.trust = trust;
                                next.phase = Phase::CommonDir;
                                let git_dir = slice_to_vec(next.git_dir.as_slice());
                                (next, Action::ReadCommonDir { git_dir })
                            },
                            None => {
                                next.phase = Phase::GitDirOwnership;
                                let path = slice_to_vec(next.git_dir.as_slice());
                                (next, Action::QueryOwnership { path })
                            },
                        }
                    },
                }
            },
        }
    }

    /// Takes whether the current user owns the git directory: the repository is fully
    /// trusted exactly if so. Where the caller gave options by trust, those for this
    /// trust are gone on with, and a trust that they name takes its place.
    pub fn on_git_dir_ownership(self, outcome: Result<bool, Failure>) -> (r: (Opening, Action))
        requires
            self.phase == Phase::GitDirOwnership,
        ensures
            r.0.wf(),
            after_git_dir_ownership(self, outcome, r),
    {
        let mut next = self;
        match outcome {
            Err(failure) => next.fail(Error::Io(failure)),
            Ok(owned) => {
                let by_ownership = if owned {
                    TrustLevel::Full
                } else {
                    TrustLevel::Reduced
                };
                match next.reduced_options.take() {
                    Some(reduced) => {
                        if !owned {
                            next.options = reduced;
                        }
                        next.trust = match next.options.git_dir_trust {
                            Some(trust) => trust,
                            None => by_ownership,
                        };
                    },
                    None => {
                        next.trust = by_ownership;
                    },
                }
                next.options.git_dir_trust = Some(next.trust);
                next.phase = Phase::CommonDir;
                let git_dir = slice_to_vec(next.git_dir.as_slice());
                (next, Action::ReadCommonDir { git_dir })
            },
        }
    }

    /// Takes what the `commondir` file holds: the common directory is that path joined
    /// onto the git directory. The first look at the configuration goes to the common
    /// directory, or to the git directory where there is none.
    pub fn on_common_dir(self, outcome: Result<Option<Vec<u8>>, Failure>) -> (r: (Opening, Action))
        requires
            self.phase == Phase::CommonDir,
        ensures
            r.0.wf(),
            after_common_dir(self, outcome, r),
    {
        let mut next = self;
        match outcome {
            Err(failure) => next.fail(Error::Io(failure)),
            Ok(common) => {
                next.common_dir = match common {
                    Some(c) => join(next.git_dir.as_slice(), c.as_slice()),
                    None => None,
                };
                let config_dir = match &next.common_dir {
                    Some(c) => slice_to_vec(c.as_slice()),
                    None => slice_to_vec(next.git_dir.as_slice()),
                };
                next.phase = Phase::StageOne;
                let action = Action::LoadStageOne {
                    config_dir,
                    git_dir: slice_to_vec(next.git_dir.as_slice()),
                    trust: next.trust,
                    lossy: next.options.lossy_config,
                    lenient: next.options.lenient_config,
                };
                (next, action)
            },
        }
    }

    /// Takes the values of the first look at the configuration. Where they ask for
    /// precomposed Unicode, the git directory, the common directory, the work tree and
    /// the current directory are precomposed, so that paths compare byte by byte from
    /// here on.
    pub fn on_stage_one(self, outcome: Result<StageOne, Error>) -> (r: (Opening, Action))
        requires
            self.phase == Phase::StageOne,
        ensures
            r.0.wf(),
            after_stage_one(self, outcome, r),
    {
        let mut next = self;
        match outcome {
            Err(error) => next.fail(error),
            Ok(stage_one) => {
                if stage_one.precompose_unicode {
                    next.git_dir = precompose(next.git_dir.as_slice());
                    next.current_dir = precompose(next.current_dir.as_slice());
                    next.common_dir = precompose_option(next.common_dir.take());
                    next.worktree_dir = precompose_option(next.worktree_dir.take());
                }
                next.stage_one = Some(stage_one);
                next.phase = Phase::Environment;
                (next, Action::QueryEnvironment)
            },
        }
    }

    /// Takes where git is installed and where the home directory is. The home directory
    /// is only used where the permissions allow it. Then the configuration is asked for.
    pub fn on_environment(self, git_install_dir: Option<Vec<u8>>, home: Option<Vec<u8>>) -> (r: (
        Opening,
        Action,
    ))
        requires
            self.phase == Phase::Environment,
            self.wf(),
        ensures
            r.0.wf(),
            after_environment(self, git_install_dir, home, r),
    {
        let mut next = self;
        next.git_install_dir = git_install_dir;
        next.home = if next.options.permissions.env.home.is_allowed() {
            home
        } else {
            None
        };
        next.phase = Phase::Config;
        let request = LoadRequest {
            git_dir: slice_to_vec(next.git_dir.as_slice()),
            common_dir: copy_option(&next.common_dir),
            trust: next.trust,
            stage_one: next.stage_one.unwrap(),
            filter: filter_of(&next.options),
            git_install_dir: copy_option(&next.git_install_dir),
            home: copy_option(&next.home),
            permissions: next.options.permissions,
            lenient: next.options.lenient_config,
            api_config_overrides: copy_strings(&next.options.api_config_overrides),
            cli_config_overrides: copy_strings(&next.options.cli_config_overrides),
        };
        (next, Action::LoadConfig(request))
    }
}

/// What is settled of a repository once its configuration is loaded and its work tree
/// is known.
pub struct Settled {
    pub options: Options,
    pub git_dir: Seq<u8>,
    pub common_dir: Option<Seq<u8>>,
    pub worktree: Option<Seq<u8>>,
    pub current_dir: Seq<u8>,
    pub trust: TrustLevel,
    pub stage_one: StageOne,
    pub is_bare: bool,
    pub reflog: Option<WriteReflog>,
    pub refs_namespace: Option<Seq<u8>>,
    pub object_hash: HashKind,
    pub use_multi_pack_index: bool,
    pub config: Seq<ConfigSectionView>,
    /// Where git is installed and where the home directory is: what placeholders in
    /// configured paths expand to.
    pub git_install_dir: Option<Seq<u8>>,
    pub home: Option<Seq<u8>>,
}

impl Opening {
    /// Whether the configuration is loaded, so that something is settled.
    pub open spec fn is_settled(self) -> bool {
        self.stage_one is Some && self.loaded is Some
    }

    /// What is settled in this state.
    pub open spec fn settled(self) -> Settled {
        Settled {
            options: self.options,
            git_dir: self.git_dir@,
            common_dir: option_view(self.common_dir),
            worktree: option_view(self.worktree_dir),
            current_dir: self.current_dir@,
            trust: self.trust,
            stage_one: self.stage_one.unwrap(),
            is_bare: self.loaded.unwrap().is_bare,
            reflog: self.loaded.unwrap().reflog,
            refs_namespace: option_view(self.loaded.unwrap().refs_namespace),
            object_hash: self.loaded.unwrap().object_hash,
            use_multi_pack_index: self.loaded.unwrap().use_multi_pack_index,
            config: self.loaded.unwrap().resolved@,
            git_install_dir: option_view(self.git_install_dir),
            home: option_view(self.home),
        }
    }
}

/// Whether `repo` is the repository that an open arrives at from what is settled, with
/// the replacements `replaced`.
pub open spec fn opened_as(
    settled: Settled,
    replaced: Seq<(Seq<u8>, Seq<u8>)>,
    repo: ThreadSafeRepository,
) -> bool {
    &&& repo.git_dir@ == settled.git_dir
    &&& option_view(repo.common_dir) == settled.common_dir
    &&& option_view(repo.work_tree) == settled.worktree
    &&& repo.trust == settled.trust
    &&& repo.config.resolved@ == settled.config
    &&& repo.config.is_bare == settled.is_bare
    &&& repo.config.reflog == settled.reflog
    &&& option_view(repo.config.refs_namespace) == settled.refs_namespace
    &&& repo.config.object_hash == settled.object_hash
    &&& repo.config.use_multi_pack_index == settled.use_multi_pack_index
    &&& repo.refs.write_reflog == reflog_policy(settled.reflog, settled.worktree is Some)
    &&& option_view(repo.refs.namespace) == settled.refs_namespace
    &&& repo.refs.object_hash == settled.stage_one.object_hash
    &&& repo.refs.precompose_unicode == settled.stage_one.precompose_unicode
    &&& repo.refs.prohibit_windows_device_names == settled.stage_one.protect_windows
    &&& repo.objects.slots == settled.options.object_store_slots
    &&& repo.objects.object_hash == settled.object_hash
    &&& repo.objects.use_multi_pack_index == settled.use_multi_pack_index
    &&& repo.objects.current_dir@ == settled.current_dir
    &&& pairs_view(repo.replacements) == replaced
    &&& repo.linked_worktree_options == settled.options
}

/// Whether `r` is how an open ends once trust is settled. Where replacements are
/// switched off the repository is handed out without any, and no reference is asked
/// for. Otherwise the references under the prefix are asked for, unless the prefix is
/// no relative path. A setting that cannot be read under strict settings fails the open.
pub open spec fn finalized(settled: Settled, r: (Opening, Action)) -> bool {
    match replacement_prefix(
        settled.config,
        effective_filter(settled.options),
        settled.options.lenient_config,
    ) {
        Err(_) => r.0.phase == Phase::Done && r.1 == Action::Fail(
            Error::Config(ConfigError::ConfigBoolean { key: ConfigKey::UseReplaceRefs }),
        ),
        Ok(None) => r.0.phase == Phase::Done && match r.1 {
            Action::Finish(repo) => opened_as(settled, Seq::empty(), repo),
            _ => false,
        },
        Ok(Some(prefix)) => if valid_relative_path(prefix) {
            &&& r.0.phase == Phase::References
            &&& r.0.prefix@ == prefix
            &&& r.0.is_settled()
            &&& r.0.settled() == settled
            &&& match r.1 {
                Action::ListReferences { prefix: asked } => asked@ == prefix,
                _ => false,
            }
        } else {
            r.0.phase == Phase::Done && match r.1 {
                Action::Fail(Error::Config(ConfigError::RefsPrefix { prefix: refused })) => refused@
                    == prefix,
                _ => false,
            }
        },
    }
}

/// Where replacements are switched off, an open ends without asking for a reference and
/// with a repository in which no object stands in for another, whatever references
/// there are.
pub proof fn law_switched_off_replacements(settled: Settled, r: (Opening, Action))
    requires
        finalized(settled, r),
        replacement_prefix(
            settled.config,
            effective_filter(settled.options),
            settled.options.lenient_config,
        ) == Ok::<Option<Seq<u8>>, ()>(None),
    ensures
        r.0.phase == Phase::Done,
        match r.1 {
            Action::Finish(repo) => repo.replacements@.len() == 0,
            _ => false,
        },
{
    match r.1 {
        Action::Finish(repo) => {
            assert(pairs_view(repo.replacements).len() == repo.replacements@.len());
        },
        _ => {},
    }
}

/// The review of a repository whose list of safe directories holds `*` alone ends in
/// full trust. Without any entry it ends in reduced trust, or in the end of the open
/// where the caller asked for that.
pub proof fn law_review_by_wildcard_and_by_nothing(
    before: Opening,
    canonical: Option<Vec<u8>>,
    r: (Opening, Action),
)
    requires
        after_test_dir_canonical(before, canonical, r),
    ensures
        safe_directories(before.settled().config) == seq![seq![STAR]] ==> r.0.trust
            == TrustLevel::Full && r.1 is CanonicalizeFiles,
        safe_directories(before.settled().config).len() == 0 ==> if before.options.bail_if_untrusted
        {
            r.1 matches Action::Fail(Error::UnsafeGitDir { .. })
        } else {
            r.0.trust == TrustLevel::Reduced && r.1 is CanonicalizeFiles
        },
{
    let list = safe_directories(before.settled().config);
    let tested = path_parts(tested_path(before.test_dir@, option_view(canonical)));
    law_wildcard_alone_and_no_entries(
        tested,
        option_view(before.git_install_dir),
        option_view(before.home),
    );
    if list.len() == 0 {
        assert(list =~= Seq::<Seq<u8>>::empty());
    }
}

/// A probe that fails and is not followed by another fails the open: the directory is
/// no repository. After a first probe that fails, the second is not followed by another.
pub proof fn law_failed_probes_are_no_repository(
    before: Opening,
    failure: Failure,
    r: (Opening, Action),
)
    requires
        after_probed(before, Err(failure), r),
    ensures
        before.may_probe_again ==> r.0.phase == before.phase && !r.0.may_probe_again,
        !before.may_probe_again ==> r.1 == Action::Fail(
            Error::NotARepository { path: before.candidate, source: failure },
        ),
{
}

/// Whether `r` asks for the canonical form of the directory whose safety is reviewed:
/// the work tree, or the git directory where there is none.
pub open spec fn reviewing(settled: Settled, r: (Opening, Action)) -> bool {
    &&& r.0.phase == Phase::TestDirCanonical
    &&& r.0.is_settled()
    &&& r.0.settled() == settled
    &&& r.0.test_dir@ == reviewed_directory(settled.worktree, settled.git_dir)
    &&& match r.1 {
        Action::Canonicalize { path } => path@ == r.0.test_dir@,
        _ => false,
    }
}

/// The work tree that an open goes on with after a step.
pub open spec fn worktree_after(r: (Opening, Action)) -> Option<Seq<u8>> {
    match r.1 {
        Action::Finish(repo) => option_view(repo.work_tree),
        _ => option_view(r.0.worktree_dir),
    }
}

/// The configuration that an open goes on with after a step.
pub open spec fn config_after(r: (Opening, Action)) -> Seq<ConfigSectionView> {
    match r.1 {
        Action::Finish(repo) => repo.config.resolved@,
        _ => match r.0.loaded {
            Some(loaded) => loaded.resolved@,
            None => Seq::empty(),
        },
    }
}

/// What holds of the step that is taken once the configuration was loaded, given what
/// came of interpolating the configured work tree, if there is one. A work tree that is
/// refused or cannot be interpolated fails the open. Otherwise the work tree is resolved
/// and reconciled; a repository that is not fully trusted has its trust reviewed, one
/// with a work tree has the ownership of that asked, and any other comes to its end.
pub open spec fn config_step(
    before: Opening,
    loaded: LoadedConfig,
    interpolated: Option<Seq<u8>>,
    r: (Opening, Action),
) -> bool {
    let config = loaded.resolved@;
    let resolution = if loaded.is_bare {
        Resolution::Path(option_view(before.worktree_dir))
    } else {
        worktree_resolution(
            config,
            effective_filter(before.options),
            before.git_dir@,
            before.current_dir@,
            before.options.lenient_config,
            option_view(before.worktree_dir),
            interpolated,
        )
    };
    match resolution {
        Resolution::Uninterpolated(value) => r.0.phase == Phase::Done && match r.1 {
            Action::Fail(Error::Config(ConfigError::PathInterpolation { path })) => path@ == value,
            _ => false,
        },
        Resolution::Refused => r.0.phase == Phase::Done && r.1 == Action::Fail(
            Error::Config(ConfigError::ConfigTypedString { key: ConfigKey::CoreWorktree }),
        ),
        Resolution::Path(resolved) => {
            let worktree = reconciled_worktree(resolved, before.git_dir@, loaded.is_bare, config);
            let settled = Settled {
                options: before.options,
                git_dir: before.git_dir@,
                common_dir: option_view(before.common_dir),
                worktree,
                current_dir: before.current_dir@,
                trust: before.trust,
                stage_one: before.stage_one.unwrap(),
                is_bare: loaded.is_bare,
                reflog: loaded.reflog,
                refs_namespace: option_view(loaded.refs_namespace),
                object_hash: loaded.object_hash,
                use_multi_pack_index: loaded.use_multi_pack_index,
                config,
                git_install_dir: option_view(before.git_install_dir),
                home: option_view(before.home),
            };
            if before.trust != TrustLevel::Full {
                reviewing(settled, r)
            } else if worktree is Some {
                &&& r.0.phase == Phase::WorktreeOwnership
                &&& r.0.is_settled()
                &&& r.0.settled() == settled
                &&& match r.1 {
                    Action::QueryOwnership { path } => Some(path@) == worktree,
                    _ => false,
                }
            } else {
                finalized(settled, r)
            }
        },
    }
}

/// The value of `core.worktree` that is interpolated after the configuration was loaded,
/// if there is one: none for a bare repository.
pub open spec fn interpolated_worktree(before: Opening, loaded: LoadedConfig) -> Option<Seq<u8>> {
    if loaded.is_bare {
        None
    } else {
        configured_worktree(
            loaded.resolved@,
            effective_filter(before.options),
            before.git_dir@,
            before.current_dir@,
            before.options.lenient_config,
        )
    }
}

/// What holds of the step that is taken once the configuration was loaded.
pub open spec fn after_config(
    before: Opening,
    outcome: Result<LoadedConfig, Error>,
    r: (Opening, Action),
) -> bool {
    match outcome {
        Err(error) => r.0 == (Opening { phase: Phase::Done, ..before }) && r.1 == Action::Fail(
            error,
        ),
        Ok(loaded) => {
            let configured = interpolated_worktree(before, loaded);
            let install = option_view(before.git_install_dir);
            let home = option_view(before.home);
            &&& exists|interpolated: Option<Seq<u8>>|
                #[trigger] worktree_interpolation(configured, install, home, interpolated)
                    && config_step(before, loaded, interpolated, r)
            &&& worktree_is_fixed(configured) ==> config_step(
                before,
                loaded,
                fixed_interpolation(configured, install, home),
                r,
            )
        },
    }
}

/// What holds of the step that is taken once the ownership of the work tree was told.
pub open spec fn after_worktree_ownership(
    before: Opening,
    outcome: Result<bool, Failure>,
    r: (Opening, Action),
) -> bool {
    if outcome == Ok::<bool, Failure>(true) {
        finalized(before.settled(), r)
    } else {
        reviewing(before.settled(), r)
    }
}

/// What holds of the step that is taken once the reviewed directory got its canonical
/// form. The directory is safe by the list of safe directories of the configuration,
/// resolved with the install directory and the home directory of the state.
pub open spec fn after_test_dir_canonical(
    before: Opening,
    canonical: Option<Vec<u8>>,
    r: (Opening, Action),
) -> bool {
    let config = before.settled().config;
    let tested = path_parts(tested_path(before.test_dir@, option_view(canonical)));
    let list = safe_directories(config);
    let install = option_view(before.git_install_dir);
    let home = option_view(before.home);
    let safe = !(r.1 is Fail) && r.0.trust == TrustLevel::Full;
    &&& exists|interpolated: Seq<Option<Seq<u8>>>|
        #[trigger] interpolations_of(list, install, home, interpolated) && safe
            == is_safe_directory(tested, resolved_entries(list, interpolated))
    &&& all_fixed(list) ==> safe == is_safe_directory(tested, fixed_entries(list, install, home))
    &&& match reviewed_trust(safe, before.options.bail_if_untrusted) {
        None => r.0 == (Opening { phase: Phase::Done, ..before }) && match r.1 {
            Action::Fail(Error::UnsafeGitDir { path }) => path@ == tested_path(
                before.test_dir@,
                option_view(canonical),
            ),
            _ => false,
        },
        Some(trust) => {
            &&& r.0 == (Opening {
                phase: Phase::FileCanonicals,
                trust,
                safe_dirs: r.0.safe_dirs,
                pending: r.0.pending,
                ..before
            })
            &&& strings_view(r.0.safe_dirs) == list
            &&& match r.1 {
                Action::CanonicalizeFiles { files } => {
                    &&& files@.len() == r.0.pending@.len()
                    &&& files@.len() == judged_paths(config).len()
                    &&& forall|i: int|
                        0 <= i < files@.len() ==> (#[trigger] files@[i]).path@
                            == judged_paths(config)[i] && files@[i].path@
                            == r.0.pending@[i].path@ && files@[i].covered == covered(
                            files@[i].path@,
                            before.test_dir@,
                            trust,
                        )
                },
                _ => false,
            }
        },
    }
}

/// Whether `judgements` holds a verdict that the rules allow for each pending file of
/// the state, given the canonical forms that were handed in.
pub open spec fn judged(
    before: Opening,
    forms: Seq<Option<Vec<u8>>>,
    judgements: Seq<Judgement>,
) -> bool {
    &&& judgements.len() == before.pending@.len()
    &&& forall|i: int|
        0 <= i < judgements.len() ==> (#[trigger] judgements[i]).path@
            == before.pending@[i].path@ && is_verdict(
            judgements[i].safe,
            judgements[i].path@,
            canonical_at(forms, i),
            before.test_dir@,
            before.trust,
            strings_view(before.safe_dirs),
            option_view(before.git_install_dir),
            option_view(before.home),
        )
    &&& all_fixed(strings_view(before.safe_dirs)) ==> forall|i: int|
        0 <= i < judgements.len() ==> (#[trigger] judgements[i]).safe == fixed_verdict(
            judgements[i].path@,
            canonical_at(forms, i),
            before.test_dir@,
            before.trust,
            strings_view(before.safe_dirs),
            option_view(before.git_install_dir),
            option_view(before.home),
        )
}

/// What holds of the step that is taken once the judged files got their canonical
/// forms: the configuration is the one before with the sections of the files found safe
/// raised to full trust, and with it the open comes to its end.
pub open spec fn after_file_canonicals(
    before: Opening,
    forms: Vec<Option<Vec<u8>>>,
    r: (Opening, Action),
) -> bool {
    let config = before.settled().config;
    let now = config_after(r);
    &&& finalized(Settled { config: now, ..before.settled() }, r)
    &&& exists|judgements: Seq<Judgement>|
        #[trigger] judged(before, forms@, judgements) && now == elevated(
            config,
            safe_paths(judgements),
        )
}

/// What holds of the step that is taken once the references were listed.
pub open spec fn after_references(
    before: Opening,
    references: Option<Vec<Reference>>,
    r: (Opening, Action),
) -> bool {
    r.0.phase == Phase::Done && match r.1 {
        Action::Finish(repo) => opened_as(
            before.settled(),
            match references {
                Some(found) => replacements_below(
                    before.prefix@,
                    references_view(found),
                    found@.len() as int,
                ),
                None => Seq::empty(),
            },
            repo,
        ),
        _ => false,
    }
}

/// What holds of a step, whatever it was that was answered.
pub open spec fn after_step(before: Opening, event: Event, r: (Opening, Action)) -> bool {
    match event {
        Event::Probed(outcome) => after_probed(before, outcome, r),
        Event::CurrentDir(outcome) => after_current_dir(before, outcome, r),
        Event::Ownership(outcome) => if before.phase == Phase::GitDirOwnership {
            after_git_dir_ownership(before, outcome, r)
        } else {
            after_worktree_ownership(before, outcome, r)
        },
        Event::CommonDir(outcome) => after_common_dir(before, outcome, r),
        Event::StageOne(outcome) => after_stage_one(before, outcome, r),
        Event::Environment { git_install_dir, home } => after_environment(
            before,
            git_install_dir,
            home,
            r,
        ),
        Event::Config(outcome) => after_config(before, outcome, r),
        Event::Canonical(canonical) => after_test_dir_canonical(before, canonical, r),
        Event::CanonicalFiles(forms) => after_file_canonicals(before, forms, r),
        Event::References(references) => after_references(before, references, r),
    }
}

/// The trust in the repository after a step: that of the repository where it is open,
/// and that of the state otherwise.
pub open spec fn trust_after(r: (Opening, Action)) -> TrustLevel {
    match r.1 {
        Action::Finish(repo) => repo.trust,
        _ => r.0.trust,
    }
}

/// Whether a step may settle the trust anew: the one that derives the directories takes
/// a trust that the caller forces, the one that learns who owns the git directory takes
/// the trust that ownership gives, and the review takes what the list of safe
/// directories says.
pub open spec fn settles_trust(before: Opening, event: Event) -> bool {
    event is CurrentDir || event is Canonical || (event is Ownership && before.phase
        == Phase::GitDirOwnership)
}

/// The steps of an open, one after the other: each state accepts the event that
/// follows it, and each step holds what is said of it.
pub open spec fn is_run(states: Seq<(Opening, Action)>, events: Seq<Event>) -> bool {
    &&& states.len() == events.len() + 1
    &&& forall|i: int|
        0 <= i < events.len() ==> (#[trigger] states[i]).0.wf() && states[i].0.accepts(events[i])
            && after_step(states[i].0, events[i], states[i + 1])
}

/// No step but those that settle the trust changes it, unless it fails the open.
pub proof fn law_steps_keep_the_trust(before: Opening, event: Event, r: (Opening, Action))
    requires
        before.wf(),
        before.accepts(event),
        after_step(before, event, r),
        !settles_trust(before, event),
        !(r.1 is Fail),
    ensures
        trust_after(r) == before.trust,
{
    match event {
        Event::Config(Ok(loaded)) => {
            let configured = interpolated_worktree(before, loaded);
            let interpolated = choose|interpolated: Option<Seq<u8>>|
                #[trigger] worktree_interpolation(
                    configured,
                    option_view(before.git_install_dir),
                    option_view(before.home),
                    interpolated,
                ) && config_step(before, loaded, interpolated, r);
            assert(config_step(before, loaded, interpolated, r));
        },
        _ => {},
    }
}

/// From one state of an open to a later one the trust stays as it was, as long as no
/// step in between settles it anew and none fails.
pub proof fn law_trust_stays_between(
    states: Seq<(Opening, Action)>,
    events: Seq<Event>,
    from: int,
    to: int,
)
    requires
        is_run(states, events),
        0 <= from < to < states.len(),
        forall|k: int|
            from <= k < to ==> !settles_trust((#[trigger] states[k]).0, events[k]) && !(states[k
                + 1].1 is Fail),
    ensures
        trust_after(states[to]) == states[from].0.trust,
    decreases to - from,
{
    if from + 1 < to {
        law_trust_stays_between(states, events, from, to - 1);
        assert(!(states[to - 1].1 is Finish)) by {
            assert(states[to - 1].0.accepts(events[to - 1]));
            assert(after_step(states[to - 2].0, events[to - 2], states[to - 1]));
            lemma_finish_ends(states[to - 2].0, events[to - 2], states[to - 1]);
        }
    }
    assert(states[to - 1].0.wf());
    assert(!settles_trust(states[to - 1].0, events[to - 1]));
    law_steps_keep_the_trust(states[to - 1].0, events[to - 1], states[to]);
}

/// A step that hands out the repository ends the open.
pub proof fn lemma_finish_ends(before: Opening, event: Event, r: (Opening, Action))
    requires
        before.wf(),
        before.accepts(event),
        after_step(before, event, r),
    ensures
        r.1 is Finish ==> r.0.phase == Phase::Done,
{
    match event {
        Event::Config(Ok(loaded)) => {
            let configured = interpolated_worktree(before, loaded);
            let interpolated = choose|interpolated: Option<Seq<u8>>|
                #[trigger] worktree_interpolation(
                    configured,
                    option_view(before.git_install_dir),
                    option_view(before.home),
                    interpolated,
                ) && config_step(before, loaded, interpolated, r);
            assert(config_step(before, loaded, interpolated, r));
        },
        _ => {},
    }
}

/// A repository that the caller opens with one set of options, and whose git directory
/// the current user owns, is fully trusted at every later step and as it is handed out,
/// as long as its trust does not come under review and the open does not fail.
pub proof fn law_an_owned_repository_is_fully_trusted(
    states: Seq<(Opening, Action)>,
    events: Seq<Event>,
    asked: int,
    to: int,
)
    requires
        is_run(states, events),
        0 <= asked < to < states.len(),
        states[asked].0.phase == Phase::GitDirOwnership,
        states[asked].0.reduced_options is None,
        events[asked] == Event::Ownership(Ok::<bool, Failure>(true)),
        forall|k: int|
            asked < k < to ==> !settles_trust((#[trigger] states[k]).0, events[k]) && !(states[k
                + 1].1 is Fail),
    ensures
        trust_after(states[to]) == TrustLevel::Full,
{
    assert(states[asked].0.wf());
    assert(after_step(states[asked].0, events[asked], states[asked + 1]));
    assert(states[asked + 1].0.trust == TrustLevel::Full);
    if asked + 1 < to {
        law_trust_stays_between(states, events, asked + 1, to);
    }
}

/// A repository whose trust is reviewed with a list of safe directories that holds `*`
/// alone is fully trusted at every later step and as it is handed out; the open does not
/// end for want of safety. With a list without entries it is trusted less, unless the
/// caller asked for the open to end then.
pub proof fn law_a_reviewed_repository_is_trusted_by_the_list(
    states: Seq<(Opening, Action)>,
    events: Seq<Event>,
    reviewed: int,
    to: int,
)
    requires
        is_run(states, events),
        0 <= reviewed < to < states.len(),
        events[reviewed] is Canonical,
        forall|k: int|
            reviewed < k < to ==> !settles_trust((#[trigger] states[k]).0, events[k])
                && !(states[k + 1].1 is Fail),
    ensures
        safe_directories(states[reviewed].0.settled().config) == seq![seq![STAR]]
            ==> trust_after(states[to]) == TrustLevel::Full && !(states[reviewed + 1].1 is Fail),
        safe_directories(states[reviewed].0.settled().config).len() == 0
            && !states[reviewed].0.options.bail_if_untrusted ==> trust_after(states[to])
            == TrustLevel::Reduced && !(states[reviewed + 1].1 is Fail),
        safe_directories(states[reviewed].0.settled().config).len() == 0
            && states[reviewed].0.options.bail_if_untrusted ==> states[reviewed
            + 1].1 matches Action::Fail(Error::UnsafeGitDir { .. }),
{
    assert(states[reviewed].0.wf());
    assert(after_step(states[reviewed].0, events[reviewed], states[reviewed + 1]));
    match events[reviewed] {
        Event::Canonical(canonical) => {
            law_review_by_wildcard_and_by_nothing(
                states[reviewed].0,
                canonical,
                states[reviewed + 1],
            );
        },
        _ => {},
    }
    if reviewed + 1 < to {
        law_trust_stays_between(states, events, reviewed + 1, to);
    }
}

/// Where an open comes to its end, replacements that are switched off leave the
/// repository without any, and no reference is asked for; a repository that is handed
/// out at such a step has none.
pub proof fn law_an_open_ends_without_replacements(
    before: Opening,
    event: Event,
    r: (Opening, Action),
)
    requires
        before.wf(),
        before.accepts(event),
        after_step(before, event, r),
        event is Config || event is CanonicalFiles || (event is Ownership && before.phase
            == Phase::WorktreeOwnership),
    ensures
        r.1 matches Action::Finish(repo) ==> repo.replacements@.len() == 0 && replacement_prefix(
            repo.config.resolved@,
            effective_filter(before.options),
            before.options.lenient_config,
        ) == Ok::<Option<Seq<u8>>, ()>(None),
        r.1 is ListReferences ==> replacement_prefix(
            config_after(r),
            effective_filter(before.options),
            before.options.lenient_config,
        ) matches Ok(Some(_)),
{
    match event {
        Event::Config(Ok(loaded)) => {
            let configured = interpolated_worktree(before, loaded);
            let interpolated = choose|interpolated: Option<Seq<u8>>|
                #[trigger] worktree_interpolation(
                    configured,
                    option_view(before.git_install_dir),
                    option_view(before.home),
                    interpolated,
                ) && config_step(before, loaded, interpolated, r);
            assert(config_step(before, loaded, interpolated, r));
        },
        _ => {},
    }
    match r.1 {
        Action::Finish(repo) => {
            assert(pairs_view(repo.replacements).len() == repo.replacements@.len());
        },
        _ => {},
    }
}

impl Opening {
    fn finish(
        self,
        replaced: Vec<(gix_hash::ObjectId, gix_hash::ObjectId)>,
    ) -> (r: (Opening, Action))
        requires
            self.is_settled(),
        ensures
            r.0.phase == Phase::Done,
            r.0.wf(),
            match r.1 {
                Action::Finish(repo) => opened_as(self.settled(), pairs_view(replaced), repo) && (
                replaced@.len() == 0 ==> opened_as(self.settled(), Seq::empty(), repo)),
                _ => false,
            },
    {
        proof {
            if replaced@.len() == 0 {
                assert(pairs_view(replaced) =~= Seq::<(Seq<u8>, Seq<u8>)>::empty());
            }
        }
        let Opening {
            phase,
            options,
            reduced_options,
            path,
            candidate,
            may_probe_again,
            override_worktree,
            kind,
            current_dir,
            git_dir,
            common_dir,
            worktree_dir,
            trust,
            stage_one,
            git_install_dir,
            home,
            loaded,
            test_dir,
            safe_dirs,
            pending,
            prefix,
        } = self;
        let loaded = loaded.unwrap();
        let stage_one = stage_one.unwrap();
        let refs = RefStoreOptions {
            write_reflog: reflog_or_default(loaded.reflog, worktree_dir.is_some()),
            namespace: copy_option(&loaded.refs_namespace),
            object_hash: stage_one.object_hash,
            precompose_unicode: stage_one.precompose_unicode,
            prohibit_windows_device_names: stage_one.protect_windows,
        };
        let objects = ObjectStoreOptions {
            slots: options.object_store_slots,
            object_hash: loaded.object_hash,
            use_multi_pack_index: loaded.use_multi_pack_index,
            current_dir,
        };
        let repo = ThreadSafeRepository {
            git_dir,
            common_dir,
            work_tree: worktree_dir,
            trust,
            config: loaded,
            refs,
            objects,
            replacements: replaced,
            linked_worktree_options: options,
        };
        let mut next = Opening::begin(Options::default(), None, path, candidate, false, None);
        next.phase = Phase::Done;
        (next, Action::Finish(repo))
    }

    fn finalize(self) -> (r: (Opening, Action))
        requires
            self.is_settled(),
        ensures
            r.0.wf(),
            finalized(self.settled(), r),
            r.1 is Fail ==> r.0.is_settled() && r.0.settled() == self.settled(),
    {
        let mut next = self;
        let filter = filter_of(&next.options);
        let lenient = next.options.lenient_config;
        let outcome = match &next.loaded {
            Some(loaded) => replacement_objects_refs_prefix(&loaded.resolved, lenient, &filter),
            None => Ok(None),
        };
        match outcome {
            Err(error) => next.fail(error),
            Ok(None) => next.finish(Vec::new()),
            Ok(Some(prefix)) => {
                if is_relative_path(prefix.as_slice()) {
                    next.prefix = slice_to_vec(prefix.as_slice());
                    next.phase = Phase::References;
                    (next, Action::ListReferences { prefix })
                } else {
                    next.fail(Error::Config(ConfigError::RefsPrefix { prefix }))
                }
            },
        }
    }

    fn review(self) -> (r: (Opening, Action))
        requires
            self.is_settled(),
        ensures
            r.0.wf(),
            reviewing(self.settled(), r),
    {
        let mut next = self;
        next.test_dir = match &next.worktree_dir {
            Some(w) => slice_to_vec(w.as_slice()),
            None => slice_to_vec(next.git_dir.as_slice()),
        };
        next.phase = Phase::TestDirCanonical;
        let path = slice_to_vec(next.test_dir.as_slice());
        (next, Action::Canonicalize { path })
    }

    /// Takes the configuration. Unless the repository is bare, the work tree is
    /// resolved from it; then the name of the git directory and `core.bare` have their
    /// say. A repository that is not fully trusted has its trust reviewed. One that is
    /// has it reviewed only if its work tree is not owned by the current user, which is
    /// asked next; without a work tree the open comes to its end.
    pub fn on_config(self, outcome: Result<LoadedConfig, Error>) -> (r: (Opening, Action))
        requires
            self.phase == Phase::Config,
            self.wf(),
        ensures
            r.0.wf(),
            after_config(self, outcome, r),
    {
        let mut next = self;
        match outcome {
            Err(error) => next.fail(error),
            Ok(loaded) => {
                let ghost before = next;
                let ghost given = loaded;
                let filter = filter_of(&next.options);
                let discovered = next.worktree_dir.take();
                let ghost mut interpolated: Option<Seq<u8>> = None;
                let resolved = if !loaded.is_bare {
                    let resolved = resolve_worktree(
                        &loaded.resolved,
                        &filter,
                        next.git_dir.as_slice(),
                        next.current_dir.as_slice(),
                        borrow_option(&next.git_install_dir),
                        borrow_option(&next.home),
                        next.options.lenient_config,
                        discovered,
                    );
                    proof {
                        interpolated = choose|o: Option<Seq<u8>>|
                            #[trigger] worktree_interpolation(
                                interpolated_worktree(before, given),
                                option_view(before.git_install_dir),
                                option_view(before.home),
                                o,
                            ) && resolution_of(resolved) == Some(
                                worktree_resolution(
                                    given.resolved@,
                                    effective_filter(before.options),
                                    before.git_dir@,
                                    before.current_dir@,
                                    before.options.lenient_config,
                                    option_view(before.worktree_dir),
                                    o,
                                ),
                            );
                    }
                    resolved
                } else {
                    Ok(discovered)
                };
                let ghost outcome = resolved;
                let r = match resolved {
                    Err(error) => next.fail(error),
                    Ok(worktree) => {
                        next.worktree_dir = reconcile_worktree(
                            worktree,
                            next.git_dir.as_slice(),
                            loaded.is_bare,
                            &loaded.resolved,
                        );
                        next.loaded = Some(loaded);
                        if next.trust != TrustLevel::Full {
                            next.review()
                        } else if next.worktree_dir.is_some() {
                            next.phase = Phase::WorktreeOwnership;
                            let path = match &next.worktree_dir {
                                Some(w) => slice_to_vec(w.as_slice()),
                                None => Vec::new(),
                            };
                            (next, Action::QueryOwnership { path })
                        } else {
                            next.finalize()
                        }
                    },
                };
                proof {
                    assert(worktree_interpolation(
                        interpolated_worktree(before, given),
                        option_view(before.git_install_dir),
                        option_view(before.home),
                        interpolated,
                    ));
                    assert(config_step(before, given, interpolated, r));
                }
                r
            },
        }
    }

    /// Takes whether the current user owns the work tree. Unless that is known to be so,
    /// the trust in the repository is reviewed; otherwise the open comes to its end.
    pub fn on_worktree_ownership(self, outcome: Result<bool, Failure>) -> (r: (Opening, Action))
        requires
            self.phase == Phase::WorktreeOwnership,
            self.wf(),
        ensures
            r.0.wf(),
            after_worktree_ownership(self, outcome, r),
    {
        let owned = match outcome {
            Ok(owned) => owned,
            Err(_) => false,
        };
        if owned {
            self.finalize()
        } else {
            self.review()
        }
    }

    /// Takes the canonical form of the reviewed directory, or `None` where it has none,
    /// and reviews the trust: a safe directory makes the repository fully trusted; one
    /// that is not safe ends the open where the caller asked for that, and reduces the
    /// trust otherwise. Then the configuration files to judge are listed.
    pub fn on_test_dir_canonical(self, canonical: Option<Vec<u8>>) -> (r: (Opening, Action))
        requires
            self.phase == Phase::TestDirCanonical,
            self.wf(),
        ensures
            r.0.wf(),
            after_test_dir_canonical(self, canonical, r),
    {
        let mut next = self;
        let ghost before = next;
        let safe_dirs = match &next.loaded {
            Some(loaded) => safe_directory_list(&loaded.resolved),
            None => Vec::new(),
        };
        let verdict = check_safe_directories(
            next.test_dir.as_slice(),
            borrow_option(&canonical),
            borrow_option(&next.git_install_dir),
            borrow_option(&next.home),
            &safe_dirs,
        );
        proof {
            let list = safe_directories(before.settled().config);
            let install = option_view(before.git_install_dir);
            let home = option_view(before.home);
            let tested = path_parts(tested_path(before.test_dir@, option_view(canonical)));
            assert(strings_view(safe_dirs) == list);
            let found = choose|interpolated: Seq<Option<Seq<u8>>>|
                #[trigger] interpolations_of(list, install, home, interpolated)
                    && verdict.is_ok() == is_safe_directory(
                    tested,
                    resolved_entries(list, interpolated),
                );
            assert(interpolations_of(list, install, home, found));
        }
        match verdict {
            Ok(_) => {
                next.trust = TrustLevel::Full;
            },
            Err(error) => {
                if next.options.bail_if_untrusted {
                    return next.fail(error);
                }
                next.trust = TrustLevel::Reduced;
            },
        }
        let pending = match &next.loaded {
            Some(loaded) => pending_paths(&loaded.resolved, next.test_dir.as_slice(), next.trust),
            None => Vec::new(),
        };
        let files = copy_pending(&pending);
        next.pending = pending;
        next.safe_dirs = safe_dirs;
        next.phase = Phase::FileCanonicals;
        (next, Action::CanonicalizeFiles { files })
    }

    /// Takes the canonical forms of the files that were to be judged, judges each file
    /// once, and raises the trust of the sections whose file was found safe. Then the
    /// open comes to its end with the configuration as it stands now.
    pub fn on_file_canonicals(self, forms: Vec<Option<Vec<u8>>>) -> (r: (Opening, Action))
        requires
            self.phase == Phase::FileCanonicals,
            self.wf(),
        ensures
            r.0.wf(),
            after_file_canonicals(self, forms, r),
    {
        let mut next = self;
        let judgements = judge(
            &next.pending,
            &forms,
            next.test_dir.as_slice(),
            next.trust,
            borrow_option(&next.git_install_dir),
            borrow_option(&next.home),
            &next.safe_dirs,
        );
        let ghost before = next;
        let loaded = next.loaded.take().unwrap();
        let LoadedConfig {
            resolved,
            is_bare,
            reflog,
            refs_namespace,
            object_hash,
            use_multi_pack_index,
        } = loaded;
        let resolved = elevate(resolved, &judgements);
        next.loaded = Some(
            LoadedConfig {
                resolved,
                is_bare,
                reflog,
                refs_namespace,
                object_hash,
                use_multi_pack_index,
            },
        );
        let ghost mid = next;
        let r = next.finalize();
        proof {
            let now = mid.settled().config;
            assert(mid.settled() == (Settled { config: now, ..before.settled() }));
            assert(now == elevated(before.settled().config, safe_paths(judgements@)));
            assert(config_after(r) == now);
            assert(judged(before, forms@, judgements@));
        }
        r
    }

    /// Takes the references under the prefix of replacements, or `None` where they
    /// cannot be listed, which leaves the repository without replacements. The
    /// repository is open.
    pub fn on_references(self, references: Option<Vec<Reference>>) -> (r: (Opening, Action))
        requires
            self.phase == Phase::References,
            self.wf(),
        ensures
            r.0.wf(),
            after_references(self, references, r),
    {
        let replaced = match &references {
            Some(found) => replacements(self.prefix.as_slice(), found),
            None => Vec::new(),
        };
        self.finish(replaced)
    }

    /// Takes the answer to what was asked last and decides what is asked next.
    pub fn step(self, event: Event) -> (r: (Opening, Action))
        requires
            self.wf(),
            self.accepts(event),
        ensures
            r.0.wf(),
            after_step(self, event, r),
    {
        match event {
            Event::Probed(outcome) => self.on_probed(outcome),
            Event::CurrentDir(outcome) => self.on_current_dir(outcome),
            Event::Ownership(outcome) => {
                if self.phase == Phase::GitDirOwnership {
                    self.on_git_dir_ownership(outcome)
                } else {
                    self.on_worktree_ownership(outcome)
                }
            },
            Event::CommonDir(outcome) => self.on_common_dir(outcome),
            Event::StageOne(outcome) => self.on_stage_one(outcome),
            Event::Environment { git_install_dir, home } => self.on_environment(
                git_install_dir,
                home,
            ),
            Event::Config(outcome) => self.on_config(outcome),
            Event::Canonical(canonical) => self.on_test_dir_canonical(canonical),
            Event::CanonicalFiles(forms) => self.on_file_canonicals(forms),
            Event::References(references) => self.on_references(references),
        }
    }
}

fn copy_pending(pending: &Vec<PendingPath>) -> (r: Vec<PendingPath>)
    ensures
        r@.len() == pending@.len(),
        forall|i: int|
            0 <= i < r@.len() ==> (#[trigger] r@[i]).path@ == pending@[i].path@ && r@[i].covered
                == pending@[i].covered,
{
    let mut out: Vec<PendingPath> = Vec::new();
    let mut i: usize = 0;
    while i < pending.len()
        invariant
            i <= pending@.len(),
            out@.len() == i,
            forall|j: int|
                0 <= j < i ==> (#[trigger] out@[j]).path@ == pending@[j].path@ && out@[j].covered
                    == pending@[j].covered,
        decreases pending@.len() - i,
    {
        out.push(
            PendingPath {
                path: slice_to_vec(pending[i].path.as_slice()),
                covered: pending[i].covered,
            },
        );
        i += 1;
    }
    out
}

} // verus!
