//! The opening of a repository as a sequence of decisions. Everything that touches the
//! file system or the environment is asked for as an [`Action`] and answered with an
//! [`Event`]; what happens in between is decided here.
use vstd::prelude::*;
use crate::bytes::{option_view, strings_view};
use crate::hash::HashKind;
use crate::open::config::{
    all_values, Config, ConfigKey, ConfigSectionView, SectionFilter, TrustLevel,
};
use crate::open::path::{dot_git, path_joined};
use crate::open::replace::replacements;
use crate::open::worktree::named_like_git_dir;

verus! {

/// `gix_discover::repository::Kind`: what discovery found a directory to be. It is
/// carried from the probe to the call that derives the directories, and never looked into.
#[verifier::external_type_specification]
#[verifier::external_body]
pub struct ExKind(gix_discover::repository::Kind);

/// The git directory and the work tree that follow from a directory that discovery has
/// classified as `kind`, with the current directory to resolve a trailing `..` against.
/// `None` where no consistent path follows, or where a path cannot be held as bytes.
pub uninterp spec fn derived_directories(
    dir: Seq<u8>,
    kind: gix_discover::repository::Kind,
    current_dir: Seq<u8>,
) -> Option<(Seq<u8>, Option<Seq<u8>>)>;

/// `gix_discover::repository::Path::from_dot_git_dir`, taken apart by its
/// `into_repository_and_work_tree_directories`.
#[verifier::external_body]
pub(crate) fn directories(
    dir: &[u8],
    kind: gix_discover::repository::Kind,
    current_dir: &[u8],
) -> (r: Option<(Vec<u8>, Option<Vec<u8>>)>)
    ensures
        match r {
            Some((git_dir, work_dir)) => derived_directories(dir@, kind, current_dir@) == Some(
                (git_dir@, option_view(work_dir)),
            ),
            None => derived_directories(dir@, kind, current_dir@) is None,
        },
{
    let dir = gix_path::from_byte_slice(dir).ok()?.to_owned();
    let cwd = gix_path::from_byte_slice(current_dir).ok()?;
    let (git_dir, work_dir) = gix_discover::repository::Path::from_dot_git_dir(dir, kind, cwd)?
        .into_repository_and_work_tree_directories();
    let work_dir = match work_dir {
        Some(w) => Some(gix_path::into_bstr(w).ok()?.into_owned().into()),
        None => None,
    };
    Some((gix_path::into_bstr(git_dir).ok()?.into_owned().into(), work_dir))
}

/// Whether a resource may be used.
#[derive(Clone, Copy, PartialEq, Eq, Debug, Structural)]
pub enum Permission {
    Forbid,
    Deny,
    Allow,
}

/// What of the environment may be read.
#[derive(Clone, Copy, PartialEq, Eq, Debug, Structural)]
pub struct EnvironmentPermissions {
    pub xdg_config_home: Permission,
    pub home: Permission,
    pub http_transport: Permission,
    pub identity: Permission,
    pub objects: Permission,
    pub git_prefix: Permission,
    pub ssh_prefix: Permission,
}

/// Which sources of configuration may be loaded.
#[derive(Clone, Copy, PartialEq, Eq, Debug, Structural)]
pub struct ConfigPermissions {
    pub git_binary: bool,
    pub system: bool,
    pub git: bool,
    pub user: bool,
    pub env: bool,
    pub includes: bool,
}

/// Which sources of attributes may be loaded.
#[derive(Clone, Copy, PartialEq, Eq, Debug, Structural)]
pub struct AttributePermissions {
    pub git_binary: bool,
    pub system: bool,
    pub git: bool,
}

/// The permissions of an open, layer by layer.
#[derive(Clone, Copy, PartialEq, Eq, Debug, Structural)]
pub struct Permissions {
    pub env: EnvironmentPermissions,
    pub config: ConfigPermissions,
    pub attributes: AttributePermissions,
}

/// How many slots the object store gets for the indices it holds at a time.
#[derive(Clone, Copy, PartialEq, Eq, Debug, Structural)]
pub enum Slots {
    /// This many.
    Given(u16),
    /// As many as the state of the repository on disk asks for.
    AsNeededByDiskState,
}

/// When changes to references are logged.
#[derive(Clone, Copy, PartialEq, Eq, Debug, Structural)]
pub enum WriteReflog {
    Always,
    Normal,
    Disable,
}

/// What the caller asks of an open.
#[derive(Clone, PartialEq, Eq, Debug)]
pub struct Options {
    /// Take the path as it is, without a look for `.git` below it.
    pub open_path_as_is: bool,
    /// The trust in the git directory, where the caller decides it.
    pub git_dir_trust: Option<TrustLevel>,
    pub object_store_slots: Slots,
    /// Which sections of the configuration count; the fully trusted ones by default.
    pub filter_config_section: Option<SectionFilter>,
    pub lossy_config: Option<bool>,
    /// Whether malformed configuration values count as absent.
    pub lenient_config: bool,
    /// Whether a directory that is not safe ends the open, rather than reducing trust.
    pub bail_if_untrusted: bool,
    pub permissions: Permissions,
    pub api_config_overrides: Vec<Vec<u8>>,
    pub cli_config_overrides: Vec<Vec<u8>>,
    pub current_dir: Option<Vec<u8>>,
}

/// Options by the trust that the git directory turns out to have.
#[derive(Clone, PartialEq, Eq, Debug)]
pub struct TrustMapping {
    pub full: Options,
    pub reduced: Options,
}

/// What the environment says on where the repository and its work tree are.
#[derive(Clone, PartialEq, Eq, Debug)]
pub struct EnvironmentOverrides {
    /// Taken where discovery finds no work tree.
    pub worktree_dir: Option<Vec<u8>>,
    /// Taken in place of the directory that the caller names.
    pub git_dir: Option<Vec<u8>>,
}

/// The values that must be known before the configuration proper can be loaded.
#[derive(Clone, Copy, PartialEq, Eq, Debug, Structural)]
pub struct StageOne {
    pub reflog: Option<WriteReflog>,
    pub precompose_unicode: bool,
    pub object_hash: HashKind,
    pub protect_windows: bool,
}

/// The cascaded configuration and the typed values that loading it settled.
#[derive(Clone, PartialEq, Eq, Debug)]
pub struct LoadedConfig {
    pub resolved: Config,
    pub is_bare: bool,
    pub reflog: Option<WriteReflog>,
    pub refs_namespace: Option<Vec<u8>>,
    pub object_hash: HashKind,
    pub use_multi_pack_index: bool,
}

/// What the loader of the configuration is handed.
#[derive(Clone, PartialEq, Eq, Debug)]
pub struct LoadRequest {
    pub git_dir: Vec<u8>,
    pub common_dir: Option<Vec<u8>>,
    pub trust: TrustLevel,
    pub stage_one: StageOne,
    pub filter: SectionFilter,
    pub git_install_dir: Option<Vec<u8>>,
    pub home: Option<Vec<u8>>,
    pub permissions: Permissions,
    pub lenient: bool,
    pub api_config_overrides: Vec<Vec<u8>>,
    pub cli_config_overrides: Vec<Vec<u8>>,
}

/// What the object store is made with.
#[derive(Clone, PartialEq, Eq, Debug)]
pub struct ObjectStoreOptions {
    pub slots: Slots,
    pub object_hash: HashKind,
    pub use_multi_pack_index: bool,
    pub current_dir: Vec<u8>,
}

/// What the reference store is made with.
#[derive(Clone, PartialEq, Eq, Debug)]
pub struct RefStoreOptions {
    pub write_reflog: WriteReflog,
    pub namespace: Option<Vec<u8>>,
    pub object_hash: HashKind,
    pub precompose_unicode: bool,
    pub prohibit_windows_device_names: bool,
}

/// An opened repository: its directories, how far it is trusted, its configuration as
/// it stands after trust was settled, and what its stores are to be made with.
#[derive(Clone, PartialEq, Eq, Debug)]
pub struct ThreadSafeRepository {
    pub git_dir: Vec<u8>,
    pub common_dir: Option<Vec<u8>>,
    pub work_tree: Option<Vec<u8>>,
    pub trust: TrustLevel,
    pub config: LoadedConfig,
    pub refs: RefStoreOptions,
    pub objects: ObjectStoreOptions,
    /// Which object stands in for which, in the order of the references that say so.
    pub replacements: Vec<(gix_hash::ObjectId, gix_hash::ObjectId)>,
    pub linked_worktree_options: Options,
}

impl Permission {
    /// Whether the resource may be used: only `Allow` lets it through.
    pub fn is_allowed(&self) -> (r: bool)
        ensures
            r == (*self == Permission::Allow),
    {
        match self {
            Permission::Allow => true,
            _ => false,
        }
    }
}

impl Permissions {
    /// What is allowed where nothing is held back: everything.
    pub open spec fn unrestricted() -> Permissions {
        Permissions {
            env: EnvironmentPermissions {
                xdg_config_home: Permission::Allow,
                home: Permission::Allow,
                http_transport: Permission::Allow,
                identity: Permission::Allow,
                objects: Permission::Allow,
                git_prefix: Permission::Allow,
                ssh_prefix: Permission::Allow,
            },
            config: ConfigPermissions {
                git_binary: true,
                system: true,
                git: true,
                user: true,
                env: true,
                includes: true,
            },
            attributes: AttributePermissions { git_binary: true, system: true, git: true },
        }
    }

    /// Everything is allowed.
    pub fn all() -> (r: Permissions)
        ensures
            r == Self::unrestricted(),
    {
        Permissions {
            env: EnvironmentPermissions {
                xdg_config_home: Permission::Allow,
                home: Permission::Allow,
                http_transport: Permission::Allow,
                identity: Permission::Allow,
                objects: Permission::Allow,
                git_prefix: Permission::Allow,
                ssh_prefix: Permission::Allow,
            },
            config: ConfigPermissions {
                git_binary: true,
                system: true,
                git: true,
                user: true,
                env: true,
                includes: true,
            },
            attributes: AttributePermissions { git_binary: true, system: true, git: true },
        }
    }
}

impl Options {
    /// Whether these are the options that are usual: nothing is forced, filtered or
    /// overridden, everything is permitted, and malformed values count as absent.
    pub open spec fn is_usual(self) -> bool {
        &&& !self.open_path_as_is
        &&& self.git_dir_trust is None
        &&& self.object_store_slots == Slots::AsNeededByDiskState
        &&& self.filter_config_section is None
        &&& self.lossy_config is None
        &&& self.lenient_config
        &&& !self.bail_if_untrusted
        &&& self.permissions == Permissions::unrestricted()
        &&& self.api_config_overrides@.len() == 0
        &&& self.cli_config_overrides@.len() == 0
        &&& self.current_dir is None
    }
}

impl Default for Options {
    fn default() -> (r: Options)
        ensures
            r.is_usual(),
    {
        Options {
            open_path_as_is: false,
            git_dir_trust: None,
            object_store_slots: Slots::AsNeededByDiskState,
            filter_config_section: None,
            lossy_config: None,
            lenient_config: true,
            bail_if_untrusted: false,
            permissions: Permissions::all(),
            api_config_overrides: Vec::new(),
            cli_config_overrides: Vec::new(),
            current_dir: None,
        }
    }
}

impl TrustMapping {
    /// The options for a level of trust.
    pub fn into_value_by_level(self, level: TrustLevel) -> (r: Options)
        ensures
            r == match level {
                TrustLevel::Full => self.full,
                TrustLevel::Reduced => self.reduced,
            },
    {
        match level {
            TrustLevel::Full => self.full,
            TrustLevel::Reduced => self.reduced,
        }
    }
}

/// The trust that ownership gives: full trust exactly if the current user owns the
/// directory.
pub open spec fn trust_of_ownership(owned: bool) -> TrustLevel {
    if owned {
        TrustLevel::Full
    } else {
        TrustLevel::Reduced
    }
}

/// When references are logged: as configured, and otherwise only for a repository with a
/// work tree.
pub open spec fn reflog_policy(configured: Option<WriteReflog>, has_worktree: bool) -> WriteReflog {
    match configured {
        Some(policy) => policy,
        None => if has_worktree {
            WriteReflog::Normal
        } else {
            WriteReflog::Disable
        },
    }
}

/// When references are logged.
pub fn reflog_or_default(configured: Option<WriteReflog>, has_worktree: bool) -> (r: WriteReflog)
    ensures
        r == reflog_policy(configured, has_worktree),
{
    match configured {
        Some(policy) => policy,
        None => if has_worktree {
            WriteReflog::Normal
        } else {
            WriteReflog::Disable
        },
    }
}

/// The directory that is probed first: the path itself where it is to be taken as it is
/// or is named like a git directory, and `.git` below it otherwise.
pub open spec fn first_candidate(path: Seq<u8>, open_path_as_is: bool) -> Seq<u8> {
    if !open_path_as_is && !named_like_git_dir(path) && path_joined(path, dot_git()) is Some {
        path_joined(path, dot_git()).unwrap()
    } else {
        path
    }
}

/// The trust after the review, or the refusal to go on: a safe directory is fully
/// trusted; one that is not safe ends the open where the caller asked for that, and is
/// trusted less otherwise.
pub open spec fn reviewed_trust(safe: bool, bail_if_untrusted: bool) -> Option<TrustLevel> {
    if safe {
        Some(TrustLevel::Full)
    } else if bail_if_untrusted {
        None
    } else {
        Some(TrustLevel::Reduced)
    }
}

/// The directory whose safety is reviewed: the work tree, or the git directory where
/// there is none.
pub open spec fn reviewed_directory(worktree: Option<Seq<u8>>, git_dir: Seq<u8>) -> Seq<u8> {
    match worktree {
        Some(w) => w,
        None => git_dir,
    }
}

/// For each section, whether entries of the list of safe directories are taken from it:
/// only from the configuration of the system and of the user.
pub open spec fn safe_directory_sections(config: Seq<ConfigSectionView>) -> Seq<bool> {
    Seq::new(config.len(), |i: int| config[i].kind.trusted_by_default())
}

/// The list of safe directories that a configuration holds.
pub open spec fn safe_directories(config: Seq<ConfigSectionView>) -> Seq<Seq<u8>> {
    all_values(config, ConfigKey::SafeDirectory, safe_directory_sections(config))
}

/// Collects the list of safe directories.
pub fn safe_directory_list(config: &Config) -> (r: Vec<Vec<u8>>)
    ensures
        strings_view(r) == safe_directories(config@),
{
    let mut mask: Vec<bool> = Vec::new();
    let mut i: usize = 0;
    while i < config.sections.len()
        invariant
            i <= config.sections@.len(),
            mask@.len() == i,
            forall|j: int|
                0 <= j < i ==> mask@[j] == (#[trigger] config@[j]).kind.trusted_by_default(),
        decreases config.sections@.len() - i,
    {
        mask.push(config.sections[i].kind.is_trusted_by_default());
        i += 1;
    }
    assert(mask@ =~= safe_directory_sections(config@));
    config.values(ConfigKey::SafeDirectory, &mask)
}

} // verus!
