use gix_core::hash::HashKind;
use gix_core::open::config::{Config, ConfigEntry, ConfigKey, ConfigSection, ConfigSourceKind, SectionFilter, TrustLevel};
use gix_core::open::error::{ConfigError, Error, Failure};
use gix_core::open::pipeline::{Action, Event, Opening, Phase};
use gix_core::open::replace::Reference;
use gix_core::open::repository::{
    reflog_or_default, safe_directory_list, EnvironmentOverrides, LoadedConfig, Options, Permission, Slots, StageOne,
    ThreadSafeRepository, TrustMapping, WriteReflog,
};
use gix_core::open::trust::PendingPath;
use gix_discover::repository::Kind;

fn b(s: &str) -> Vec<u8> {
    s.as_bytes().to_vec()
}

fn failure(what: &str) -> Failure {
    Failure {
        description: what.to_string(),
    }
}

fn stage_one(precompose_unicode: bool) -> StageOne {
    StageOne {
        reflog: None,
        precompose_unicode,
        object_hash: HashKind::Sha1,
        protect_windows: false,
    }
}

fn section(kind: ConfigSourceKind, origin: Option<&str>, trust: TrustLevel, entries: &[(ConfigKey, &str)]) -> ConfigSection {
    ConfigSection {
        kind,
        origin_path: origin.map(b),
        trust,
        entries: entries
            .iter()
            .map(|(key, value)| ConfigEntry {
                key: *key,
                value: Some(b(value)),
            })
            .collect(),
    }
}

fn loaded(sections: Vec<ConfigSection>, is_bare: bool) -> LoadedConfig {
    LoadedConfig {
        resolved: Config { sections },
        is_bare,
        reflog: None,
        refs_namespace: None,
        object_hash: HashKind::Sha1,
        use_multi_pack_index: true,
    }
}

fn step(state: Opening, event: Event) -> (Opening, Action) {
    assert!(state.is_expected(&event));
    state.step(event)
}

/// Drives an open from the probe of a git directory up to the moment the configuration is asked for.
fn until_config(start: (Opening, Action), kind: Kind, owned: bool) -> Opening {
    let (state, action) = start;
    assert!(matches!(action, Action::Probe { .. }));
    let (state, action) = step(state, Event::Probed(Ok(kind)));
    assert!(matches!(action, Action::QueryCurrentDir));
    let (state, action) = step(state, Event::CurrentDir(Ok(b("/cwd"))));
    let state = match action {
        Action::QueryOwnership { path } => {
            assert_eq!(path, state.git_dir);
            let (state, action) = step(state, Event::Ownership(Ok(owned)));
            assert!(matches!(action, Action::ReadCommonDir { .. }));
            state
        }
        Action::ReadCommonDir { .. } => state,
        _ => panic!("unexpected action"),
    };
    let (state, action) = step(state, Event::CommonDir(Ok(None)));
    assert!(matches!(action, Action::LoadStageOne { .. }));
    let (state, action) = step(state, Event::StageOne(Ok(stage_one(false))));
    assert!(matches!(action, Action::QueryEnvironment));
    let (state, action) = step(
        state,
        Event::Environment {
            git_install_dir: None,
            home: Some(b("/home/u")),
        },
    );
    assert!(matches!(action, Action::LoadConfig(_)));
    assert_eq!(state.phase, Phase::Config);
    state
}

fn finish(start: (Opening, Action)) -> ThreadSafeRepository {
    let (state, action) = start;
    match action {
        Action::Finish(repo) => {
            assert_eq!(state.phase, Phase::Done);
            repo
        }
        Action::ListReferences { prefix } => {
            assert_eq!(prefix, b("refs/replace/"));
            match step(state, Event::References(Some(vec![]))) {
                (_, Action::Finish(repo)) => repo,
                _ => panic!("the repository should be open"),
            }
        }
        _ => panic!("the open should come to its end"),
    }
}

#[test]
fn a_path_that_holds_no_repository_is_not_a_repository() {
    let (state, action) = ThreadSafeRepository::open(b("/nowhere"));
    assert!(matches!(action, Action::Probe { path } if path == b("/nowhere/.git")));
    let (state, action) = step(state, Event::Probed(Err(failure("no git directory"))));
    assert!(matches!(action, Action::Probe { path } if path == b("/nowhere")));
    assert_eq!(state.phase, Phase::Probing);
    let (state, action) = step(state, Event::Probed(Err(failure("still none"))));
    assert_eq!(state.phase, Phase::Done);
    match action {
        Action::Fail(error) => assert_eq!(
            error,
            Error::NotARepository {
                path: b("/nowhere"),
                source: failure("still none")
            }
        ),
        _ => panic!("the open should fail"),
    }
}

#[test]
fn a_path_named_like_a_git_directory_is_probed_once() {
    for path in ["/repo/.git", "/srv/bare.git"] {
        let (state, action) = ThreadSafeRepository::open(b(path));
        assert!(matches!(action, Action::Probe { path: probed } if probed == b(path)));
        let (_, action) = step(state, Event::Probed(Err(failure("none"))));
        assert!(matches!(
            action,
            Action::Fail(Error::NotARepository { path: failed, .. }) if failed == b(path)
        ));
    }
}

#[test]
fn a_path_taken_as_it_is_is_probed_once() {
    let mut options = Options::default();
    options.open_path_as_is = true;
    let (state, action) = ThreadSafeRepository::open_opts(b("/repo"), options);
    assert!(matches!(action, Action::Probe { path } if path == b("/repo")));
    let (_, action) = step(state, Event::Probed(Err(failure("none"))));
    assert!(matches!(
        action,
        Action::Fail(Error::NotARepository { path, source }) if path == b("/repo") && source == failure("none")
    ));
}

#[test]
fn the_path_itself_is_opened_where_it_holds_no_dot_git() {
    let (state, _) = ThreadSafeRepository::open(b("/srv/project"));
    let (state, action) = step(state, Event::Probed(Err(failure("none"))));
    assert!(matches!(action, Action::Probe { path } if path == b("/srv/project")));
    let (state, _) = step(state, Event::Probed(Ok(Kind::PossiblyBare)));
    let (state, action) = step(state, Event::CurrentDir(Ok(b("/cwd"))));
    assert!(matches!(action, Action::QueryOwnership { path } if path == b("/srv/project")));
    assert_eq!(state.git_dir, b("/srv/project"));
    assert_eq!(state.worktree_dir, None);
}

#[test]
fn an_owned_repository_is_fully_trusted_and_has_its_parent_as_work_tree() {
    let state = until_config(ThreadSafeRepository::open(b("/repo")), Kind::PossiblyBare, true);
    assert_eq!(state.git_dir, b("/repo/.git"));
    assert_eq!(state.worktree_dir, None);
    assert_eq!(state.trust, TrustLevel::Full);
    let (state, action) = step(state, Event::Config(Ok(loaded(vec![], false))));
    assert!(matches!(action, Action::QueryOwnership { path } if path == b("/repo")));
    assert_eq!(state.worktree_dir, Some(b("/repo")));
    let repo = finish(step(state, Event::Ownership(Ok(true))));
    assert_eq!(repo.trust, TrustLevel::Full);
    assert_eq!(repo.work_tree, Some(b("/repo")));
    assert_eq!(repo.git_dir, b("/repo/.git"));
    assert_eq!(repo.common_dir, None);
    assert_eq!(repo.refs.write_reflog, WriteReflog::Normal);
    assert_eq!(repo.objects.current_dir, b("/cwd"));
    assert_eq!(repo.objects.slots, Slots::AsNeededByDiskState);
    assert!(repo.objects.use_multi_pack_index);
    assert_eq!(repo.replacements, vec![]);
}

#[test]
fn a_bare_repository_has_no_work_tree_and_ends_at_once() {
    let state = until_config(ThreadSafeRepository::open(b("/srv/bare.git")), Kind::PossiblyBare, true);
    let repo = finish(step(state, Event::Config(Ok(loaded(vec![], true)))));
    assert_eq!(repo.work_tree, None);
    assert_eq!(repo.trust, TrustLevel::Full);
    assert_eq!(repo.refs.write_reflog, WriteReflog::Disable);
}

#[test]
fn discovery_of_a_work_tree_gives_both_directories() {
    let state = until_config(
        ThreadSafeRepository::open(b("/repo")),
        Kind::WorkTree { linked_git_dir: None },
        true,
    );
    assert_eq!(state.git_dir, b("/repo/.git"));
    assert_eq!(state.worktree_dir, Some(b("/repo")));
    let linked = until_config(
        ThreadSafeRepository::open(b("/linked/.git")),
        Kind::WorkTree {
            linked_git_dir: Some("/main/.git/worktrees/linked".into()),
        },
        true,
    );
    assert_eq!(linked.git_dir, b("/main/.git/worktrees/linked"));
    assert_eq!(linked.worktree_dir, Some(b("/linked")));
}

fn review(safe_dirs: &[&str], bail: bool) -> (Opening, Action) {
    let mut options = Options::default();
    options.bail_if_untrusted = bail;
    let state = until_config(ThreadSafeRepository::open_opts(b("/repo"), options), Kind::PossiblyBare, false);
    assert_eq!(state.trust, TrustLevel::Reduced);
    let entries: Vec<(ConfigKey, &str)> = safe_dirs.iter().map(|d| (ConfigKey::SafeDirectory, *d)).collect();
    let sections = vec![
        section(ConfigSourceKind::Global, Some("/home/u/.gitconfig"), TrustLevel::Full, &entries),
        section(ConfigSourceKind::Local, Some("/repo/.git/config"), TrustLevel::Reduced, &[(ConfigKey::CoreBare, "false")]),
    ];
    let (state, action) = step(state, Event::Config(Ok(loaded(sections, false))));
    assert!(matches!(action, Action::Canonicalize { path } if path == b("/repo")));
    step(state, Event::Canonical(Some(b("/repo"))))
}

#[test]
fn a_repository_of_another_user_is_fully_trusted_where_every_directory_is_safe() {
    let (state, action) = review(&["*"], false);
    assert_eq!(state.trust, TrustLevel::Full);
    match action {
        Action::CanonicalizeFiles { files } => assert_eq!(
            files,
            vec![PendingPath {
                path: b("/repo/.git/config"),
                covered: true
            }]
        ),
        _ => panic!("the files to judge should be listed"),
    }
    let repo = finish(step(state, Event::CanonicalFiles(vec![None])));
    assert_eq!(repo.trust, TrustLevel::Full);
    assert_eq!(repo.config.resolved.sections[1].trust, TrustLevel::Full);
    assert_eq!(repo.work_tree, Some(b("/repo")));
}

#[test]
fn a_repository_of_another_user_is_trusted_less_without_safe_directories() {
    let (state, action) = review(&[], false);
    assert_eq!(state.trust, TrustLevel::Reduced);
    match action {
        Action::CanonicalizeFiles { files } => assert_eq!(
            files,
            vec![PendingPath {
                path: b("/repo/.git/config"),
                covered: false
            }]
        ),
        _ => panic!("the files to judge should be listed"),
    }
    let repo = finish(step(state, Event::CanonicalFiles(vec![Some(b("/repo/.git/config"))])));
    assert_eq!(repo.trust, TrustLevel::Reduced);
    assert_eq!(repo.config.resolved.sections[1].trust, TrustLevel::Reduced);
}

#[test]
fn a_repository_of_another_user_fails_the_open_where_the_caller_asks_for_it() {
    let (state, action) = review(&[], true);
    assert_eq!(state.phase, Phase::Done);
    assert!(matches!(action, Action::Fail(Error::UnsafeGitDir { path }) if path == b("/repo")));
    let (_, action) = review(&["*", ""], true);
    assert!(matches!(action, Action::Fail(Error::UnsafeGitDir { .. })));
    let (state, _) = review(&["", "/repo"], true);
    assert_eq!(state.trust, TrustLevel::Full);
}

#[test]
fn files_outside_the_repository_are_judged_by_the_list() {
    let state = until_config(ThreadSafeRepository::open(b("/repo")), Kind::PossiblyBare, false);
    let sections = vec![
        section(
            ConfigSourceKind::System,
            Some("/etc/gitconfig"),
            TrustLevel::Full,
            &[(ConfigKey::SafeDirectory, "/shared/*")],
        ),
        section(ConfigSourceKind::Local, Some("/repo/.git/config"), TrustLevel::Reduced, &[]),
        section(ConfigSourceKind::Local, Some("/shared/config"), TrustLevel::Reduced, &[]),
        section(ConfigSourceKind::Local, Some("/repo/.git/config"), TrustLevel::Reduced, &[]),
    ];
    let (state, _) = step(state, Event::Config(Ok(loaded(sections, false))));
    let (state, action) = step(state, Event::Canonical(None));
    assert_eq!(state.trust, TrustLevel::Reduced);
    assert!(matches!(action, Action::CanonicalizeFiles { files } if files.len() == 2));
    let repo = finish(step(state, Event::CanonicalFiles(vec![None, Some(b("/shared/config"))])));
    let trusts: Vec<TrustLevel> = repo.config.resolved.sections.iter().map(|s| s.trust).collect();
    assert_eq!(
        trusts,
        vec![TrustLevel::Full, TrustLevel::Reduced, TrustLevel::Full, TrustLevel::Reduced]
    );
}

#[test]
fn a_work_tree_of_another_user_puts_trust_under_review() {
    let state = until_config(ThreadSafeRepository::open(b("/repo")), Kind::PossiblyBare, true);
    let (state, action) = step(state, Event::Config(Ok(loaded(vec![], false))));
    assert!(matches!(action, Action::QueryOwnership { .. }));
    let (state, action) = step(state, Event::Ownership(Ok(false)));
    assert!(matches!(action, Action::Canonicalize { path } if path == b("/repo")));
    let (state, _) = step(state, Event::Canonical(Some(b("/repo"))));
    assert_eq!(state.trust, TrustLevel::Reduced);
    let unknown = until_config(ThreadSafeRepository::open(b("/repo")), Kind::PossiblyBare, true);
    let (unknown, _) = step(unknown, Event::Config(Ok(loaded(vec![], false))));
    let (_, action) = step(unknown, Event::Ownership(Err(failure("cannot tell"))));
    assert!(matches!(action, Action::Canonicalize { .. }));
}

#[test]
fn a_trust_that_the_caller_forces_is_not_asked_of_ownership() {
    let mut options = Options::default();
    options.git_dir_trust = Some(TrustLevel::Full);
    let (state, _) = ThreadSafeRepository::open_opts(b("/repo"), options);
    let (state, _) = step(state, Event::Probed(Ok(Kind::PossiblyBare)));
    let (state, action) = step(state, Event::CurrentDir(Ok(b("/cwd"))));
    assert!(matches!(action, Action::ReadCommonDir { git_dir } if git_dir == b("/repo/.git")));
    assert_eq!(state.trust, TrustLevel::Full);
}

#[test]
fn switched_off_replacements_leave_the_mapping_empty() {
    let state = until_config(ThreadSafeRepository::open(b("/srv/bare.git")), Kind::PossiblyBare, true);
    let sections = vec![section(
        ConfigSourceKind::Local,
        Some("/srv/bare.git/config"),
        TrustLevel::Full,
        &[(ConfigKey::UseReplaceRefs, "false")],
    )];
    let (state, action) = step(state, Event::Config(Ok(loaded(sections, true))));
    assert_eq!(state.phase, Phase::Done);
    match action {
        Action::Finish(repo) => assert_eq!(repo.replacements, vec![]),
        _ => panic!("no reference should be asked for"),
    }
}

#[test]
fn references_under_the_prefix_become_the_mapping() {
    let state = until_config(ThreadSafeRepository::open(b("/srv/bare.git")), Kind::PossiblyBare, true);
    let (state, action) = step(state, Event::Config(Ok(loaded(vec![], true))));
    assert!(matches!(action, Action::ListReferences { prefix } if prefix == b("refs/replace/")));
    assert_eq!(state.phase, Phase::References);
    let source = gix_hash::ObjectId::from_hex(b"1111111111111111111111111111111111111111").expect("valid");
    let target = gix_hash::ObjectId::from_hex(b"2222222222222222222222222222222222222222").expect("valid");
    let references = vec![
        Reference {
            name: b("refs/replace/1111111111111111111111111111111111111111"),
            target: Some(target),
        },
        Reference {
            name: b("refs/replace/broken"),
            target: Some(target),
        },
    ];
    match step(state, Event::References(Some(references))) {
        (_, Action::Finish(repo)) => assert_eq!(repo.replacements, vec![(source, target)]),
        _ => panic!("the repository should be open"),
    }
    let state = until_config(ThreadSafeRepository::open(b("/srv/bare.git")), Kind::PossiblyBare, true);
    let (state, _) = step(state, Event::Config(Ok(loaded(vec![], true))));
    match step(state, Event::References(None)) {
        (_, Action::Finish(repo)) => assert_eq!(repo.replacements, vec![]),
        _ => panic!("the repository should be open"),
    }
}

#[test]
fn a_prefix_that_is_no_relative_path_fails_the_open() {
    let state = until_config(ThreadSafeRepository::open(b("/srv/bare.git")), Kind::PossiblyBare, true);
    let sections = vec![section(
        ConfigSourceKind::Local,
        Some("/srv/bare.git/config"),
        TrustLevel::Full,
        &[(ConfigKey::ReplaceRefBase, "/absolute/")],
    )];
    let (_, action) = step(state, Event::Config(Ok(loaded(sections, true))));
    assert!(matches!(
        action,
        Action::Fail(Error::Config(ConfigError::RefsPrefix { prefix })) if prefix == b("/absolute/")
    ));
}

#[test]
fn failures_of_the_outside_end_the_open() {
    let (state, _) = ThreadSafeRepository::open(b("/repo"));
    let (state, _) = step(state, Event::Probed(Ok(Kind::PossiblyBare)));
    let (_, action) = step(state, Event::CurrentDir(Err(failure("gone"))));
    assert!(matches!(action, Action::Fail(Error::Io(f)) if f == failure("gone")));

    let (state, _) = ThreadSafeRepository::open(b("/repo"));
    let (state, _) = step(state, Event::Probed(Ok(Kind::PossiblyBare)));
    let (state, _) = step(state, Event::CurrentDir(Ok(b("/cwd"))));
    let (_, action) = step(state, Event::Ownership(Err(failure("denied"))));
    assert!(matches!(action, Action::Fail(Error::Io(f)) if f == failure("denied")));

    let state = until_config(ThreadSafeRepository::open(b("/repo")), Kind::PossiblyBare, true);
    let broken = Error::Config(ConfigError::Load(failure("syntax")));
    let (state, action) = step(state, Event::Config(Err(broken.clone())));
    assert!(matches!(action, Action::Fail(e) if e == broken));
    assert_eq!(state.phase, Phase::Done);
}

#[test]
fn a_work_tree_that_is_refused_fails_the_open() {
    let mut options = Options::default();
    options.lenient_config = false;
    let state = until_config(ThreadSafeRepository::open_opts(b("/repo"), options), Kind::PossiblyBare, true);
    let sections = vec![section(
        ConfigSourceKind::Local,
        Some("/other/.git/config"),
        TrustLevel::Full,
        &[(ConfigKey::CoreWorktree, "../wt")],
    )];
    let (_, action) = step(state, Event::Config(Ok(loaded(sections, false))));
    assert!(matches!(
        action,
        Action::Fail(Error::Config(ConfigError::ConfigTypedString { key: ConfigKey::CoreWorktree }))
    ));
}

#[test]
fn the_configured_work_tree_takes_the_place_of_the_discovered_one() {
    let state = until_config(
        ThreadSafeRepository::open(b("/repo")),
        Kind::WorkTree { linked_git_dir: None },
        true,
    );
    let sections = vec![section(
        ConfigSourceKind::Local,
        Some("/repo/.git/config"),
        TrustLevel::Full,
        &[(ConfigKey::CoreWorktree, "../elsewhere")],
    )];
    let (state, action) = step(state, Event::Config(Ok(loaded(sections, false))));
    assert!(matches!(action, Action::QueryOwnership { path } if path == b("/repo/elsewhere")));
    assert_eq!(state.worktree_dir, Some(b("/repo/elsewhere")));
}

#[test]
fn the_common_directory_is_joined_onto_the_git_directory() {
    let (state, _) = ThreadSafeRepository::open(b("/main/.git/worktrees/w"));
    let (state, _) = step(state, Event::Probed(Err(failure("no .git below"))));
    let (state, _) = step(state, Event::Probed(Ok(Kind::WorkTreeGitDir { work_dir: "/w".into() })));
    let (state, _) = step(state, Event::CurrentDir(Ok(b("/cwd"))));
    let (state, _) = step(state, Event::Ownership(Ok(true)));
    let (state, action) = step(state, Event::CommonDir(Ok(Some(b("../..")))));
    assert_eq!(state.common_dir, Some(b("/main/.git/worktrees/w/../..")));
    match action {
        Action::LoadStageOne {
            config_dir,
            git_dir,
            trust,
            lossy,
            lenient,
        } => {
            assert_eq!(config_dir, b("/main/.git/worktrees/w/../.."));
            assert_eq!(git_dir, b("/main/.git/worktrees/w"));
            assert_eq!(trust, TrustLevel::Full);
            assert_eq!(lossy, None);
            assert!(lenient);
        }
        _ => panic!("the first look at the configuration should be asked for"),
    }
    assert_eq!(state.worktree_dir, Some(b("/w")));
}

#[test]
fn paths_are_precomposed_where_the_configuration_asks_for_it() {
    let decomposed = "/cafe\u{301}/.git";
    let composed = "/caf\u{e9}/.git";
    let (state, _) = ThreadSafeRepository::open(b(decomposed));
    let (state, _) = step(state, Event::Probed(Ok(Kind::WorkTree { linked_git_dir: None })));
    let (state, _) = step(state, Event::CurrentDir(Ok(b("/cwd/e\u{301}"))));
    let (state, _) = step(state, Event::Ownership(Ok(true)));
    let (state, _) = step(state, Event::CommonDir(Ok(None)));
    assert_eq!(state.git_dir, b(decomposed));
    let (state, _) = step(state, Event::StageOne(Ok(stage_one(true))));
    assert_eq!(state.git_dir, b(composed));
    assert_eq!(state.worktree_dir, Some(b("/caf\u{e9}")));
    assert_eq!(state.current_dir, b("/cwd/\u{e9}"));

    let (state, _) = ThreadSafeRepository::open(b(decomposed));
    let (state, _) = step(state, Event::Probed(Ok(Kind::WorkTree { linked_git_dir: None })));
    let (state, _) = step(state, Event::CurrentDir(Ok(b("/cwd"))));
    let (state, _) = step(state, Event::Ownership(Ok(true)));
    let (state, _) = step(state, Event::CommonDir(Ok(None)));
    let (state, _) = step(state, Event::StageOne(Ok(stage_one(false))));
    assert_eq!(state.git_dir, b(decomposed));
}

#[test]
fn the_home_directory_is_used_only_where_it_is_permitted() {
    let mut options = Options::default();
    options.permissions.env.home = Permission::Deny;
    options.api_config_overrides = vec![b("core.bare=false")];
    let (state, _) = ThreadSafeRepository::open_opts(b("/repo"), options);
    let (state, _) = step(state, Event::Probed(Ok(Kind::PossiblyBare)));
    let (state, _) = step(state, Event::CurrentDir(Ok(b("/cwd"))));
    let (state, _) = step(state, Event::Ownership(Ok(true)));
    let (state, _) = step(state, Event::CommonDir(Ok(None)));
    let (state, _) = step(state, Event::StageOne(Ok(stage_one(false))));
    let (state, action) = step(
        state,
        Event::Environment {
            git_install_dir: Some(b("/usr")),
            home: Some(b("/home/u")),
        },
    );
    assert_eq!(state.home, None);
    match action {
        Action::LoadConfig(request) => {
            assert_eq!(request.home, None);
            assert_eq!(request.git_install_dir, Some(b("/usr")));
            assert_eq!(request.git_dir, b("/repo/.git"));
            assert_eq!(request.trust, TrustLevel::Full);
            assert_eq!(request.filter, SectionFilter::trusted());
            assert_eq!(request.api_config_overrides, vec![b("core.bare=false")]);
            assert_eq!(request.stage_one, stage_one(false));
        }
        _ => panic!("the configuration should be asked for"),
    }
    let allowed = until_config(ThreadSafeRepository::open(b("/repo")), Kind::PossiblyBare, true);
    assert_eq!(allowed.home, Some(b("/home/u")));
}

#[test]
fn the_environment_names_the_repository_and_its_work_tree() {
    let mut reduced = Options::default();
    reduced.bail_if_untrusted = true;
    let map = TrustMapping {
        full: Options::default(),
        reduced,
    };
    let overrides = EnvironmentOverrides {
        worktree_dir: Some(b("/env/wt")),
        git_dir: Some(b("/env/repo.git")),
    };
    let (state, action) = ThreadSafeRepository::open_with_environment_overrides(b("/fallback"), map.clone(), overrides.clone());
    assert!(matches!(action, Action::Probe { path } if path == b("/env/repo.git")));
    let (_, action) = step(state, Event::Probed(Err(failure("none"))));
    assert!(matches!(
        action,
        Action::Fail(Error::NotARepository { path, .. }) if path == b("/env/repo.git")
    ));

    let start = ThreadSafeRepository::open_with_environment_overrides(b("/fallback"), map.clone(), overrides);
    let state = until_config(start, Kind::PossiblyBare, false);
    assert_eq!(state.git_dir, b("/env/repo.git"));
    assert_eq!(state.worktree_dir, Some(b("/env/wt")));
    assert_eq!(state.trust, TrustLevel::Reduced);
    assert!(state.options.bail_if_untrusted);

    let none = EnvironmentOverrides {
        worktree_dir: None,
        git_dir: None,
    };
    let start = ThreadSafeRepository::open_with_environment_overrides(b("/fallback"), map, none);
    assert!(matches!(&start.1, Action::Probe { path } if *path == b("/fallback")));
    let state = until_config(start, Kind::WorkTree { linked_git_dir: None }, true);
    assert_eq!(state.trust, TrustLevel::Full);
    assert!(!state.options.bail_if_untrusted);
}

#[test]
fn options_are_chosen_by_trust() {
    let mut reduced = Options::default();
    reduced.lenient_config = false;
    let map = TrustMapping {
        full: Options::default(),
        reduced: reduced.clone(),
    };
    assert_eq!(map.clone().into_value_by_level(TrustLevel::Full), Options::default());
    assert_eq!(map.into_value_by_level(TrustLevel::Reduced), reduced);
    assert!(Permission::Allow.is_allowed());
    assert!(!Permission::Deny.is_allowed());
    assert!(!Permission::Forbid.is_allowed());
}

#[test]
fn references_are_logged_as_configured_or_by_the_work_tree() {
    assert_eq!(reflog_or_default(None, true), WriteReflog::Normal);
    assert_eq!(reflog_or_default(None, false), WriteReflog::Disable);
    assert_eq!(reflog_or_default(Some(WriteReflog::Always), false), WriteReflog::Always);
    assert_eq!(reflog_or_default(Some(WriteReflog::Disable), true), WriteReflog::Disable);
}

#[test]
fn safe_directories_come_from_the_system_and_the_user_only() {
    let config = Config {
        sections: vec![
            section(ConfigSourceKind::System, None, TrustLevel::Full, &[(ConfigKey::SafeDirectory, "/a")]),
            section(ConfigSourceKind::Local, None, TrustLevel::Full, &[(ConfigKey::SafeDirectory, "*")]),
            section(
                ConfigSourceKind::Global,
                None,
                TrustLevel::Reduced,
                &[(ConfigKey::SafeDirectory, ""), (ConfigKey::SafeDirectory, "/b")],
            ),
            section(ConfigSourceKind::Cli, None, TrustLevel::Full, &[(ConfigKey::SafeDirectory, "*")]),
        ],
    };
    assert_eq!(safe_directory_list(&config), vec![b("/a"), b(""), b("/b")]);
}
