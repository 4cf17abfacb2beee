use gix_core::open::config::{Config, ConfigEntry, ConfigKey, ConfigSection, ConfigSourceKind, SectionFilter, TrustLevel};
use gix_core::open::trust::{elevate, is_covered, judge, paths_to_judge, pending_paths, Judgement, PendingPath};

fn section(kind: ConfigSourceKind, origin: Option<&str>, trust: TrustLevel) -> ConfigSection {
    ConfigSection {
        kind,
        origin_path: origin.map(|p| p.as_bytes().to_vec()),
        trust,
        entries: vec![ConfigEntry {
            key: ConfigKey::CoreBare,
            value: Some(b"false".to_vec()),
        }],
    }
}

fn sample() -> Config {
    Config {
        sections: vec![
            section(ConfigSourceKind::System, Some("/etc/gitconfig"), TrustLevel::Reduced),
            section(ConfigSourceKind::Global, Some("/home/u/.gitconfig"), TrustLevel::Reduced),
            section(ConfigSourceKind::Local, Some("/repo/.git/config"), TrustLevel::Reduced),
            section(ConfigSourceKind::Local, Some("/repo/.git/config"), TrustLevel::Reduced),
            section(ConfigSourceKind::Worktree, Some("/repo/.git/config.worktree"), TrustLevel::Full),
            section(ConfigSourceKind::Local, Some("/elsewhere/config"), TrustLevel::Reduced),
            section(ConfigSourceKind::Cli, None, TrustLevel::Reduced),
            section(ConfigSourceKind::Local, Some("/repo/.git/config"), TrustLevel::Reduced),
        ],
    }
}

fn judged(path: &str, safe: bool) -> Judgement {
    Judgement {
        path: path.as_bytes().to_vec(),
        safe,
    }
}

fn trusts(config: &Config) -> Vec<TrustLevel> {
    config.sections.iter().map(|s| s.trust).collect()
}

#[test]
fn each_file_is_listed_once() {
    assert_eq!(
        paths_to_judge(&sample()),
        vec![b"/repo/.git/config".to_vec(), b"/elsewhere/config".to_vec()]
    );
    assert_eq!(paths_to_judge(&Config { sections: vec![] }), Vec::<Vec<u8>>::new());
}

#[test]
fn sections_of_safe_files_become_fully_trusted() {
    let elevated = elevate(sample(), &vec![judged("/repo/.git/config", true), judged("/elsewhere/config", false)]);
    let full = TrustLevel::Full;
    let reduced = TrustLevel::Reduced;
    assert_eq!(
        trusts(&elevated),
        vec![reduced, reduced, full, full, full, reduced, reduced, full]
    );
    let mut expected = sample();
    expected.sections[2].trust = full;
    expected.sections[3].trust = full;
    expected.sections[7].trust = full;
    assert_eq!(elevated, expected);
}

#[test]
fn default_trusted_sections_are_left_alone() {
    let elevated = elevate(
        sample(),
        &vec![judged("/etc/gitconfig", true), judged("/home/u/.gitconfig", true)],
    );
    assert_eq!(elevated, sample());
}

#[test]
fn elevation_is_idempotent() {
    let judgements = vec![judged("/repo/.git/config", true), judged("/elsewhere/config", false)];
    let once = elevate(sample(), &judgements);
    let twice = elevate(once.clone(), &judgements);
    assert_eq!(once, twice);
}

#[test]
fn files_found_safe_are_not_judged_again() {
    let judgements = vec![judged("/repo/.git/config", true), judged("/elsewhere/config", false)];
    let once = elevate(sample(), &judgements);
    assert_eq!(paths_to_judge(&once), vec![b"/elsewhere/config".to_vec()]);
    let all = elevate(once, &vec![judged("/elsewhere/config", true)]);
    assert_eq!(paths_to_judge(&all), Vec::<Vec<u8>>::new());
}

#[test]
fn files_below_the_validated_directory_are_covered_under_full_trust() {
    assert!(is_covered(b"/repo/.git/config", b"/repo", TrustLevel::Full));
    assert!(is_covered(b"/repo", b"/repo", TrustLevel::Full));
    assert!(!is_covered(b"/repo/.git/config", b"/repo", TrustLevel::Reduced));
    assert!(!is_covered(b"/repository/config", b"/repo", TrustLevel::Full));
    assert!(!is_covered(b"/elsewhere/config", b"/repo", TrustLevel::Full));
    assert_eq!(
        pending_paths(&sample(), b"/repo", TrustLevel::Full),
        vec![
            PendingPath {
                path: b"/repo/.git/config".to_vec(),
                covered: true
            },
            PendingPath {
                path: b"/elsewhere/config".to_vec(),
                covered: false
            },
        ]
    );
    assert_eq!(
        pending_paths(&sample(), b"/repo", TrustLevel::Reduced)
            .iter()
            .map(|p| p.covered)
            .collect::<Vec<_>>(),
        vec![false, false]
    );
}

#[test]
fn files_are_judged_by_the_list_of_safe_directories() {
    let pending = pending_paths(&sample(), b"/repo", TrustLevel::Full);
    let safe_dirs = vec![b"/elsewhere/*".to_vec()];
    let forms = vec![None, Some(b"/elsewhere/config".to_vec())];
    assert_eq!(
        judge(&pending, &forms, b"/repo", TrustLevel::Full, None, None, &safe_dirs),
        vec![judged("/repo/.git/config", true), judged("/elsewhere/config", true)]
    );
    let moved = vec![None, Some(b"/real/config".to_vec())];
    assert_eq!(
        judge(&pending, &moved, b"/repo", TrustLevel::Full, None, None, &safe_dirs),
        vec![judged("/repo/.git/config", true), judged("/elsewhere/config", false)]
    );
    let reduced = pending_paths(&sample(), b"/repo", TrustLevel::Reduced);
    assert_eq!(
        judge(&reduced, &vec![], b"/repo", TrustLevel::Reduced, None, None, &safe_dirs),
        vec![judged("/repo/.git/config", false), judged("/elsewhere/config", true)]
    );
    assert_eq!(
        judge(&reduced, &vec![], b"/repo", TrustLevel::Reduced, None, None, &vec![b"*".to_vec()]),
        vec![judged("/repo/.git/config", true), judged("/elsewhere/config", true)]
    );
}

#[test]
fn filters_pass_sections_by_trust_and_origin() {
    let trusted = SectionFilter::trusted();
    let config = sample();
    assert_eq!(
        trusted.mask(&config),
        vec![false, false, false, false, true, false, false, false]
    );
    let files = SectionFilter {
        trusted_only: false,
        file_sections: true,
        process_sections: false,
    };
    assert_eq!(files.mask(&config), vec![true, true, true, true, true, true, false, true]);
    assert!(ConfigSourceKind::Env.is_process_supplied());
    assert!(ConfigSourceKind::EnvOverride.is_process_supplied());
    assert!(ConfigSourceKind::Cli.is_process_supplied());
    assert!(ConfigSourceKind::Api.is_process_supplied());
    assert!(!ConfigSourceKind::Local.is_process_supplied());
    assert!(ConfigSourceKind::System.is_trusted_by_default());
    assert!(ConfigSourceKind::Global.is_trusted_by_default());
    assert!(!ConfigSourceKind::Worktree.is_trusted_by_default());
    assert!(config.sections[2].is_eligible());
    assert!(!config.sections[0].is_eligible());
    assert!(!config.sections[4].is_eligible());
    assert!(!config.sections[6].is_eligible());
}

#[test]
fn lookups_take_the_last_section_and_the_last_line() {
    let config = Config {
        sections: vec![
            ConfigSection {
                kind: ConfigSourceKind::Global,
                origin_path: None,
                trust: TrustLevel::Full,
                entries: vec![
                    ConfigEntry { key: ConfigKey::SafeDirectory, value: Some(b"/a".to_vec()) },
                    ConfigEntry { key: ConfigKey::CoreBare, value: Some(b"true".to_vec()) },
                    ConfigEntry { key: ConfigKey::SafeDirectory, value: Some(b"/b".to_vec()) },
                ],
            },
            ConfigSection {
                kind: ConfigSourceKind::Local,
                origin_path: None,
                trust: TrustLevel::Reduced,
                entries: vec![
                    ConfigEntry { key: ConfigKey::CoreBare, value: None },
                    ConfigEntry { key: ConfigKey::SafeDirectory, value: Some(b"/c".to_vec()) },
                ],
            },
            ConfigSection {
                kind: ConfigSourceKind::Local,
                origin_path: None,
                trust: TrustLevel::Full,
                entries: vec![ConfigEntry { key: ConfigKey::SafeDirectory, value: None }],
            },
        ],
    };
    let all = vec![true, true, true];
    assert_eq!(config.deciding(ConfigKey::CoreBare, &all, false), Some(1));
    assert_eq!(config.deciding(ConfigKey::CoreBare, &all, true), Some(0));
    assert_eq!(config.deciding(ConfigKey::CoreBare, &vec![false, false, true], false), None);
    assert_eq!(config.deciding(ConfigKey::CoreWorktree, &all, false), None);
    assert_eq!(
        config.deciding_value(ConfigKey::CoreBare, &all),
        Some((0, &b"true".to_vec()))
    );
    assert_eq!(
        config.deciding_value(ConfigKey::SafeDirectory, &all),
        Some((1, &b"/c".to_vec()))
    );
    assert_eq!(
        config.deciding_value(ConfigKey::SafeDirectory, &vec![true, false, true]),
        Some((0, &b"/b".to_vec()))
    );
    assert_eq!(config.deciding_value(ConfigKey::CoreWorktree, &all), None);
    assert_eq!(config.deciding_entry(ConfigKey::CoreBare, &all), Some(None));
    assert_eq!(
        config.deciding_entry(ConfigKey::CoreBare, &vec![true, false, false]),
        Some(Some(&b"true".to_vec()))
    );
    assert_eq!(config.deciding_entry(ConfigKey::SafeDirectory, &all), Some(None));
    assert_eq!(config.deciding_entry(ConfigKey::UseReplaceRefs, &all), None);
    assert_eq!(
        config.values(ConfigKey::SafeDirectory, &all),
        vec![b"/a".to_vec(), b"/b".to_vec(), b"/c".to_vec()]
    );
    assert_eq!(
        config.values(ConfigKey::SafeDirectory, &vec![true, false, true]),
        vec![b"/a".to_vec(), b"/b".to_vec()]
    );
    assert_eq!(
        config.sections[0].value(ConfigKey::SafeDirectory).map(|e| e.value.clone()),
        Some(Some(b"/b".to_vec()))
    );
    assert!(config.sections[1].has(ConfigKey::CoreBare, false));
    assert!(!config.sections[1].has(ConfigKey::CoreBare, true));
    assert!(!config.sections[1].has(ConfigKey::CoreWorktree, false));
}
