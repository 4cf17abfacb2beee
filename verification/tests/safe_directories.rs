use gix_core::open::error::Error;
use gix_core::open::safe_directory::{check_safe_directories, is_safe, SafeDirectoryPattern};

fn list(entries: &[&str]) -> Vec<Vec<u8>> {
    entries.iter().map(|e| e.as_bytes().to_vec()).collect()
}

fn parts(names: &[&str]) -> Vec<Vec<u8>> {
    names.iter().map(|n| n.as_bytes().to_vec()).collect()
}

fn check(path: &str, entries: &[&str]) -> bool {
    check_safe_directories(path.as_bytes(), None, None, None, &list(entries)).is_ok()
}

#[test]
fn nothing_is_safe_without_entries() {
    assert!(!check("/repo", &[]));
    assert_eq!(
        check_safe_directories(b"/repo", None, None, None, &list(&[])),
        Err(Error::UnsafeGitDir { path: b"/repo".to_vec() })
    );
}

#[test]
fn the_empty_entry_wins_over_an_earlier_wildcard() {
    assert!(check("/repo", &["*"]));
    assert!(!check("/repo", &["*", ""]));
    assert!(!check("/repo", &["/repo", "*", "/repo", ""]));
    assert!(!check("/repo", &["*", "/other", ""]));
}

#[test]
fn a_wildcard_after_the_empty_entry_restores_safety() {
    assert!(check("/repo", &["", "*"]));
    assert!(check("/repo", &["*", "", "*"]));
    assert!(check("/repo", &["", "/other", "*", "relative"]));
    assert!(check("/repo", &["*", "", "/repo"]));
    assert!(!check("/repo", &["*", "", "/other"]));
}

#[test]
fn a_literal_path_matches_the_same_directory_only() {
    assert!(check("/repo", &["/repo"]));
    assert!(check("/a/b/c", &["/a/b/c"]));
    assert!(!check("/repo/sub", &["/repo"]));
    assert!(!check("/repository", &["/repo"]));
    assert!(!check("/rep", &["/repo"]));
    assert!(!check("/", &["/repo"]));
    assert!(!check("/repo", &["/repo/sub"]));
}

#[test]
fn paths_compare_by_their_components() {
    assert!(check("/repo", &["/repo/"]));
    assert!(check("/a/b", &["/a//b"]));
    assert!(check("/a/b", &["/a/./b"]));
    assert!(!check("/a/b", &["/a/../a/b"]));
}

#[test]
fn a_path_ending_in_a_star_matches_its_parent_and_all_below() {
    assert!(check("/a", &["/a/*"]));
    assert!(check("/a/b", &["/a/*"]));
    assert!(check("/a/b/c/d", &["/a/*"]));
    assert!(!check("/ab", &["/a/*"]));
    assert!(!check("/ab/c", &["/a/*"]));
    assert!(!check("/b/a", &["/a/*"]));
    assert!(!check("/", &["/a/*"]));
    assert!(check("/anything/at/all", &["/*"]));
    assert!(!check("/a*", &["/a/*"]));
    assert!(!check("/ab", &["/a*"]));
    assert!(check("/a*", &["/a*"]));
}

#[test]
fn paths_that_are_not_absolute_never_match() {
    assert!(!check("/repo", &["repo"]));
    assert!(!check("repo", &["repo"]));
    assert!(!check("/repo", &["./repo", "../repo", "repo/*", "./*"]));
    assert!(!check("relative/dir", &["relative/*"]));
    assert!(check("/repo", &["repo", "/repo", "other"]));
    assert!(!check("/repo", &["*", "repo", "", "repo"]));
    assert!(check("/repo", &["", "repo", "*", "repo"]));
}

#[test]
fn a_relative_directory_is_safe_by_wildcard_only() {
    assert!(check("relative", &["*"]));
    assert!(!check("relative", &["/relative", "relative", "/*"]));
}

#[test]
fn the_canonical_form_is_what_is_tested() {
    let entries = list(&["/real/repo"]);
    assert!(check_safe_directories(b"/link", Some(b"/real/repo"), None, None, &entries).is_ok());
    assert!(check_safe_directories(b"/real/repo", None, None, None, &entries).is_ok());
    let by_link = list(&["/link"]);
    assert_eq!(
        check_safe_directories(b"/link", Some(b"/real/repo"), None, None, &by_link),
        Err(Error::UnsafeGitDir { path: b"/real/repo".to_vec() })
    );
    assert!(check_safe_directories(b"/link", None, None, None, &by_link).is_ok());
}

#[test]
fn placeholders_are_expanded_before_matching() {
    let home = list(&["~/repo"]);
    assert!(check_safe_directories(b"/home/user/repo", None, None, Some(b"/home/user"), &home).is_ok());
    assert!(!check_safe_directories(b"/home/other/repo", None, None, Some(b"/home/user"), &home).is_ok());
    assert!(!check_safe_directories(b"/home/user/repo", None, None, None, &home).is_ok());
    let prefix = list(&["%(prefix)/share/*"]);
    assert!(check_safe_directories(b"/usr/share/x", None, Some(b"/usr"), None, &prefix).is_ok());
    assert!(!check_safe_directories(b"/usr/share/x", None, None, None, &prefix).is_ok());
    assert!(!check_safe_directories(b"/opt/share/x", None, Some(b"/usr"), None, &prefix).is_ok());
}

#[test]
fn entries_resolve_to_patterns() {
    assert_eq!(SafeDirectoryPattern::resolve(b"*", None, None), Some(SafeDirectoryPattern::Wildcard));
    assert_eq!(SafeDirectoryPattern::resolve(b"", None, None), Some(SafeDirectoryPattern::Reset));
    assert_eq!(
        SafeDirectoryPattern::resolve(b"/a/b", None, None),
        Some(SafeDirectoryPattern::AbsoluteLiteral(parts(&["/", "a", "b"])))
    );
    assert_eq!(
        SafeDirectoryPattern::resolve(b"/a/b/*", None, None),
        Some(SafeDirectoryPattern::AbsolutePrefixWildcard(parts(&["/", "a", "b"])))
    );
    assert_eq!(
        SafeDirectoryPattern::resolve(b"/*", None, None),
        Some(SafeDirectoryPattern::AbsolutePrefixWildcard(parts(&["/"])))
    );
    assert_eq!(SafeDirectoryPattern::resolve(b"a/b", None, None), None);
    assert_eq!(SafeDirectoryPattern::resolve(b"~/x", None, None), None);
    assert_eq!(
        SafeDirectoryPattern::resolve(b"~/x", None, Some(b"/h")),
        Some(SafeDirectoryPattern::AbsoluteLiteral(parts(&["/", "h", "x"])))
    );
}

#[test]
fn paths_are_classified_by_their_components() {
    assert_eq!(SafeDirectoryPattern::classify(false, Some(parts(&["a"]))), None);
    assert_eq!(SafeDirectoryPattern::classify(true, None), None);
    assert_eq!(
        SafeDirectoryPattern::classify(true, Some(parts(&["/", "a"]))),
        Some(SafeDirectoryPattern::AbsoluteLiteral(parts(&["/", "a"])))
    );
    assert_eq!(
        SafeDirectoryPattern::classify(true, Some(parts(&["/", "a", "*"]))),
        Some(SafeDirectoryPattern::AbsolutePrefixWildcard(parts(&["/", "a"])))
    );
    assert_eq!(
        SafeDirectoryPattern::classify(true, Some(parts(&[]))),
        Some(SafeDirectoryPattern::AbsoluteLiteral(parts(&[])))
    );
}

#[test]
fn patterns_are_applied_in_their_order() {
    let test = Some(parts(&["/", "a", "b"]));
    let literal = SafeDirectoryPattern::AbsoluteLiteral(parts(&["/", "a", "b"]));
    let below = SafeDirectoryPattern::AbsolutePrefixWildcard(parts(&["/", "a"]));
    let other = SafeDirectoryPattern::AbsoluteLiteral(parts(&["/", "x"]));
    assert!(literal.matches(&test));
    assert!(below.matches(&test));
    assert!(!other.matches(&test));
    assert!(SafeDirectoryPattern::Wildcard.matches(&None));
    assert!(!literal.matches(&None));
    assert!(!SafeDirectoryPattern::Reset.matches(&test));
    assert!(!is_safe(&test, &vec![]));
    assert!(is_safe(&test, &vec![Some(literal.clone())]));
    assert!(is_safe(&test, &vec![None, Some(below.clone()), None]));
    assert!(!is_safe(&test, &vec![Some(other.clone()), None]));
    assert!(!is_safe(&test, &vec![Some(literal.clone()), Some(SafeDirectoryPattern::Reset)]));
    assert!(is_safe(
        &test,
        &vec![Some(SafeDirectoryPattern::Reset), Some(other), Some(SafeDirectoryPattern::Wildcard)]
    ));
    assert!(is_safe(&test, &vec![Some(literal), None, Some(below)]));
}

#[test]
fn an_entry_stands_for_what_came_of_interpolating_it() {
    assert_eq!(SafeDirectoryPattern::resolved(b"*", Some(b"/ignored".to_vec())), Some(SafeDirectoryPattern::Wildcard));
    assert_eq!(SafeDirectoryPattern::resolved(b"", None), Some(SafeDirectoryPattern::Reset));
    assert_eq!(
        SafeDirectoryPattern::resolved(b"~/x", Some(b"/home/u/x".to_vec())),
        Some(SafeDirectoryPattern::AbsoluteLiteral(parts(&["/", "home", "u", "x"])))
    );
    assert_eq!(
        SafeDirectoryPattern::resolved(b"%(prefix)/*", Some(b"/usr/*".to_vec())),
        Some(SafeDirectoryPattern::AbsolutePrefixWildcard(parts(&["/", "usr"])))
    );
}

#[test]
fn an_entry_that_cannot_be_interpolated_is_taken_as_it_was_written() {
    assert_eq!(SafeDirectoryPattern::resolved(b"~/x", None), None);
    assert_eq!(
        SafeDirectoryPattern::resolved(b"/literal", None),
        Some(SafeDirectoryPattern::AbsoluteLiteral(parts(&["/", "literal"])))
    );
    assert_eq!(SafeDirectoryPattern::resolve(b"%(prefix)/x", None, None), None);
    assert!(!check("/repo", &["~/repo"]));
    assert!(check("/repo", &["~/repo", "*"]));
}

#[test]
fn every_entry_of_a_list_is_resolved() {
    let entries = SafeDirectoryPattern::resolve_all(&list(&["*", "", "rel", "/a/*", "~/b"]), None, Some(b"/h"));
    assert_eq!(
        entries,
        vec![
            Some(SafeDirectoryPattern::Wildcard),
            Some(SafeDirectoryPattern::Reset),
            None,
            Some(SafeDirectoryPattern::AbsolutePrefixWildcard(parts(&["/", "a"]))),
            Some(SafeDirectoryPattern::AbsoluteLiteral(parts(&["/", "h", "b"]))),
        ]
    );
    assert_eq!(SafeDirectoryPattern::resolve_all(&vec![], None, None), vec![]);
}

#[test]
fn safety_is_granted_after_the_last_empty_entry_only() {
    assert!(!check("/repo", &["/repo", "", "/other", "rel"]));
    assert!(check("/repo", &["", "/other", "/repo", "rel"]));
    assert!(check("/repo", &["*", "", "/repo/*"]));
    assert!(!check("/repo", &["/repo/*", "*", "/repo", ""]));
}
