use wgit::config::{ReviewMode, WgitConfig};
use wgit::branchcmd::{deletable_branches, make_branch_name};
use wgit::msg::CommitMessage;
use wgit::repo::{
    ensure_clean, get_branches, get_conflicted_files, is_dirty, parse_lines,
    parse_status_entries, split_str,
};
use wgit::text::{str_contains, str_has_prefix, str_is_blank, trim_str};
use wgit::workflow::WorkflowError;

#[test]
fn trim_removes_surrounding_whitespace() {
    assert_eq!(trim_str("  hello  "), "hello");
    assert_eq!(trim_str("\t a b \r\n"), "a b");
    assert_eq!(trim_str("plain"), "plain");
    assert_eq!(trim_str(""), "");
    assert_eq!(trim_str("   \t\n"), "");
}

#[test]
fn blank_test_matches_trimming() {
    assert!(str_is_blank(""));
    assert!(str_is_blank(" \t\r\n "));
    assert!(!str_is_blank(" x "));
}

#[test]
fn prefix_test() {
    assert!(str_has_prefix("release/2.0", "release/"));
    assert!(str_has_prefix("hotfix/1.2.1", "hotfix/"));
    assert!(!str_has_prefix("feature/login", "hotfix/"));
    assert!(!str_has_prefix("hot", "hotfix/"));
    assert!(str_has_prefix("anything", ""));
}

#[test]
fn contains_test() {
    assert!(str_contains("cafe\trefs/heads/main\n", "refs/heads/main"));
    assert!(!str_contains("cafe\trefs/heads/develop\n", "refs/heads/main"));
    assert!(str_contains("abc", ""));
    assert!(!str_contains("ab", "abc"));
}

#[test]
fn parse_lines_trims_and_drops_blanks() {
    assert_eq!(parse_lines("  a \n\n b\n"), vec!["a", "b"]);
    assert_eq!(parse_lines(""), Vec::<String>::new());
    assert_eq!(parse_lines("\n\n"), Vec::<String>::new());
    assert_eq!(parse_lines("one"), vec!["one"]);
    assert_eq!(parse_lines("x\r\ny\r\n"), vec!["x", "y"]);
}

#[test]
fn branch_listing_parses() {
    let out = "  main\n  develop\n* feature/login\n";
    // The listing format prints plain names; stray blanks are trimmed.
    assert_eq!(
        get_branches("main\ndevelop\nfeature/login\n"),
        vec!["main", "develop", "feature/login"]
    );
    assert_eq!(get_branches(out).len(), 3);
}

#[test]
fn conflicted_files_parse() {
    assert_eq!(
        get_conflicted_files("src/a.rs\nsrc/b.rs\n"),
        vec!["src/a.rs", "src/b.rs"]
    );
    assert_eq!(get_conflicted_files("\n"), Vec::<String>::new());
}

#[test]
fn split_keeps_every_field() {
    assert_eq!(split_str("a\0b\0", '\0'), vec!["a", "b", ""]);
    assert_eq!(split_str("", '\0'), vec![""]);
    assert_eq!(split_str("a::b", ':'), vec!["a", "", "b"]);
}

#[test]
fn status_entries_list_paths() {
    let out = "M  src/lib.rs\0?? notes.txt\0";
    assert_eq!(parse_status_entries(out), vec!["src/lib.rs", "notes.txt"]);
}

#[test]
fn status_entries_skip_rename_origin() {
    // A rename record names the new path; the record after it is the old
    // path and carries no path of its own.
    let out = "R  new.rs\0old.rs\0A  added.rs\0";
    assert_eq!(parse_status_entries(out), vec!["new.rs", "added.rs"]);
}

#[test]
fn status_entries_empty_report() {
    assert_eq!(parse_status_entries(""), Vec::<String>::new());
}

#[test]
fn dirty_test_and_clean_gate() {
    assert!(!is_dirty(""));
    assert!(!is_dirty("  \n"));
    assert!(is_dirty(" M src/lib.rs\n"));
    assert!(ensure_clean("").is_ok());
    assert!(matches!(
        ensure_clean("?? junk"),
        Err(WorkflowError::DirtyWorkspace)
    ));
}

#[test]
fn message_renders_all_parts() {
    let m = CommitMessage {
        ctype: String::from("feat"),
        scope: String::from(" ui "),
        subject: String::from(" add form "),
        body: String::from(" details\nmore "),
    };
    assert_eq!(m.render(), "feat(ui): add form\n\ndetails\nmore");
}

#[test]
fn message_renders_without_scope_and_body() {
    let m = CommitMessage {
        ctype: String::from("fix"),
        scope: String::from("   "),
        subject: String::from("patch crash"),
        body: String::from(""),
    };
    assert_eq!(m.render(), "fix: patch crash");
}

#[test]
fn message_validity_is_trimmed_subject() {
    let m = CommitMessage {
        ctype: String::from("fix"),
        scope: String::from(""),
        subject: String::from("  \t "),
        body: String::from(""),
    };
    assert!(!m.check_valid());
    let m2 = CommitMessage { subject: String::from(" x "), ..m };
    assert!(m2.check_valid());
}

#[test]
fn branch_name_built_from_category() {
    assert_eq!(make_branch_name("feature", "login"), "feature/login");
    assert_eq!(make_branch_name("hotfix", "1.2.1"), "hotfix/1.2.1");
}

#[test]
fn deletable_branches_exclude_protected() {
    let cfg = WgitConfig {
        remotes: Vec::new(),
        review_mode: ReviewMode::LocalMerge,
        main_branch: String::from("main"),
        dev_branch: String::from("develop"),
    };
    let branches = vec![
        String::from("main"),
        String::from("feature/a"),
        String::from("develop"),
        String::from("hotfix/b"),
    ];
    assert_eq!(
        deletable_branches(&cfg, branches),
        vec!["feature/a", "hotfix/b"]
    );
}

#[test]
fn default_config_values() {
    let cfg = WgitConfig::default();
    assert_eq!(cfg.main_branch, "main");
    assert_eq!(cfg.dev_branch, "develop");
    assert!(cfg.remotes.is_empty());
    assert!(matches!(cfg.review_mode, ReviewMode::LocalMerge));
}
