use wgit::config::{ReviewMode, WgitConfig};
use wgit::gitops::{GitOp, GitQuery};
use wgit::guard::StashGuard;
use wgit::sync::SyncState;
use wgit::workflow::{Directive, WorkflowError, WorkflowEvent};

fn config_with_remotes(remotes: Vec<(&str, &str)>) -> WgitConfig {
    WgitConfig {
        remotes: remotes
            .into_iter()
            .map(|(n, u)| (String::from(n), String::from(u)))
            .collect(),
        review_mode: ReviewMode::LocalMerge,
        main_branch: String::from("main"),
        dev_branch: String::from("develop"),
    }
}

#[test]
fn sync_no_remote_fails_before_anything() {
    let cfg = config_with_remotes(vec![]);
    let s = SyncState::start(&cfg);
    assert!(matches!(
        s.directive(&cfg),
        Directive::Fail(WorkflowError::NoRemoteConfigured)
    ));
}

#[test]
fn sync_single_remote_taken_silently() {
    let cfg = config_with_remotes(vec![("origin", "git@example:r.git")]);
    let s = SyncState::start(&cfg);
    assert!(matches!(s.directive(&cfg), Directive::Query(GitQuery::CurrentBranch)));
}

#[test]
fn sync_several_remotes_prompt() {
    let cfg = config_with_remotes(vec![("origin", "a"), ("backup", "b")]);
    let s = SyncState::start(&cfg);
    assert!(matches!(s.directive(&cfg), Directive::PromptRemote));
    let s = s.step(&cfg, WorkflowEvent::RemoteChosen { name: String::from("backup") });
    match s.directive(&cfg) {
        Directive::Query(GitQuery::CurrentBranch) => {}
        _ => panic!("expected the branch query"),
    }
}

#[test]
fn sync_dirty_tree_conflicted_pull_full_run() {
    // Scenario: a dirty working tree and a failing pull.  The shelve
    // happens, the pull failure enters conflict resolution, the user
    // resolves, the pull is finalized with a commit, the push succeeds,
    // the unshelve succeeds, and no recovery message is printed.
    let cfg = config_with_remotes(vec![("origin", "url")]);
    let mut guard = StashGuard::new();
    let s = SyncState::start(&cfg)
        .step(&cfg, WorkflowEvent::CurrentBranch { name: String::from("feature/w") })
        .step(&cfg, WorkflowEvent::Status { output: String::from(" M a.txt") });
    // Dirty: shelve first.
    match s.directive(&cfg) {
        Directive::Run(GitOp::StashPush) => {}
        _ => panic!("expected the shelve"),
    }
    let s = s.step(&cfg, WorkflowEvent::RunOk);
    assert!(matches!(s.directive(&cfg), Directive::MarkGuard));
    guard.mark_active();
    let s = s.step(&cfg, WorkflowEvent::GuardAck);
    match s.directive(&cfg) {
        Directive::Query(GitQuery::LsRemoteHeads { remote, branch }) => {
            assert_eq!(remote, "origin");
            assert_eq!(branch, "main");
        }
        _ => panic!("expected the remote refs listing"),
    }
    let s = s.step(
        &cfg,
        WorkflowEvent::LsRemoteOutput {
            output: String::from("cafe\trefs/heads/main\n"),
        },
    );
    match s.directive(&cfg) {
        Directive::Run(GitOp::Pull { remote, branch }) => {
            assert_eq!(remote, "origin");
            assert_eq!(branch, "feature/w");
        }
        _ => panic!("expected the pull"),
    }
    let s = s.step(&cfg, WorkflowEvent::RunFailed { err: String::from("conflict") });
    assert!(matches!(s.directive(&cfg), Directive::Query(GitQuery::ConflictedFiles)));
    let s = s.step(
        &cfg,
        WorkflowEvent::ConflictList { files: vec![String::from("a.txt")] },
    );
    assert!(matches!(s.directive(&cfg), Directive::ResolveConflicts));
    let s = s.step(&cfg, WorkflowEvent::ResolutionFinished { aborted: false });
    assert!(matches!(s.directive(&cfg), Directive::CheckMergeInProgress));
    let s = s.step(&cfg, WorkflowEvent::MergeInProgress { in_progress: true });
    match s.directive(&cfg) {
        Directive::Run(GitOp::CommitNoEdit) => {}
        _ => panic!("expected the merge-finalizing commit"),
    }
    let s = s.step(&cfg, WorkflowEvent::RunOk);
    match s.directive(&cfg) {
        Directive::Run(GitOp::PushUpstream { remote, branch }) => {
            assert_eq!(remote, "origin");
            assert_eq!(branch, "feature/w");
        }
        _ => panic!("expected the push"),
    }
    let s = s.step(&cfg, WorkflowEvent::RunOk);
    match s.directive(&cfg) {
        Directive::Run(GitOp::StashPop) => {}
        _ => panic!("expected the unshelve"),
    }
    let s = s.step(&cfg, WorkflowEvent::RunOk);
    assert!(matches!(s.directive(&cfg), Directive::ConsumeGuard));
    guard.consume();
    let s = s.step(&cfg, WorkflowEvent::GuardAck);
    assert!(matches!(s.directive(&cfg), Directive::Complete));
    // No recovery message: the guard was consumed.
    assert!(guard.take_recovery_notice().is_none());
}

#[test]
fn sync_missing_remote_main_is_pushed_first() {
    // Scenario: one remote configured and that remote missing a main
    // ref — main is pushed before the normal pull/push sequence runs.
    let cfg = config_with_remotes(vec![("origin", "url")]);
    let s = SyncState::start(&cfg)
        .step(&cfg, WorkflowEvent::CurrentBranch { name: String::from("develop") })
        .step(&cfg, WorkflowEvent::Status { output: String::from("") })
        .step(
            &cfg,
            WorkflowEvent::LsRemoteOutput { output: String::from("") },
        );
    match s.directive(&cfg) {
        Directive::Run(GitOp::PushUpstream { remote, branch }) => {
            assert_eq!(remote, "origin");
            assert_eq!(branch, "main");
        }
        _ => panic!("expected main to be pushed first"),
    }
    let s = s.step(&cfg, WorkflowEvent::RunOk);
    match s.directive(&cfg) {
        Directive::Run(GitOp::Pull { remote, branch }) => {
            assert_eq!(remote, "origin");
            assert_eq!(branch, "develop");
        }
        _ => panic!("expected the pull after bootstrapping"),
    }
}

#[test]
fn sync_remote_with_main_not_pushed_first() {
    let cfg = config_with_remotes(vec![("origin", "url")]);
    let s = SyncState::start(&cfg)
        .step(&cfg, WorkflowEvent::CurrentBranch { name: String::from("develop") })
        .step(&cfg, WorkflowEvent::Status { output: String::from("") })
        .step(
            &cfg,
            WorkflowEvent::LsRemoteOutput {
                output: String::from("feed0\trefs/heads/main"),
            },
        );
    assert!(matches!(s.directive(&cfg), Directive::Run(GitOp::Pull { .. })));
}

#[test]
fn sync_clean_tree_skips_shelving_and_guard() {
    let cfg = config_with_remotes(vec![("origin", "url")]);
    let s = SyncState::start(&cfg)
        .step(&cfg, WorkflowEvent::CurrentBranch { name: String::from("develop") })
        .step(&cfg, WorkflowEvent::Status { output: String::from("  \n") })
        .step(
            &cfg,
            WorkflowEvent::LsRemoteOutput {
                output: String::from("feed0\trefs/heads/main"),
            },
        )
        .step(&cfg, WorkflowEvent::RunOk)
        .step(&cfg, WorkflowEvent::RunOk);
    // Clean tree: after pull and push the workflow is done, with no
    // unshelve and no guard traffic.
    assert!(matches!(s.directive(&cfg), Directive::Complete));
}

#[test]
fn sync_remote_ref_check_uses_configured_main_name() {
    let mut cfg = config_with_remotes(vec![("origin", "url")]);
    cfg.main_branch = String::from("trunk");
    let s = SyncState::start(&cfg)
        .step(&cfg, WorkflowEvent::CurrentBranch { name: String::from("develop") })
        .step(&cfg, WorkflowEvent::Status { output: String::from("") });
    // The listing is asked for the configured main branch.
    match s.directive(&cfg) {
        Directive::Query(GitQuery::LsRemoteHeads { branch, .. }) => {
            assert_eq!(branch, "trunk")
        }
        _ => panic!("expected the remote refs listing"),
    }
    // A listing holding only another branch's ref does not count.
    let s = s.step(
        &cfg,
        WorkflowEvent::LsRemoteOutput {
            output: String::from("feed0\trefs/heads/main"),
        },
    );
    match s.directive(&cfg) {
        Directive::Run(GitOp::PushUpstream { branch, .. }) => assert_eq!(branch, "trunk"),
        _ => panic!("expected trunk to be pushed first"),
    }
}

#[test]
fn sync_push_failure_is_fatal() {
    let cfg = config_with_remotes(vec![("origin", "url")]);
    let s = SyncState::start(&cfg)
        .step(&cfg, WorkflowEvent::CurrentBranch { name: String::from("develop") })
        .step(&cfg, WorkflowEvent::Status { output: String::from("") })
        .step(
            &cfg,
            WorkflowEvent::LsRemoteOutput {
                output: String::from("feed0\trefs/heads/main"),
            },
        )
        .step(&cfg, WorkflowEvent::RunOk)
        .step(&cfg, WorkflowEvent::RunFailed { err: String::from("rejected") });
    match s.directive(&cfg) {
        Directive::Fail(WorkflowError::CommandFailed { detail }) => {
            assert_eq!(detail, "rejected")
        }
        _ => panic!("expected a fatal push failure"),
    }
}

#[test]
fn sync_pop_conflict_abort_leaves_guard_active() {
    // An unshelve that conflicts, with resolution aborted: the workflow
    // fails and the guard still owes its recovery message.
    let cfg = config_with_remotes(vec![("origin", "url")]);
    let mut guard = StashGuard::new();
    let s = SyncState::start(&cfg)
        .step(&cfg, WorkflowEvent::CurrentBranch { name: String::from("feature/w") })
        .step(&cfg, WorkflowEvent::Status { output: String::from(" M a") })
        .step(&cfg, WorkflowEvent::RunOk);
    guard.mark_active();
    let s = s
        .step(&cfg, WorkflowEvent::GuardAck)
        .step(
            &cfg,
            WorkflowEvent::LsRemoteOutput {
                output: String::from("feed0\trefs/heads/main"),
            },
        )
        .step(&cfg, WorkflowEvent::RunOk)
        .step(&cfg, WorkflowEvent::RunOk)
        .step(&cfg, WorkflowEvent::RunFailed { err: String::from("pop conflict") })
        .step(&cfg, WorkflowEvent::ConflictList { files: vec![String::from("a")] })
        .step(&cfg, WorkflowEvent::ResolutionFinished { aborted: true });
    assert!(matches!(
        s.directive(&cfg),
        Directive::Fail(WorkflowError::AbortedByUser)
    ));
    // The guard was never consumed: the recovery message fires, once.
    let notice = guard.take_recovery_notice();
    assert_eq!(notice.unwrap(), "git stash pop");
    assert!(guard.take_recovery_notice().is_none());
}

#[test]
fn sync_pop_failure_without_conflicts_is_fatal() {
    let cfg = config_with_remotes(vec![("origin", "url")]);
    let s = SyncState::start(&cfg)
        .step(&cfg, WorkflowEvent::CurrentBranch { name: String::from("feature/w") })
        .step(&cfg, WorkflowEvent::Status { output: String::from(" M a") })
        .step(&cfg, WorkflowEvent::RunOk)
        .step(&cfg, WorkflowEvent::GuardAck)
        .step(
            &cfg,
            WorkflowEvent::LsRemoteOutput {
                output: String::from("feed0\trefs/heads/main"),
            },
        )
        .step(&cfg, WorkflowEvent::RunOk)
        .step(&cfg, WorkflowEvent::RunOk)
        .step(&cfg, WorkflowEvent::RunFailed { err: String::from("stash gone") })
        .step(&cfg, WorkflowEvent::ConflictList { files: Vec::new() });
    match s.directive(&cfg) {
        Directive::Fail(WorkflowError::CommandFailed { detail }) => {
            assert_eq!(detail, "stash gone")
        }
        _ => panic!("expected a fatal unshelve failure"),
    }
}
