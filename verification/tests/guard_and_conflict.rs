use wgit::conflict::{resolution_step, ResolutionEvent, ResolutionState};
use wgit::guard::StashGuard;

#[test]
fn guard_fresh_has_no_notice() {
    let mut g = StashGuard::new();
    assert!(g.take_recovery_notice().is_none());
}

#[test]
fn guard_marked_yields_notice_exactly_once() {
    let mut g = StashGuard::new();
    g.mark_active();
    let first = g.take_recovery_notice();
    assert_eq!(first.unwrap(), "git stash pop");
    assert!(g.take_recovery_notice().is_none());
}

#[test]
fn guard_consumed_yields_no_notice() {
    let mut g = StashGuard::new();
    g.mark_active();
    g.consume();
    assert!(g.take_recovery_notice().is_none());
}

#[test]
fn guard_remarked_after_consume_yields_notice() {
    let mut g = StashGuard::new();
    g.mark_active();
    g.consume();
    g.mark_active();
    assert!(g.take_recovery_notice().is_some());
}

#[test]
fn resolution_empty_listing_resolves() {
    let s = ResolutionState::Reporting;
    let s = resolution_step(s, &ResolutionEvent::ConflictsFetched { files: Vec::new() });
    assert_eq!(s, ResolutionState::Resolved);
}

#[test]
fn resolution_listing_then_continue_then_empty_resolves() {
    let s = ResolutionState::Reporting;
    let s = resolution_step(
        s,
        &ResolutionEvent::ConflictsFetched { files: vec![String::from("a.rs")] },
    );
    assert_eq!(s, ResolutionState::AwaitingUser);
    let s = resolution_step(s, &ResolutionEvent::UserContinue);
    assert_eq!(s, ResolutionState::Reporting);
    let s = resolution_step(s, &ResolutionEvent::ConflictsFetched { files: Vec::new() });
    assert_eq!(s, ResolutionState::Resolved);
}

#[test]
fn resolution_abort_before_empty_aborts() {
    let s = ResolutionState::Reporting;
    let s = resolution_step(
        s,
        &ResolutionEvent::ConflictsFetched { files: vec![String::from("a.rs")] },
    );
    let s = resolution_step(s, &ResolutionEvent::UserAbort);
    assert_eq!(s, ResolutionState::Aborted);
    // Terminal: further events change nothing.
    let s = resolution_step(s, &ResolutionEvent::ConflictsFetched { files: Vec::new() });
    assert_eq!(s, ResolutionState::Aborted);
}

#[test]
fn resolution_repeated_nonempty_listings_keep_waiting() {
    let mut s = ResolutionState::Reporting;
    for _ in 0..3 {
        s = resolution_step(
            s,
            &ResolutionEvent::ConflictsFetched { files: vec![String::from("x")] },
        );
        assert_eq!(s, ResolutionState::AwaitingUser);
        s = resolution_step(s, &ResolutionEvent::UserContinue);
        assert_eq!(s, ResolutionState::Reporting);
    }
    s = resolution_step(s, &ResolutionEvent::ConflictsFetched { files: Vec::new() });
    assert_eq!(s, ResolutionState::Resolved);
}
