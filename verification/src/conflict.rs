//! The interactive conflict-resolution loop, as a state machine.
//!
//! The loop is entered when a merge, pull or unshelve failure proves
//! conflict-shaped.  Each round re-fetches the conflicted files — never
//! cached, since resolution happens out-of-band — and, while any remain,
//! offers exactly two choices: continue (the user claims resolution is
//! staged) or abort.  The loop has no iteration bound; it ends only on an
//! empty conflict set or an explicit abort.

use vstd::prelude::*;

verus! {

/// The loop's states.  `Reporting` re-queries the conflict set;
/// `AwaitingUser` waits for one of the two choices; `Resolved` and
/// `Aborted` are terminal.
#[derive(Clone, Copy, Debug, PartialEq, Eq, Structural)]
pub enum ResolutionState {
    Reporting,
    AwaitingUser,
    Resolved,
    Aborted,
}

/// One observation fed to the loop: a fresh conflicted-file listing, or
/// the user's choice at the prompt.
pub enum ResolutionEvent {
    ConflictsFetched { files: Vec<String> },
    UserContinue,
    UserAbort,
}

/// The transition function.  A listing moves `Reporting` to `Resolved`
/// (empty) or `AwaitingUser` (non-empty); a choice moves `AwaitingUser`
/// back to `Reporting` or to `Aborted`.  Terminal states absorb every
/// event, and an event that does not belong to the current state changes
/// nothing.
pub open spec fn spec_resolution_step(s: ResolutionState, e: ResolutionEvent) -> ResolutionState {
    match s {
        ResolutionState::Reporting => match e {
            ResolutionEvent::ConflictsFetched { files } => if files@.len() == 0 {
                ResolutionState::Resolved
            } else {
                ResolutionState::AwaitingUser
            },
            _ => s,
        },
        ResolutionState::AwaitingUser => match e {
            ResolutionEvent::UserAbort => ResolutionState::Aborted,
            ResolutionEvent::UserContinue => ResolutionState::Reporting,
            _ => s,
        },
        _ => s,
    }
}

/// Executable transition, equal to the specification step.
pub fn resolution_step(s: ResolutionState, e: &ResolutionEvent) -> (r: ResolutionState)
    ensures
        r == spec_resolution_step(s, *e),
{
    match s {
        ResolutionState::Reporting => match e {
            ResolutionEvent::ConflictsFetched { files } => if files.len() == 0 {
                ResolutionState::Resolved
            } else {
                ResolutionState::AwaitingUser
            },
            _ => s,
        },
        ResolutionState::AwaitingUser => match e {
            ResolutionEvent::UserAbort => ResolutionState::Aborted,
            ResolutionEvent::UserContinue => ResolutionState::Reporting,
            _ => s,
        },
        _ => s,
    }
}

/// The state after feeding every event of `evs`, in order, from `s`.
pub open spec fn resolution_run(s: ResolutionState, evs: Seq<ResolutionEvent>) -> ResolutionState
    decreases evs.len(),
{
    if evs.len() == 0 {
        s
    } else {
        resolution_run(spec_resolution_step(s, evs[0]), evs.drop_first())
    }
}

/// Event `i` of a run from `s` is an abort the user actually took: the
/// loop stood at the prompt and the choice was Abort.
pub open spec fn abort_taken_at(s: ResolutionState, evs: Seq<ResolutionEvent>, i: int) -> bool {
    &&& 0 <= i < evs.len()
    &&& resolution_run(s, evs.take(i)) is AwaitingUser
    &&& evs[i] is UserAbort
}

/// Event `i` of a run from `s` is an empty conflict listing received while
/// reporting: the moment the loop succeeds.
pub open spec fn resolved_at(s: ResolutionState, evs: Seq<ResolutionEvent>, i: int) -> bool {
    &&& 0 <= i < evs.len()
    &&& resolution_run(s, evs.take(i)) is Reporting
    &&& (evs[i] matches ResolutionEvent::ConflictsFetched { files } && files@.len() == 0)
}

proof fn lemma_run_take_shift(
    s: ResolutionState,
    evs: Seq<ResolutionEvent>,
    j: int,
)
    requires
        evs.len() > 0,
        0 <= j <= evs.len() - 1,
    ensures
        resolution_run(spec_resolution_step(s, evs[0]), evs.drop_first().take(j))
            == resolution_run(s, evs.take(j + 1)),
{
    let t = evs.take(j + 1);
    assert(t.len() == j + 1 > 0);
    assert(t[0] == evs[0]);
    assert(t.drop_first() =~= evs.drop_first().take(j));
}

proof fn lemma_aborted_iff(s: ResolutionState, evs: Seq<ResolutionEvent>)
    ensures
        resolution_run(s, evs) is Aborted <==> (s is Aborted || exists|i: int|
            abort_taken_at(s, evs, i)),
    decreases evs.len(),
{
    if evs.len() == 0 {
        assert(forall|i: int| !abort_taken_at(s, evs, i));
    } else {
        let s1 = spec_resolution_step(s, evs[0]);
        let rest = evs.drop_first();
        lemma_aborted_iff(s1, rest);
        assert forall|j: int| 0 <= j < rest.len() implies (abort_taken_at(s1, rest, j)
            <==> abort_taken_at(s, evs, j + 1)) by {
            lemma_run_take_shift(s, evs, j);
        }
        assert(evs.take(0) =~= Seq::<ResolutionEvent>::empty());
        // The first step reaches `Aborted` exactly when the start state was
        // already terminal-aborted or the first event is a taken abort.
        assert(s1 is Aborted <==> (s is Aborted || abort_taken_at(s, evs, 0)));
        if resolution_run(s, evs) is Aborted {
            if !(s is Aborted) && !abort_taken_at(s, evs, 0) {
                let j = choose|j: int| abort_taken_at(s1, rest, j);
                assert(abort_taken_at(s, evs, j + 1));
            }
        }
        if s is Aborted || exists|i: int| abort_taken_at(s, evs, i) {
            if !(s1 is Aborted) {
                let i = choose|i: int| abort_taken_at(s, evs, i);
                assert(i >= 1);
                assert(abort_taken_at(s1, rest, i - 1));
            }
        }
    }
}

proof fn lemma_resolved_iff(s: ResolutionState, evs: Seq<ResolutionEvent>)
    ensures
        resolution_run(s, evs) is Resolved <==> (s is Resolved || exists|i: int|
            resolved_at(s, evs, i)),
    decreases evs.len(),
{
    if evs.len() == 0 {
        assert(forall|i: int| !resolved_at(s, evs, i));
    } else {
        let s1 = spec_resolution_step(s, evs[0]);
        let rest = evs.drop_first();
        lemma_resolved_iff(s1, rest);
        assert forall|j: int| 0 <= j < rest.len() implies (resolved_at(s1, rest, j) <==> resolved_at(
            s,
            evs,
            j + 1,
        )) by {
            lemma_run_take_shift(s, evs, j);
        }
        assert(evs.take(0) =~= Seq::<ResolutionEvent>::empty());
        assert(s1 is Resolved <==> (s is Resolved || resolved_at(s, evs, 0)));
        if resolution_run(s, evs) is Resolved {
            if !(s is Resolved) && !resolved_at(s, evs, 0) {
                let j = choose|j: int| resolved_at(s1, rest, j);
                assert(resolved_at(s, evs, j + 1));
            }
        }
        if s is Resolved || exists|i: int| resolved_at(s, evs, i) {
            if !(s1 is Resolved) {
                let i = choose|i: int| resolved_at(s, evs, i);
                assert(i >= 1);
                assert(resolved_at(s1, rest, i - 1));
            }
        }
    }
}

/// The loop, started at `Reporting`, ends `Aborted` exactly when the user
/// took Abort at a prompt before any conflict listing came back empty, and
/// ends `Resolved` exactly when a conflict listing came back empty first.
pub proof fn lemma_resolution_terminal(evs: Seq<ResolutionEvent>)
    ensures
        resolution_run(ResolutionState::Reporting, evs) is Aborted <==> exists|i: int|
            abort_taken_at(ResolutionState::Reporting, evs, i),
        resolution_run(ResolutionState::Reporting, evs) is Resolved <==> exists|i: int|
            resolved_at(ResolutionState::Reporting, evs, i),
{
    lemma_aborted_iff(ResolutionState::Reporting, evs);
    lemma_resolved_iff(ResolutionState::Reporting, evs);
}

} // verus!
