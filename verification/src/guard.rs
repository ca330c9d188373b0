//! Scoped tracking of shelved working-tree changes.
//!
//! A `StashGuard` records whether local edits have been set aside by a
//! shelve operation and not yet restored.  Whoever owns the guard must, on
//! every exit path, ask it once for a recovery notice: if the shelf is still
//! active the guard hands out the exact command that restores the changes,
//! and it does so exactly once.

use vstd::prelude::*;

verus! {

/// The single command that restores shelved changes, named in the recovery
/// notice.
pub open spec fn recovery_command() -> Seq<char> {
    "git stash pop"@
}

/// Tracks whether a shelve is active and whether the recovery notice has
/// already been handed out.
pub struct StashGuard {
    active: bool,
    notified: bool,
}

impl StashGuard {
    /// True while a shelve has been recorded and neither consumed nor
    /// reported.
    pub closed spec fn is_active(&self) -> bool {
        self.active
    }

    /// True once a recovery notice has been handed out.
    pub closed spec fn has_notified(&self) -> bool {
        self.notified
    }

    /// A fresh guard: nothing shelved, nothing reported.
    pub fn new() -> (g: StashGuard)
        ensures
            !g.is_active(),
            !g.has_notified(),
    {
        StashGuard { active: false, notified: false }
    }

    /// Records that a shelve operation has succeeded.
    pub fn mark_active(&mut self)
        ensures
            final(self).is_active(),
            final(self).has_notified() == old(self).has_notified(),
    {
        self.active = true;
    }

    /// Records that the shelf no longer needs tracking, after a successful
    /// unshelve or an explicit release; no recovery notice will follow.
    pub fn consume(&mut self)
        ensures
            !final(self).is_active(),
            final(self).has_notified() == old(self).has_notified(),
    {
        self.active = false;
    }

    /// The destruction check.  Returns the recovery command exactly when the
    /// shelf is still active and no notice has been handed out before; a
    /// second call returns nothing, so the notice is emitted at most once.
    pub fn take_recovery_notice(&mut self) -> (r: Option<String>)
        ensures
            r is Some <==> (old(self).is_active() && !old(self).has_notified()),
            r matches Some(m) ==> m@ == recovery_command(),
            final(self).is_active() == old(self).is_active(),
            final(self).has_notified() == (old(self).has_notified() || old(self).is_active()),
    {
        if self.active && !self.notified {
            self.notified = true;
            Some(String::from_str("git stash pop"))
        } else {
            if self.active {
                self.notified = true;
            }
            None
        }
    }
}

/// One recorded guard operation.
#[derive(Clone, Copy, Debug, PartialEq, Eq, Structural)]
pub enum GuardOp {
    MarkActive,
    Consume,
}

/// Whether the shelf is active after applying `ops`, in order, to a fresh
/// guard: each mark sets it, each consume clears it.
pub open spec fn active_after(ops: Seq<GuardOp>) -> bool
    decreases ops.len(),
{
    if ops.len() == 0 {
        false
    } else {
        match ops.last() {
            GuardOp::MarkActive => true,
            GuardOp::Consume => false,
        }
    }
}

/// If the shelf was marked active and never consumed, the guard is still
/// active when it is destroyed — `take_recovery_notice` then yields the
/// recovery notice, and by its contract yields it exactly once.  If the
/// last thing done was to consume the shelf, the guard is inactive and no
/// notice is yielded.
pub proof fn lemma_guard_outcome(ops: Seq<GuardOp>)
    ensures
        ((exists|i: int| 0 <= i < ops.len() && ops[i] is MarkActive) && (forall|i: int|
            0 <= i < ops.len() ==> !((#[trigger] ops[i]) is Consume))) ==> active_after(ops),
        ops.len() > 0 && ops.last() is Consume ==> !active_after(ops),
{
    if (exists|i: int| 0 <= i < ops.len() && ops[i] is MarkActive) && (forall|i: int|
        0 <= i < ops.len() ==> !((#[trigger] ops[i]) is Consume)) {
        assert(ops.len() > 0);
        assert(!(ops[ops.len() - 1] is Consume));
        assert(ops.last() is MarkActive);
    }
}

} // verus!
