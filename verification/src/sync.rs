//! The repository-sync workflow, as a state machine.
//!
//! Syncing tolerates a dirty tree by shelving: the target remote is
//! resolved (failing when none is configured, prompting only when several
//! are), local changes are shelved if the tree is dirty and the shelve
//! guard marked, the main branch is pushed first when the remote lacks a
//! ref for it, the current branch is pulled — a conflict-shaped failure
//! runs resolution and finalizes with a commit when a merge is still in
//! progress — then pushed, and finally the shelf is restored and the
//! guard consumed.  If restoring conflicts and resolution is aborted, the
//! guard stays active and its recovery notice is the user's guidance.

use vstd::prelude::*;
use crate::config::WgitConfig;
use crate::gitops::{GitOp, GitQuery};
use crate::text::{contains_seq, is_blank, str_contains, str_is_blank};
use crate::workflow::{Directive, ErrorModel, EventModel, WorkflowError, WorkflowEvent};

verus! {

/// What every step of the running sync carries: the chosen remote, the
/// current branch, and whether a shelve happened.
pub struct SyncCtx {
    pub remote: String,
    pub branch: String,
    pub stashed: bool,
}

/// Spec-level model of `SyncCtx`.
#[verifier::ext_equal]
pub struct SyncCtxModel {
    pub remote: Seq<char>,
    pub branch: Seq<char>,
    pub stashed: bool,
}

impl View for SyncCtx {
    type V = SyncCtxModel;

    open spec fn view(&self) -> SyncCtxModel {
        SyncCtxModel { remote: self.remote@, branch: self.branch@, stashed: self.stashed }
    }
}

/// Where within the running sync the workflow stands.
pub enum SyncPhase {
    /// Listing the remote's refs for the main branch.
    CheckingRemoteMain,
    /// Pushing the main branch to bootstrap a remote that lacks it.
    PushingMain,
    /// Pulling the current branch.
    Pulling,
    /// The pull failed; querying conflicted files to decide whether the
    /// failure is conflict-shaped.
    PullClassifying { err: String },
    /// Conflict resolution for the pull is running.
    PullResolving,
    /// Resolution succeeded; checking whether a merge is still in
    /// progress.
    PullCheckingMerge,
    /// Finalizing the pulled merge with a commit.
    PullCommitting,
    /// Pushing the current branch.
    Pushing,
    /// Restoring the shelved changes.
    Unstashing,
    /// The unshelve failed; querying conflicted files.
    PopClassifying { err: String },
    /// Conflict resolution for the unshelve is running.
    PopResolving,
    /// Releasing the shelve guard.
    ConsumingGuard,
}

/// Spec-level model of `SyncPhase`.
#[verifier::ext_equal]
pub enum SyncPhaseModel {
    CheckingRemoteMain,
    PushingMain,
    Pulling,
    PullClassifying { err: Seq<char> },
    PullResolving,
    PullCheckingMerge,
    PullCommitting,
    Pushing,
    Unstashing,
    PopClassifying { err: Seq<char> },
    PopResolving,
    ConsumingGuard,
}

impl View for SyncPhase {
    type V = SyncPhaseModel;

    open spec fn view(&self) -> SyncPhaseModel {
        match self {
            SyncPhase::CheckingRemoteMain => SyncPhaseModel::CheckingRemoteMain,
            SyncPhase::PushingMain => SyncPhaseModel::PushingMain,
            SyncPhase::Pulling => SyncPhaseModel::Pulling,
            SyncPhase::PullClassifying { err } => SyncPhaseModel::PullClassifying { err: err@ },
            SyncPhase::PullResolving => SyncPhaseModel::PullResolving,
            SyncPhase::PullCheckingMerge => SyncPhaseModel::PullCheckingMerge,
            SyncPhase::PullCommitting => SyncPhaseModel::PullCommitting,
            SyncPhase::Pushing => SyncPhaseModel::Pushing,
            SyncPhase::Unstashing => SyncPhaseModel::Unstashing,
            SyncPhase::PopClassifying { err } => SyncPhaseModel::PopClassifying { err: err@ },
            SyncPhase::PopResolving => SyncPhaseModel::PopResolving,
            SyncPhase::ConsumingGuard => SyncPhaseModel::ConsumingGuard,
        }
    }
}

/// The states of the sync workflow.
pub enum SyncState {
    /// Several remotes are configured; waiting for the choice.
    AwaitingRemote,
    /// Querying the current branch.
    QueryingBranch { remote: String },
    /// Querying working-tree status to decide whether to shelve.
    CheckingDirty { remote: String, branch: String },
    /// Shelving local changes.
    Stashing { remote: String, branch: String },
    /// Recording the shelve on the guard.
    MarkingGuard { remote: String, branch: String },
    /// The main sequence: remote check, pull, push, unshelve.
    Running { ctx: SyncCtx, phase: SyncPhase },
    /// The workflow completed.
    Done,
    /// The workflow failed.
    Failed { err: WorkflowError },
}

/// Spec-level model of `SyncState`.
#[verifier::ext_equal]
pub enum SyncModel {
    AwaitingRemote,
    QueryingBranch { remote: Seq<char> },
    CheckingDirty { remote: Seq<char>, branch: Seq<char> },
    Stashing { remote: Seq<char>, branch: Seq<char> },
    MarkingGuard { remote: Seq<char>, branch: Seq<char> },
    Running { ctx: SyncCtxModel, phase: SyncPhaseModel },
    Done,
    Failed { err: ErrorModel },
}

impl View for SyncState {
    type V = SyncModel;

    open spec fn view(&self) -> SyncModel {
        match self {
            SyncState::AwaitingRemote => SyncModel::AwaitingRemote,
            SyncState::QueryingBranch { remote } => SyncModel::QueryingBranch { remote: remote@ },
            SyncState::CheckingDirty { remote, branch } => SyncModel::CheckingDirty {
                remote: remote@,
                branch: branch@,
            },
            SyncState::Stashing { remote, branch } => SyncModel::Stashing {
                remote: remote@,
                branch: branch@,
            },
            SyncState::MarkingGuard { remote, branch } => SyncModel::MarkingGuard {
                remote: remote@,
                branch: branch@,
            },
            SyncState::Running { ctx, phase } => SyncModel::Running { ctx: ctx@, phase: phase@ },
            SyncState::Done => SyncModel::Done,
            SyncState::Failed { err } => SyncModel::Failed { err: err@ },
        }
    }
}

/// The remote's ref listing shows the main branch exactly when it contains
/// `refs/heads/` followed by the main branch name.
pub open spec fn remote_has_main(cfg: &WgitConfig, output: Seq<char>) -> bool {
    contains_seq(output, "refs/heads/"@ + cfg.main_branch@)
}

/// The sync workflow's initial state: fail with no remote configured,
/// take a single remote silently, prompt among several.
pub open spec fn spec_sync_start(cfg: &WgitConfig) -> SyncModel {
    if cfg.remotes@.len() == 0 {
        SyncModel::Failed { err: ErrorModel::NoRemoteConfigured }
    } else if cfg.remotes@.len() == 1 {
        SyncModel::QueryingBranch { remote: cfg.remotes@[0].0@ }
    } else {
        SyncModel::AwaitingRemote
    }
}

/// The transition function of the sync workflow.  An event that does not
/// belong to the current state changes nothing.
pub open spec fn spec_sync_step(cfg: &WgitConfig, m: SyncModel, e: EventModel) -> SyncModel {
    match m {
        SyncModel::AwaitingRemote => match e {
            EventModel::RemoteChosen { name } => SyncModel::QueryingBranch { remote: name },
            EventModel::PromptCancelled => SyncModel::Failed { err: ErrorModel::AbortedByUser },
            _ => m,
        },
        SyncModel::QueryingBranch { remote } => match e {
            EventModel::CurrentBranch { name } => SyncModel::CheckingDirty {
                remote,
                branch: name,
            },
            EventModel::RunFailed { err } => SyncModel::Failed {
                err: ErrorModel::CommandFailed { detail: err },
            },
            _ => m,
        },
        SyncModel::CheckingDirty { remote, branch } => match e {
            EventModel::Status { output } => if is_blank(output) {
                SyncModel::Running {
                    ctx: SyncCtxModel { remote, branch, stashed: false },
                    phase: SyncPhaseModel::CheckingRemoteMain,
                }
            } else {
                SyncModel::Stashing { remote, branch }
            },
            _ => m,
        },
        SyncModel::Stashing { remote, branch } => match e {
            EventModel::RunOk => SyncModel::MarkingGuard { remote, branch },
            EventModel::RunFailed { err } => SyncModel::Failed {
                err: ErrorModel::CommandFailed { detail: err },
            },
            _ => m,
        },
        SyncModel::MarkingGuard { remote, branch } => match e {
            EventModel::GuardAck => SyncModel::Running {
                ctx: SyncCtxModel { remote, branch, stashed: true },
                phase: SyncPhaseModel::CheckingRemoteMain,
            },
            _ => m,
        },
        SyncModel::Running { ctx, phase } => match phase {
            SyncPhaseModel::CheckingRemoteMain => match e {
                EventModel::LsRemoteOutput { output } => if remote_has_main(cfg, output) {
                    SyncModel::Running { ctx, phase: SyncPhaseModel::Pulling }
                } else {
                    SyncModel::Running { ctx, phase: SyncPhaseModel::PushingMain }
                },
                EventModel::RunFailed { err } => SyncModel::Failed {
                    err: ErrorModel::CommandFailed { detail: err },
                },
                _ => m,
            },
            SyncPhaseModel::PushingMain => match e {
                EventModel::RunOk => SyncModel::Running { ctx, phase: SyncPhaseModel::Pulling },
                EventModel::RunFailed { err } => SyncModel::Failed {
                    err: ErrorModel::CommandFailed { detail: err },
                },
                _ => m,
            },
            SyncPhaseModel::Pulling => match e {
                EventModel::RunOk => SyncModel::Running { ctx, phase: SyncPhaseModel::Pushing },
                EventModel::RunFailed { err } => SyncModel::Running {
                    ctx,
                    phase: SyncPhaseModel::PullClassifying { err },
                },
                _ => m,
            },
            SyncPhaseModel::PullClassifying { err } => match e {
                EventModel::ConflictList { files } => if files.len() == 0 {
                    SyncModel::Failed { err: ErrorModel::CommandFailed { detail: err } }
                } else {
                    SyncModel::Running { ctx, phase: SyncPhaseModel::PullResolving }
                },
                _ => m,
            },
            SyncPhaseModel::PullResolving => match e {
                EventModel::ResolutionFinished { aborted } => if aborted {
                    SyncModel::Failed { err: ErrorModel::AbortedByUser }
                } else {
                    SyncModel::Running { ctx, phase: SyncPhaseModel::PullCheckingMerge }
                },
                _ => m,
            },
            SyncPhaseModel::PullCheckingMerge => match e {
                EventModel::MergeInProgress { in_progress } => if in_progress {
                    SyncModel::Running { ctx, phase: SyncPhaseModel::PullCommitting }
                } else {
                    SyncModel::Running { ctx, phase: SyncPhaseModel::Pushing }
                },
                EventModel::RunFailed { err } => SyncModel::Failed {
                    err: ErrorModel::CommandFailed { detail: err },
                },
                _ => m,
            },
            SyncPhaseModel::PullCommitting => match e {
                EventModel::RunOk => SyncModel::Running { ctx, phase: SyncPhaseModel::Pushing },
                EventModel::RunFailed { err } => SyncModel::Failed {
                    err: ErrorModel::CommandFailed { detail: err },
                },
                _ => m,
            },
            SyncPhaseModel::Pushing => match e {
                EventModel::RunOk => if ctx.stashed {
                    SyncModel::Running { ctx, phase: SyncPhaseModel::Unstashing }
                } else {
                    SyncModel::Done
                },
                EventModel::RunFailed { err } => SyncModel::Failed {
                    err: ErrorModel::CommandFailed { detail: err },
                },
                _ => m,
            },
            SyncPhaseModel::Unstashing => match e {
                EventModel::RunOk => SyncModel::Running {
                    ctx,
                    phase: SyncPhaseModel::ConsumingGuard,
                },
                EventModel::RunFailed { err } => SyncModel::Running {
                    ctx,
                    phase: SyncPhaseModel::PopClassifying { err },
                },
                _ => m,
            },
            SyncPhaseModel::PopClassifying { err } => match e {
                EventModel::ConflictList { files } => if files.len() == 0 {
                    SyncModel::Failed { err: ErrorModel::CommandFailed { detail: err } }
                } else {
                    SyncModel::Running { ctx, phase: SyncPhaseModel::PopResolving }
                },
                _ => m,
            },
            SyncPhaseModel::PopResolving => match e {
                EventModel::ResolutionFinished { aborted } => if aborted {
                    SyncModel::Failed { err: ErrorModel::AbortedByUser }
                } else {
                    SyncModel::Running { ctx, phase: SyncPhaseModel::ConsumingGuard }
                },
                _ => m,
            },
            SyncPhaseModel::ConsumingGuard => match e {
                EventModel::GuardAck => SyncModel::Done,
                _ => m,
            },
        },
        SyncModel::Done => m,
        SyncModel::Failed { .. } => m,
    }
}

impl SyncState {
    /// The workflow's initial state, resolved from the configured remotes.
    pub fn start(cfg: &WgitConfig) -> (s: SyncState)
        ensures
            s@ == spec_sync_start(cfg),
    {
        if cfg.remotes.len() == 0 {
            SyncState::Failed { err: WorkflowError::NoRemoteConfigured }
        } else if cfg.remotes.len() == 1 {
            let remote = cfg.remotes[0].0.clone();
            SyncState::QueryingBranch { remote }
        } else {
            SyncState::AwaitingRemote
        }
    }

    /// Applies one event, exactly as the transition function says.
    pub fn step(self, cfg: &WgitConfig, e: WorkflowEvent) -> (r: SyncState)
        ensures
            r@ == spec_sync_step(cfg, self@, e@),
    {
        match self {
            SyncState::AwaitingRemote => match e {
                WorkflowEvent::RemoteChosen { name } => SyncState::QueryingBranch {
                    remote: name,
                },
                WorkflowEvent::PromptCancelled => SyncState::Failed {
                    err: WorkflowError::AbortedByUser,
                },
                _ => SyncState::AwaitingRemote,
            },
            SyncState::QueryingBranch { remote } => match e {
                WorkflowEvent::CurrentBranch { name } => SyncState::CheckingDirty {
                    remote,
                    branch: name,
                },
                WorkflowEvent::RunFailed { err } => SyncState::Failed {
                    err: WorkflowError::CommandFailed { detail: err },
                },
                _ => SyncState::QueryingBranch { remote },
            },
            SyncState::CheckingDirty { remote, branch } => match e {
                WorkflowEvent::Status { output } => if str_is_blank(output.as_str()) {
                    SyncState::Running {
                        ctx: SyncCtx { remote, branch, stashed: false },
                        phase: SyncPhase::CheckingRemoteMain,
                    }
                } else {
                    SyncState::Stashing { remote, branch }
                },
                _ => SyncState::CheckingDirty { remote, branch },
            },
            SyncState::Stashing { remote, branch } => match e {
                WorkflowEvent::RunOk => SyncState::MarkingGuard { remote, branch },
                WorkflowEvent::RunFailed { err } => SyncState::Failed {
                    err: WorkflowError::CommandFailed { detail: err },
                },
                _ => SyncState::Stashing { remote, branch },
            },
            SyncState::MarkingGuard { remote, branch } => match e {
                WorkflowEvent::GuardAck => SyncState::Running {
                    ctx: SyncCtx { remote, branch, stashed: true },
                    phase: SyncPhase::CheckingRemoteMain,
                },
                _ => SyncState::MarkingGuard { remote, branch },
            },
            SyncState::Running { ctx, phase } => match (phase, e) {
                (SyncPhase::CheckingRemoteMain, WorkflowEvent::LsRemoteOutput { output }) => {
                    let mut needle = String::from_str("refs/heads/");
                    needle.append(cfg.main_branch.as_str());
                    if str_contains(output.as_str(), needle.as_str()) {
                        SyncState::Running { ctx, phase: SyncPhase::Pulling }
                    } else {
                        SyncState::Running { ctx, phase: SyncPhase::PushingMain }
                    }
                },
                (SyncPhase::CheckingRemoteMain, WorkflowEvent::RunFailed { err }) => {
                    SyncState::Failed { err: WorkflowError::CommandFailed { detail: err } }
                },
                (SyncPhase::PushingMain, WorkflowEvent::RunOk) => SyncState::Running {
                    ctx,
                    phase: SyncPhase::Pulling,
                },
                (SyncPhase::PushingMain, WorkflowEvent::RunFailed { err }) => SyncState::Failed {
                    err: WorkflowError::CommandFailed { detail: err },
                },
                (SyncPhase::Pulling, WorkflowEvent::RunOk) => SyncState::Running {
                    ctx,
                    phase: SyncPhase::Pushing,
                },
                (SyncPhase::Pulling, WorkflowEvent::RunFailed { err }) => SyncState::Running {
                    ctx,
                    phase: SyncPhase::PullClassifying { err },
                },
                (SyncPhase::PullClassifying { err }, WorkflowEvent::ConflictList { files }) => {
                    if files.len() == 0 {
                        SyncState::Failed { err: WorkflowError::CommandFailed { detail: err } }
                    } else {
                        SyncState::Running { ctx, phase: SyncPhase::PullResolving }
                    }
                },
                (SyncPhase::PullResolving, WorkflowEvent::ResolutionFinished { aborted }) => {
                    if aborted {
                        SyncState::Failed { err: WorkflowError::AbortedByUser }
                    } else {
                        SyncState::Running { ctx, phase: SyncPhase::PullCheckingMerge }
                    }
                },
                (SyncPhase::PullCheckingMerge, WorkflowEvent::MergeInProgress { in_progress }) => {
                    if in_progress {
                        SyncState::Running { ctx, phase: SyncPhase::PullCommitting }
                    } else {
                        SyncState::Running { ctx, phase: SyncPhase::Pushing }
                    }
                },
                (SyncPhase::PullCheckingMerge, WorkflowEvent::RunFailed { err }) => {
                    SyncState::Failed { err: WorkflowError::CommandFailed { detail: err } }
                },
                (SyncPhase::PullCommitting, WorkflowEvent::RunOk) => SyncState::Running {
                    ctx,
                    phase: SyncPhase::Pushing,
                },
                (SyncPhase::PullCommitting, WorkflowEvent::RunFailed { err }) => SyncState::Failed {
                    err: WorkflowError::CommandFailed { detail: err },
                },
                (SyncPhase::Pushing, WorkflowEvent::RunOk) => if ctx.stashed {
                    SyncState::Running { ctx, phase: SyncPhase::Unstashing }
                } else {
                    SyncState::Done
                },
                (SyncPhase::Pushing, WorkflowEvent::RunFailed { err }) => SyncState::Failed {
                    err: WorkflowError::CommandFailed { detail: err },
                },
                (SyncPhase::Unstashing, WorkflowEvent::RunOk) => SyncState::Running {
                    ctx,
                    phase: SyncPhase::ConsumingGuard,
                },
                (SyncPhase::Unstashing, WorkflowEvent::RunFailed { err }) => SyncState::Running {
                    ctx,
                    phase: SyncPhase::PopClassifying { err },
                },
                (SyncPhase::PopClassifying { err }, WorkflowEvent::ConflictList { files }) => {
                    if files.len() == 0 {
                        SyncState::Failed { err: WorkflowError::CommandFailed { detail: err } }
                    } else {
                        SyncState::Running { ctx, phase: SyncPhase::PopResolving }
                    }
                },
                (SyncPhase::PopResolving, WorkflowEvent::ResolutionFinished { aborted }) => {
                    if aborted {
                        SyncState::Failed { err: WorkflowError::AbortedByUser }
                    } else {
                        SyncState::Running { ctx, phase: SyncPhase::ConsumingGuard }
                    }
                },
                (SyncPhase::ConsumingGuard, WorkflowEvent::GuardAck) => SyncState::Done,
                (ph, _) => SyncState::Running { ctx, phase: ph },
            },
            SyncState::Done => SyncState::Done,
            SyncState::Failed { err } => SyncState::Failed { err },
        }
    }
}

/// What the directive for each sync state must be, with every payload
/// pinned.
pub open spec fn sync_directive_ok(cfg: &WgitConfig, m: SyncModel, d: Directive) -> bool {
    match m {
        SyncModel::AwaitingRemote => d is PromptRemote,
        SyncModel::QueryingBranch { .. } => d matches Directive::Query(GitQuery::CurrentBranch),
        SyncModel::CheckingDirty { .. } => d matches Directive::Query(GitQuery::StatusPorcelain),
        SyncModel::Stashing { .. } => d matches Directive::Run(GitOp::StashPush),
        SyncModel::MarkingGuard { .. } => d is MarkGuard,
        SyncModel::Running { ctx, phase } => match phase {
            SyncPhaseModel::CheckingRemoteMain => {
                &&& d matches Directive::Query(GitQuery::LsRemoteHeads { remote, branch })
                &&& remote@ == ctx.remote
                &&& branch@ == cfg.main_branch@
            },
            SyncPhaseModel::PushingMain => {
                &&& d matches Directive::Run(GitOp::PushUpstream { remote, branch })
                &&& remote@ == ctx.remote
                &&& branch@ == cfg.main_branch@
            },
            SyncPhaseModel::Pulling => {
                &&& d matches Directive::Run(GitOp::Pull { remote, branch })
                &&& remote@ == ctx.remote
                &&& branch@ == ctx.branch
            },
            SyncPhaseModel::PullClassifying { .. } => d matches Directive::Query(
                GitQuery::ConflictedFiles,
            ),
            SyncPhaseModel::PullResolving => d is ResolveConflicts,
            SyncPhaseModel::PullCheckingMerge => d is CheckMergeInProgress,
            SyncPhaseModel::PullCommitting => d matches Directive::Run(GitOp::CommitNoEdit),
            SyncPhaseModel::Pushing => {
                &&& d matches Directive::Run(GitOp::PushUpstream { remote, branch })
                &&& remote@ == ctx.remote
                &&& branch@ == ctx.branch
            },
            SyncPhaseModel::Unstashing => d matches Directive::Run(GitOp::StashPop),
            SyncPhaseModel::PopClassifying { .. } => d matches Directive::Query(
                GitQuery::ConflictedFiles,
            ),
            SyncPhaseModel::PopResolving => d is ResolveConflicts,
            SyncPhaseModel::ConsumingGuard => d is ConsumeGuard,
        },
        SyncModel::Done => d is Complete,
        SyncModel::Failed { err } => {
            &&& d matches Directive::Fail(e)
            &&& e@ == err
        },
    }
}

/// The state after feeding every event of `evs`, in order, from `m`.
pub open spec fn sync_run(cfg: &WgitConfig, m: SyncModel, evs: Seq<EventModel>) -> SyncModel
    decreases evs.len(),
{
    if evs.len() == 0 {
        m
    } else {
        sync_run(cfg, spec_sync_step(cfg, m, evs[0]), evs.drop_first())
    }
}

/// The phases that restore or release the shelf.
pub open spec fn shelf_phase(p: SyncPhaseModel) -> bool {
    p is Unstashing || p is PopClassifying || p is PopResolving || p is ConsumingGuard
}

/// A running state in a shelf-restoring phase carries a recorded shelve.
pub open spec fn shelf_consistent(m: SyncModel) -> bool {
    m matches SyncModel::Running { ctx, phase } ==> (shelf_phase(phase) ==> ctx.stashed)
}

proof fn lemma_shelf_run(cfg: &WgitConfig, m: SyncModel, evs: Seq<EventModel>)
    requires
        shelf_consistent(m),
    ensures
        shelf_consistent(sync_run(cfg, m, evs)),
    decreases evs.len(),
{
    if evs.len() > 0 {
        let m1 = spec_sync_step(cfg, m, evs[0]);
        assert(shelf_consistent(m1));
        lemma_shelf_run(cfg, m1, evs.drop_first());
    }
}

/// The sync workflow never restores or releases a shelf it did not
/// create: along every run from the start, any state that unshelves,
/// classifies or resolves an unshelve failure, or consumes the guard
/// carries a recorded shelve — so the guard is marked before it is ever
/// consumed.
pub proof fn lemma_sync_shelf(cfg: &WgitConfig, evs: Seq<EventModel>)
    ensures
        forall|k: int|
            0 <= k <= evs.len() ==> shelf_consistent(
                #[trigger] sync_run(cfg, spec_sync_start(cfg), evs.take(k)),
            ),
{
    assert forall|k: int| 0 <= k <= evs.len() implies shelf_consistent(
        #[trigger] sync_run(cfg, spec_sync_start(cfg), evs.take(k)),
    ) by {
        lemma_shelf_run(cfg, spec_sync_start(cfg), evs.take(k));
    }
}

impl SyncState {
    /// What to do next in this state.
    pub fn directive(&self, cfg: &WgitConfig) -> (d: Directive)
        ensures
            sync_directive_ok(cfg, self@, d),
    {
        match self {
            SyncState::AwaitingRemote => Directive::PromptRemote,
            SyncState::QueryingBranch { .. } => Directive::Query(GitQuery::CurrentBranch),
            SyncState::CheckingDirty { .. } => Directive::Query(GitQuery::StatusPorcelain),
            SyncState::Stashing { .. } => Directive::Run(GitOp::StashPush),
            SyncState::MarkingGuard { .. } => Directive::MarkGuard,
            SyncState::Running { ctx, phase } => match phase {
                SyncPhase::CheckingRemoteMain => Directive::Query(
                    GitQuery::LsRemoteHeads {
                        remote: ctx.remote.clone(),
                        branch: cfg.main_branch.clone(),
                    },
                ),
                SyncPhase::PushingMain => Directive::Run(
                    GitOp::PushUpstream {
                        remote: ctx.remote.clone(),
                        branch: cfg.main_branch.clone(),
                    },
                ),
                SyncPhase::Pulling => Directive::Run(
                    GitOp::Pull { remote: ctx.remote.clone(), branch: ctx.branch.clone() },
                ),
                SyncPhase::PullClassifying { .. } => Directive::Query(GitQuery::ConflictedFiles),
                SyncPhase::PullResolving => Directive::ResolveConflicts,
                SyncPhase::PullCheckingMerge => Directive::CheckMergeInProgress,
                SyncPhase::PullCommitting => Directive::Run(GitOp::CommitNoEdit),
                SyncPhase::Pushing => Directive::Run(
                    GitOp::PushUpstream {
                        remote: ctx.remote.clone(),
                        branch: ctx.branch.clone(),
                    },
                ),
                SyncPhase::Unstashing => Directive::Run(GitOp::StashPop),
                SyncPhase::PopClassifying { .. } => Directive::Query(GitQuery::ConflictedFiles),
                SyncPhase::PopResolving => Directive::ResolveConflicts,
                SyncPhase::ConsumingGuard => Directive::ConsumeGuard,
            },
            SyncState::Done => Directive::Complete,
            SyncState::Failed { err } => Directive::Fail(err.duplicate()),
        }
    }
}

} // verus!
