//! The branch-finish workflow, as a state machine.
//!
//! Finishing merges the current branch into its targets and deletes it:
//! a clean tree is required; protected branches are refused before any
//! mutating command; a structured message is composed and validated; a
//! `release/` or `hotfix/` branch merges into the main branch, offers a
//! tag, then merges into the development branch, while any other branch
//! merges into the development branch only; a merge failure is routed into
//! conflict resolution exactly when the conflicted-file query is
//! non-empty; finally the finished branch is left, if need be, and deleted
//! without force.

use vstd::prelude::*;
use crate::config::WgitConfig;
use crate::gitops::{GitOp, GitQuery};
use crate::text::{is_blank, trimmed, trim_str, str_is_blank, str_has_prefix};
use crate::workflow::{
    Directive,
    DirectiveKind,
    ErrorModel,
    EventModel,
    kind_of,
    WorkflowError,
    WorkflowEvent,
};

verus! {

/// Which merge of the plan is under way, and what follows it.
#[derive(Clone, Copy, Debug, PartialEq, Eq, Structural)]
pub enum MergePhase {
    /// Merging into the main branch; a tag prompt follows.
    ToMain,
    /// Merging into the development branch after the main merge.
    ToDevAfterMain,
    /// Merging into the development branch as the only merge.
    ToDevOnly,
}

/// Where within one merge the workflow stands.
pub enum MergeStage {
    /// Checking out the merge target.
    CheckingOut,
    /// Running the merge itself.
    Running,
    /// The merge failed; querying conflicted files to decide whether the
    /// failure is conflict-shaped.
    Classifying { err: String },
    /// Conflict resolution is running.
    Resolving,
    /// Resolution succeeded; checking whether a merge is still in
    /// progress.
    CheckingMergeHead,
    /// Finalizing the merge with a commit.
    Committing,
}

/// Spec-level model of `MergeStage`.
#[verifier::ext_equal]
pub enum MergeStageModel {
    CheckingOut,
    Running,
    Classifying { err: Seq<char> },
    Resolving,
    CheckingMergeHead,
    Committing,
}

impl View for MergeStage {
    type V = MergeStageModel;

    open spec fn view(&self) -> MergeStageModel {
        match self {
            MergeStage::CheckingOut => MergeStageModel::CheckingOut,
            MergeStage::Running => MergeStageModel::Running,
            MergeStage::Classifying { err } => MergeStageModel::Classifying { err: err@ },
            MergeStage::Resolving => MergeStageModel::Resolving,
            MergeStage::CheckingMergeHead => MergeStageModel::CheckingMergeHead,
            MergeStage::Committing => MergeStageModel::Committing,
        }
    }
}

/// The states of the finish workflow.
pub enum FinishState {
    /// Querying working-tree status; a dirty tree refuses the workflow.
    CheckingClean,
    /// Querying the current branch; a protected branch refuses the
    /// workflow.
    QueryingBranch,
    /// Waiting for the commit-message form.
    AwaitingMessage { current: String },
    /// One merge of the plan is under way.
    Merging { current: String, message: String, phase: MergePhase, stage: MergeStage },
    /// The main merge is done; waiting for the tag prompt.
    AwaitingTag { current: String, message: String },
    /// Creating the annotated tag.
    CreatingTag { current: String, message: String, tag: String },
    /// All merges done; querying which branch is checked out.
    CleanupQuery { current: String },
    /// Leaving the finished branch for the development branch.
    CheckingOutDev { current: String },
    /// Deleting the finished branch, without force.
    DeletingBranch { current: String },
    /// The workflow completed.
    Done { current: String },
    /// The workflow failed.
    Failed { err: WorkflowError },
}

/// Spec-level model of `FinishState`.
#[verifier::ext_equal]
pub enum FinishModel {
    CheckingClean,
    QueryingBranch,
    AwaitingMessage { current: Seq<char> },
    Merging { current: Seq<char>, message: Seq<char>, phase: MergePhase, stage: MergeStageModel },
    AwaitingTag { current: Seq<char>, message: Seq<char> },
    CreatingTag { current: Seq<char>, message: Seq<char>, tag: Seq<char> },
    CleanupQuery { current: Seq<char> },
    CheckingOutDev { current: Seq<char> },
    DeletingBranch { current: Seq<char> },
    Done { current: Seq<char> },
    Failed { err: ErrorModel },
}

impl View for FinishState {
    type V = FinishModel;

    open spec fn view(&self) -> FinishModel {
        match self {
            FinishState::CheckingClean => FinishModel::CheckingClean,
            FinishState::QueryingBranch => FinishModel::QueryingBranch,
            FinishState::AwaitingMessage { current } => FinishModel::AwaitingMessage {
                current: current@,
            },
            FinishState::Merging { current, message, phase, stage } => FinishModel::Merging {
                current: current@,
                message: message@,
                phase: *phase,
                stage: stage@,
            },
            FinishState::AwaitingTag { current, message } => FinishModel::AwaitingTag {
                current: current@,
                message: message@,
            },
            FinishState::CreatingTag { current, message, tag } => FinishModel::CreatingTag {
                current: current@,
                message: message@,
                tag: tag@,
            },
            FinishState::CleanupQuery { current } => FinishModel::CleanupQuery {
                current: current@,
            },
            FinishState::CheckingOutDev { current } => FinishModel::CheckingOutDev {
                current: current@,
            },
            FinishState::DeletingBranch { current } => FinishModel::DeletingBranch {
                current: current@,
            },
            FinishState::Done { current } => FinishModel::Done { current: current@ },
            FinishState::Failed { err } => FinishModel::Failed { err: err@ },
        }
    }
}

/// A branch whose name starts `release/` or `hotfix/` merges into the main
/// branch first.
pub open spec fn goes_to_main(current: Seq<char>) -> bool {
    "release/"@.is_prefix_of(current) || "hotfix/"@.is_prefix_of(current)
}

/// The state after one merge of the plan has fully succeeded.
pub open spec fn spec_after_merge(current: Seq<char>, message: Seq<char>, phase: MergePhase)
    -> FinishModel {
    if phase is ToMain {
        FinishModel::AwaitingTag { current, message }
    } else {
        FinishModel::CleanupQuery { current }
    }
}

fn after_merge(current: String, message: String, phase: MergePhase) -> (r: FinishState)
    ensures
        r@ == spec_after_merge(current@, message@, phase),
{
    match phase {
        MergePhase::ToMain => FinishState::AwaitingTag { current, message },
        _ => FinishState::CleanupQuery { current },
    }
}

/// The transition function of the finish workflow.  An event that does not
/// belong to the current state changes nothing.
pub open spec fn spec_finish_step(cfg: &WgitConfig, m: FinishModel, e: EventModel) -> FinishModel {
    match m {
        FinishModel::CheckingClean => match e {
            EventModel::Status { output } => if is_blank(output) {
                FinishModel::QueryingBranch
            } else {
                FinishModel::Failed { err: ErrorModel::DirtyWorkspace }
            },
            _ => m,
        },
        FinishModel::QueryingBranch => match e {
            EventModel::CurrentBranch { name } => if cfg.is_protected(name) {
                FinishModel::Failed { err: ErrorModel::ProtectedBranch }
            } else {
                FinishModel::AwaitingMessage { current: name }
            },
            EventModel::RunFailed { err } => FinishModel::Failed {
                err: ErrorModel::CommandFailed { detail: err },
            },
            _ => m,
        },
        FinishModel::AwaitingMessage { current } => match e {
            EventModel::Composed { msg } => if !msg.is_valid() {
                FinishModel::Failed { err: ErrorModel::EmptySubject }
            } else {
                FinishModel::Merging {
                    current,
                    message: msg.rendered(),
                    phase: if goes_to_main(current) {
                        MergePhase::ToMain
                    } else {
                        MergePhase::ToDevOnly
                    },
                    stage: MergeStageModel::CheckingOut,
                }
            },
            EventModel::ComposerCancelled => FinishModel::Failed {
                err: ErrorModel::AbortedByUser,
            },
            _ => m,
        },
        FinishModel::Merging { current, message, phase, stage } => match stage {
            MergeStageModel::CheckingOut => match e {
                EventModel::RunOk => FinishModel::Merging {
                    current,
                    message,
                    phase,
                    stage: MergeStageModel::Running,
                },
                EventModel::RunFailed { err } => FinishModel::Failed {
                    err: ErrorModel::CommandFailed { detail: err },
                },
                _ => m,
            },
            MergeStageModel::Running => match e {
                EventModel::RunOk => spec_after_merge(current, message, phase),
                EventModel::RunFailed { err } => FinishModel::Merging {
                    current,
                    message,
                    phase,
                    stage: MergeStageModel::Classifying { err },
                },
                _ => m,
            },
            MergeStageModel::Classifying { err } => match e {
                EventModel::ConflictList { files } => if files.len() == 0 {
                    FinishModel::Failed { err: ErrorModel::CommandFailed { detail: err } }
                } else {
                    FinishModel::Merging {
                        current,
                        message,
                        phase,
                        stage: MergeStageModel::Resolving,
                    }
                },
                _ => m,
            },
            MergeStageModel::Resolving => match e {
                EventModel::ResolutionFinished { aborted } => if aborted {
                    FinishModel::Failed { err: ErrorModel::AbortedByUser }
                } else {
                    FinishModel::Merging {
                        current,
                        message,
                        phase,
                        stage: MergeStageModel::CheckingMergeHead,
                    }
                },
                _ => m,
            },
            MergeStageModel::CheckingMergeHead => match e {
                EventModel::MergeInProgress { in_progress } => if in_progress {
                    FinishModel::Merging {
                        current,
                        message,
                        phase,
                        stage: MergeStageModel::Committing,
                    }
                } else {
                    spec_after_merge(current, message, phase)
                },
                EventModel::RunFailed { err } => FinishModel::Failed {
                    err: ErrorModel::CommandFailed { detail: err },
                },
                _ => m,
            },
            MergeStageModel::Committing => match e {
                EventModel::RunOk => spec_after_merge(current, message, phase),
                EventModel::RunFailed { err } => FinishModel::Failed {
                    err: ErrorModel::CommandFailed { detail: err },
                },
                _ => m,
            },
        },
        FinishModel::AwaitingTag { current, message } => match e {
            EventModel::TagInput { text } => if is_blank(text) {
                FinishModel::Merging {
                    current,
                    message,
                    phase: MergePhase::ToDevAfterMain,
                    stage: MergeStageModel::CheckingOut,
                }
            } else {
                FinishModel::CreatingTag { current, message, tag: trimmed(text) }
            },
            EventModel::PromptCancelled => FinishModel::Failed { err: ErrorModel::AbortedByUser },
            _ => m,
        },
        FinishModel::CreatingTag { current, message, tag } => match e {
            EventModel::RunOk => FinishModel::Merging {
                current,
                message,
                phase: MergePhase::ToDevAfterMain,
                stage: MergeStageModel::CheckingOut,
            },
            EventModel::RunFailed { err } => FinishModel::Failed {
                err: ErrorModel::CommandFailed { detail: err },
            },
            _ => m,
        },
        FinishModel::CleanupQuery { current } => match e {
            EventModel::CurrentBranch { name } => if name == current {
                FinishModel::CheckingOutDev { current }
            } else {
                FinishModel::DeletingBranch { current }
            },
            EventModel::RunFailed { err } => FinishModel::Failed {
                err: ErrorModel::CommandFailed { detail: err },
            },
            _ => m,
        },
        FinishModel::CheckingOutDev { current } => match e {
            EventModel::RunOk => FinishModel::DeletingBranch { current },
            EventModel::RunFailed { err } => FinishModel::Failed {
                err: ErrorModel::CommandFailed { detail: err },
            },
            _ => m,
        },
        FinishModel::DeletingBranch { current } => match e {
            EventModel::RunOk => FinishModel::Done { current },
            EventModel::RunFailed { err } => FinishModel::Failed {
                err: ErrorModel::CommandFailed { detail: err },
            },
            _ => m,
        },
        FinishModel::Done { .. } => m,
        FinishModel::Failed { .. } => m,
    }
}

impl FinishState {
    /// The workflow's initial state.
    pub fn start() -> (s: FinishState)
        ensures
            s@ == FinishModel::CheckingClean,
    {
        FinishState::CheckingClean
    }

    /// Applies one event, exactly as the transition function says.
    pub fn step(self, cfg: &WgitConfig, e: WorkflowEvent) -> (r: FinishState)
        ensures
            r@ == spec_finish_step(cfg, self@, e@),
    {
        match self {
            FinishState::CheckingClean => match e {
                WorkflowEvent::Status { output } => if str_is_blank(output.as_str()) {
                    FinishState::QueryingBranch
                } else {
                    FinishState::Failed { err: WorkflowError::DirtyWorkspace }
                },
                _ => FinishState::CheckingClean,
            },
            FinishState::QueryingBranch => match e {
                WorkflowEvent::CurrentBranch { name } => if cfg.branch_is_protected(&name) {
                    FinishState::Failed { err: WorkflowError::ProtectedBranch }
                } else {
                    FinishState::AwaitingMessage { current: name }
                },
                WorkflowEvent::RunFailed { err } => FinishState::Failed {
                    err: WorkflowError::CommandFailed { detail: err },
                },
                _ => FinishState::QueryingBranch,
            },
            FinishState::AwaitingMessage { current } => match e {
                WorkflowEvent::Composed { msg } => if !msg.check_valid() {
                    FinishState::Failed { err: WorkflowError::EmptySubject }
                } else {
                    let message = msg.render();
                    let to_main = str_has_prefix(current.as_str(), "release/")
                        || str_has_prefix(current.as_str(), "hotfix/");
                    FinishState::Merging {
                        current,
                        message,
                        phase: if to_main {
                            MergePhase::ToMain
                        } else {
                            MergePhase::ToDevOnly
                        },
                        stage: MergeStage::CheckingOut,
                    }
                },
                WorkflowEvent::ComposerCancelled => FinishState::Failed {
                    err: WorkflowError::AbortedByUser,
                },
                _ => FinishState::AwaitingMessage { current },
            },
            FinishState::Merging { current, message, phase, stage } => match (stage, e) {
                (MergeStage::CheckingOut, WorkflowEvent::RunOk) => FinishState::Merging {
                    current,
                    message,
                    phase,
                    stage: MergeStage::Running,
                },
                (MergeStage::CheckingOut, WorkflowEvent::RunFailed { err }) => FinishState::Failed {
                    err: WorkflowError::CommandFailed { detail: err },
                },
                (MergeStage::Running, WorkflowEvent::RunOk) => after_merge(
                    current,
                    message,
                    phase,
                ),
                (MergeStage::Running, WorkflowEvent::RunFailed { err }) => FinishState::Merging {
                    current,
                    message,
                    phase,
                    stage: MergeStage::Classifying { err },
                },
                (MergeStage::Classifying { err }, WorkflowEvent::ConflictList { files }) => if files
                    .len() == 0 {
                    FinishState::Failed { err: WorkflowError::CommandFailed { detail: err } }
                } else {
                    FinishState::Merging {
                        current,
                        message,
                        phase,
                        stage: MergeStage::Resolving,
                    }
                },
                (MergeStage::Resolving, WorkflowEvent::ResolutionFinished { aborted }) => if aborted {
                    FinishState::Failed { err: WorkflowError::AbortedByUser }
                } else {
                    FinishState::Merging {
                        current,
                        message,
                        phase,
                        stage: MergeStage::CheckingMergeHead,
                    }
                },
                (MergeStage::CheckingMergeHead, WorkflowEvent::MergeInProgress { in_progress }) => {
                    if in_progress {
                        FinishState::Merging {
                            current,
                            message,
                            phase,
                            stage: MergeStage::Committing,
                        }
                    } else {
                        after_merge(current, message, phase)
                    }
                },
                (MergeStage::CheckingMergeHead, WorkflowEvent::RunFailed { err }) => {
                    FinishState::Failed { err: WorkflowError::CommandFailed { detail: err } }
                },
                (MergeStage::Committing, WorkflowEvent::RunOk) => after_merge(
                    current,
                    message,
                    phase,
                ),
                (MergeStage::Committing, WorkflowEvent::RunFailed { err }) => FinishState::Failed {
                    err: WorkflowError::CommandFailed { detail: err },
                },
                (st, _) => FinishState::Merging { current, message, phase, stage: st },
            },
            FinishState::AwaitingTag { current, message } => match e {
                WorkflowEvent::TagInput { text } => if str_is_blank(text.as_str()) {
                    FinishState::Merging {
                        current,
                        message,
                        phase: MergePhase::ToDevAfterMain,
                        stage: MergeStage::CheckingOut,
                    }
                } else {
                    let tag = trim_str(text.as_str());
                    FinishState::CreatingTag { current, message, tag }
                },
                WorkflowEvent::PromptCancelled => FinishState::Failed {
                    err: WorkflowError::AbortedByUser,
                },
                _ => FinishState::AwaitingTag { current, message },
            },
            FinishState::CreatingTag { current, message, tag } => match e {
                WorkflowEvent::RunOk => FinishState::Merging {
                    current,
                    message,
                    phase: MergePhase::ToDevAfterMain,
                    stage: MergeStage::CheckingOut,
                },
                WorkflowEvent::RunFailed { err } => FinishState::Failed {
                    err: WorkflowError::CommandFailed { detail: err },
                },
                _ => FinishState::CreatingTag { current, message, tag },
            },
            FinishState::CleanupQuery { current } => match e {
                WorkflowEvent::CurrentBranch { name } => if name.eq(&current) {
                    FinishState::CheckingOutDev { current }
                } else {
                    FinishState::DeletingBranch { current }
                },
                WorkflowEvent::RunFailed { err } => FinishState::Failed {
                    err: WorkflowError::CommandFailed { detail: err },
                },
                _ => FinishState::CleanupQuery { current },
            },
            FinishState::CheckingOutDev { current } => match e {
                WorkflowEvent::RunOk => FinishState::DeletingBranch { current },
                WorkflowEvent::RunFailed { err } => FinishState::Failed {
                    err: WorkflowError::CommandFailed { detail: err },
                },
                _ => FinishState::CheckingOutDev { current },
            },
            FinishState::DeletingBranch { current } => match e {
                WorkflowEvent::RunOk => FinishState::Done { current },
                WorkflowEvent::RunFailed { err } => FinishState::Failed {
                    err: WorkflowError::CommandFailed { detail: err },
                },
                _ => FinishState::DeletingBranch { current },
            },
            FinishState::Done { current } => FinishState::Done { current },
            FinishState::Failed { err } => FinishState::Failed { err },
        }
    }
}

/// States whose directive is a mutating command.
pub open spec fn finish_issues_run(m: FinishModel) -> bool {
    match m {
        FinishModel::Merging { stage, .. } => stage is CheckingOut || stage is Running
            || stage is Committing,
        FinishModel::CreatingTag { .. } => true,
        FinishModel::CheckingOutDev { .. } => true,
        FinishModel::DeletingBranch { .. } => true,
        _ => false,
    }
}

/// What the directive for each state must be: which queries, commands and
/// prompts the workflow issues, with every payload pinned.
pub open spec fn finish_directive_ok(cfg: &WgitConfig, m: FinishModel, d: Directive) -> bool {
    match m {
        FinishModel::CheckingClean => d matches Directive::Query(GitQuery::StatusPorcelain),
        FinishModel::QueryingBranch => d matches Directive::Query(GitQuery::CurrentBranch),
        FinishModel::AwaitingMessage { .. } => d is AwaitMessage,
        FinishModel::Merging { current, message, phase, stage } => match stage {
            MergeStageModel::CheckingOut => {
                &&& d matches Directive::Run(GitOp::Checkout { branch })
                &&& ({
                    let target = if phase is ToMain {
                        cfg.main_branch@
                    } else {
                        cfg.dev_branch@
                    };
                    branch@ == target
                })
            },
            MergeStageModel::Running => {
                &&& d matches Directive::Run(GitOp::MergeNoFf { branch, message: mm })
                &&& branch@ == current
                &&& mm@ == message
            },
            MergeStageModel::Classifying { .. } => d matches Directive::Query(
                GitQuery::ConflictedFiles,
            ),
            MergeStageModel::Resolving => d is ResolveConflicts,
            MergeStageModel::CheckingMergeHead => d is CheckMergeInProgress,
            MergeStageModel::Committing => d matches Directive::Run(GitOp::CommitNoEdit),
        },
        FinishModel::AwaitingTag { .. } => d is PromptTag,
        FinishModel::CreatingTag { message, tag, .. } => {
            &&& d matches Directive::Run(GitOp::TagAnnotated { name, message: mm })
            &&& name@ == tag
            &&& mm@ == message
        },
        FinishModel::CleanupQuery { .. } => d matches Directive::Query(GitQuery::CurrentBranch),
        FinishModel::CheckingOutDev { .. } => {
            &&& d matches Directive::Run(GitOp::Checkout { branch })
            &&& branch@ == cfg.dev_branch@
        },
        FinishModel::DeletingBranch { current } => {
            &&& d matches Directive::Run(GitOp::DeleteBranch { branch })
            &&& branch@ == current
        },
        FinishModel::Done { .. } => d is Complete,
        FinishModel::Failed { err } => {
            &&& d matches Directive::Fail(e)
            &&& e@ == err
        },
    }
}

impl FinishState {
    /// What to do next in this state.
    pub fn directive(&self, cfg: &WgitConfig) -> (d: Directive)
        ensures
            finish_directive_ok(cfg, self@, d),
    {
        match self {
            FinishState::CheckingClean => Directive::Query(GitQuery::StatusPorcelain),
            FinishState::QueryingBranch => Directive::Query(GitQuery::CurrentBranch),
            FinishState::AwaitingMessage { .. } => Directive::AwaitMessage,
            FinishState::Merging { current, message, phase, stage } => match stage {
                MergeStage::CheckingOut => {
                    let target = if matches!(phase, MergePhase::ToMain) {
                        cfg.main_branch.clone()
                    } else {
                        cfg.dev_branch.clone()
                    };
                    Directive::Run(GitOp::Checkout { branch: target })
                },
                MergeStage::Running => Directive::Run(
                    GitOp::MergeNoFf { branch: current.clone(), message: message.clone() },
                ),
                MergeStage::Classifying { .. } => Directive::Query(GitQuery::ConflictedFiles),
                MergeStage::Resolving => Directive::ResolveConflicts,
                MergeStage::CheckingMergeHead => Directive::CheckMergeInProgress,
                MergeStage::Committing => Directive::Run(GitOp::CommitNoEdit),
            },
            FinishState::AwaitingTag { .. } => Directive::PromptTag,
            FinishState::CreatingTag { message, tag, .. } => Directive::Run(
                GitOp::TagAnnotated { name: tag.clone(), message: message.clone() },
            ),
            FinishState::CleanupQuery { .. } => Directive::Query(GitQuery::CurrentBranch),
            FinishState::CheckingOutDev { .. } => Directive::Run(
                GitOp::Checkout { branch: cfg.dev_branch.clone() },
            ),
            FinishState::DeletingBranch { current } => Directive::Run(
                GitOp::DeleteBranch { branch: current.clone() },
            ),
            FinishState::Done { .. } => Directive::Complete,
            FinishState::Failed { err } => Directive::Fail(err.duplicate()),
        }
    }
}

/// A directive that satisfies `finish_directive_ok` is a mutating command
/// exactly in the states `finish_issues_run` names.
pub proof fn lemma_finish_directive_kind(cfg: &WgitConfig, m: FinishModel, d: Directive)
    requires
        finish_directive_ok(cfg, m, d),
    ensures
        (kind_of(d) == DirectiveKind::Run) == finish_issues_run(m),
{
}

/// The state after feeding every event of `evs`, in order, from `m`.
pub open spec fn finish_run(cfg: &WgitConfig, m: FinishModel, evs: Seq<EventModel>) -> FinishModel
    decreases evs.len(),
{
    if evs.len() == 0 {
        m
    } else {
        finish_run(cfg, spec_finish_step(cfg, m, evs[0]), evs.drop_first())
    }
}

/// The states reachable while the current branch reports as protected.
pub open spec fn protected_phase(m: FinishModel) -> bool {
    m is CheckingClean || m is QueryingBranch || m is Failed
}

proof fn lemma_protected_run(cfg: &WgitConfig, m: FinishModel, evs: Seq<EventModel>)
    requires
        protected_phase(m),
        forall|i: int|
            0 <= i < evs.len() ==> ((#[trigger] evs[i]) matches EventModel::CurrentBranch { name }
                ==> cfg.is_protected(name)),
    ensures
        protected_phase(finish_run(cfg, m, evs)),
    decreases evs.len(),
{
    if evs.len() > 0 {
        let m1 = spec_finish_step(cfg, m, evs[0]);
        assert(evs[0] matches EventModel::CurrentBranch { name } ==> cfg.is_protected(name));
        assert(protected_phase(m1));
        lemma_protected_run(cfg, m1, evs.drop_first());
    }
}

/// For a current branch equal to the configured main or development
/// branch, the finish workflow never issues a mutating command, and the
/// moment the branch name is delivered it fails with `ProtectedBranch`.
pub proof fn lemma_finish_protected(cfg: &WgitConfig, evs: Seq<EventModel>)
    requires
        forall|i: int|
            0 <= i < evs.len() ==> ((#[trigger] evs[i]) matches EventModel::CurrentBranch { name }
                ==> cfg.is_protected(name)),
    ensures
        forall|k: int|
            0 <= k <= evs.len() ==> !finish_issues_run(
                #[trigger] finish_run(cfg, FinishModel::CheckingClean, evs.take(k)),
            ),
        forall|k: int|
            0 <= k < evs.len() && finish_run(cfg, FinishModel::CheckingClean, evs.take(k))
                is QueryingBranch && evs[k] is CurrentBranch ==> finish_run(
                cfg,
                FinishModel::CheckingClean,
                evs.take(k + 1),
            ) == (FinishModel::Failed { err: ErrorModel::ProtectedBranch }),
{
    assert forall|k: int| 0 <= k <= evs.len() implies !finish_issues_run(
        #[trigger] finish_run(cfg, FinishModel::CheckingClean, evs.take(k)),
    ) by {
        lemma_protected_run(cfg, FinishModel::CheckingClean, evs.take(k));
    }
    assert forall|k: int|
        0 <= k < evs.len() && finish_run(cfg, FinishModel::CheckingClean, evs.take(k))
            is QueryingBranch && evs[k] is CurrentBranch implies finish_run(
        cfg,
        FinishModel::CheckingClean,
        evs.take(k + 1),
    ) == (FinishModel::Failed { err: ErrorModel::ProtectedBranch }) by {
        lemma_run_snoc(cfg, FinishModel::CheckingClean, evs, k);
    }
}

proof fn lemma_run_snoc(cfg: &WgitConfig, m: FinishModel, evs: Seq<EventModel>, k: int)
    requires
        0 <= k < evs.len(),
    ensures
        finish_run(cfg, m, evs.take(k + 1)) == spec_finish_step(
            cfg,
            finish_run(cfg, m, evs.take(k)),
            evs[k],
        ),
    decreases k,
{
    let t = evs.take(k + 1);
    if k == 0 {
        assert(t.len() == 1);
        assert(t[0] == evs[0]);
        let m1 = spec_finish_step(cfg, m, evs[0]);
        assert(finish_run(cfg, m, t) == finish_run(cfg, m1, t.drop_first()));
        assert(t.drop_first().len() == 0);
        assert(finish_run(cfg, m1, t.drop_first()) == m1);
        assert(evs.take(0).len() == 0);
        assert(finish_run(cfg, m, evs.take(0)) == m);
    } else {
        let rest = evs.drop_first();
        let m1 = spec_finish_step(cfg, m, evs[0]);
        assert(t[0] == evs[0]);
        assert(t.drop_first() =~= rest.take(k));
        assert(finish_run(cfg, m, t) == finish_run(cfg, m1, rest.take(k)));
        lemma_run_snoc(cfg, m1, rest, k - 1);
        assert(finish_run(cfg, m1, rest.take(k)) == spec_finish_step(
            cfg,
            finish_run(cfg, m1, rest.take(k - 1)),
            rest[k - 1],
        ));
        assert(evs.take(k).len() == k);
        assert(evs.take(k)[0] == evs[0]);
        assert(evs.take(k).drop_first() =~= rest.take(k - 1));
        assert(finish_run(cfg, m, evs.take(k)) == finish_run(cfg, m1, rest.take(k - 1)));
        assert(rest[k - 1] == evs[k]);
    }
}

/// The states reachable while every composed message has a blank subject.
pub open spec fn unvalidated_phase(m: FinishModel) -> bool {
    m is CheckingClean || m is QueryingBranch || m is AwaitingMessage || m is Failed
}

proof fn lemma_blank_subject_run(cfg: &WgitConfig, m: FinishModel, evs: Seq<EventModel>)
    requires
        unvalidated_phase(m),
        forall|i: int|
            0 <= i < evs.len() ==> ((#[trigger] evs[i]) matches EventModel::Composed { msg }
                ==> !msg.is_valid()),
    ensures
        unvalidated_phase(finish_run(cfg, m, evs)),
    decreases evs.len(),
{
    if evs.len() > 0 {
        let m1 = spec_finish_step(cfg, m, evs[0]);
        assert(evs[0] matches EventModel::Composed { msg } ==> !msg.is_valid());
        assert(unvalidated_phase(m1));
        lemma_blank_subject_run(cfg, m1, evs.drop_first());
    }
}

/// For a commit message whose subject is blank after trimming, the finish
/// workflow issues no commit or merge command at all — no mutating command
/// is ever directed — and delivering such a message fails the workflow
/// with `EmptySubject`.
pub proof fn lemma_finish_blank_subject(cfg: &WgitConfig, evs: Seq<EventModel>)
    requires
        forall|i: int|
            0 <= i < evs.len() ==> ((#[trigger] evs[i]) matches EventModel::Composed { msg }
                ==> !msg.is_valid()),
    ensures
        forall|k: int|
            0 <= k <= evs.len() ==> !finish_issues_run(
                #[trigger] finish_run(cfg, FinishModel::CheckingClean, evs.take(k)),
            ),
        forall|k: int|
            0 <= k < evs.len() && finish_run(cfg, FinishModel::CheckingClean, evs.take(k))
                is AwaitingMessage && evs[k] is Composed ==> finish_run(
                cfg,
                FinishModel::CheckingClean,
                evs.take(k + 1),
            ) == (FinishModel::Failed { err: ErrorModel::EmptySubject }),
{
    assert forall|k: int| 0 <= k <= evs.len() implies !finish_issues_run(
        #[trigger] finish_run(cfg, FinishModel::CheckingClean, evs.take(k)),
    ) by {
        lemma_blank_subject_run(cfg, FinishModel::CheckingClean, evs.take(k));
    }
    assert forall|k: int|
        0 <= k < evs.len() && finish_run(cfg, FinishModel::CheckingClean, evs.take(k))
            is AwaitingMessage && evs[k] is Composed implies finish_run(
        cfg,
        FinishModel::CheckingClean,
        evs.take(k + 1),
    ) == (FinishModel::Failed { err: ErrorModel::EmptySubject }) by {
        lemma_run_snoc(cfg, FinishModel::CheckingClean, evs, k);
    }
}

} // verus!
