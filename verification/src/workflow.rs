//! The vocabulary shared by the two workflow state machines: the failure
//! taxonomy, the directives a machine hands to the surrounding process, and
//! the events the process feeds back, together with their spec-level
//! models.

use vstd::prelude::*;
use crate::gitops::{GitOp, GitQuery};
use crate::msg::{CommitMessage, MsgModel};

verus! {

/// Why a workflow stopped.
#[derive(Debug)]
pub enum WorkflowError {
    /// The external tool exited non-zero; carries its captured error text.
    CommandFailed { detail: String },
    /// The working tree has uncommitted changes where a clean tree is
    /// required.
    DirtyWorkspace,
    /// A destructive operation targeted the main or development branch.
    ProtectedBranch,
    /// The composed commit message has a blank subject.
    EmptySubject,
    /// A remote operation was requested with no remote configured.
    NoRemoteConfigured,
    /// The user cancelled at a prompt or aborted conflict resolution.
    AbortedByUser,
}

/// Spec-level model of `WorkflowError`.
#[verifier::ext_equal]
pub enum ErrorModel {
    CommandFailed { detail: Seq<char> },
    DirtyWorkspace,
    ProtectedBranch,
    EmptySubject,
    NoRemoteConfigured,
    AbortedByUser,
}

impl View for WorkflowError {
    type V = ErrorModel;

    open spec fn view(&self) -> ErrorModel {
        match self {
            WorkflowError::CommandFailed { detail } => ErrorModel::CommandFailed {
                detail: detail@,
            },
            WorkflowError::DirtyWorkspace => ErrorModel::DirtyWorkspace,
            WorkflowError::ProtectedBranch => ErrorModel::ProtectedBranch,
            WorkflowError::EmptySubject => ErrorModel::EmptySubject,
            WorkflowError::NoRemoteConfigured => ErrorModel::NoRemoteConfigured,
            WorkflowError::AbortedByUser => ErrorModel::AbortedByUser,
        }
    }
}

impl WorkflowError {
    /// A copy with the same meaning.
    pub fn duplicate(&self) -> (r: WorkflowError)
        ensures
            r@ == self@,
    {
        match self {
            WorkflowError::CommandFailed { detail } => WorkflowError::CommandFailed {
                detail: detail.clone(),
            },
            WorkflowError::DirtyWorkspace => WorkflowError::DirtyWorkspace,
            WorkflowError::ProtectedBranch => WorkflowError::ProtectedBranch,
            WorkflowError::EmptySubject => WorkflowError::EmptySubject,
            WorkflowError::NoRemoteConfigured => WorkflowError::NoRemoteConfigured,
            WorkflowError::AbortedByUser => WorkflowError::AbortedByUser,
        }
    }
}

/// What a workflow asks the surrounding process to do next.
pub enum Directive {
    /// Run a read-only query and report its trimmed output.
    Query(GitQuery),
    /// Run a mutating operation and report success or failure.
    Run(GitOp),
    /// Run the commit-message form and report the composed message.
    AwaitMessage,
    /// Ask for a version tag; blank input skips tagging.
    PromptTag,
    /// Ask which configured remote to use.
    PromptRemote,
    /// Run the conflict-resolution loop and report how it ended.
    ResolveConflicts,
    /// Report whether a merge is still in progress (the repository's
    /// metadata directory holds a merge-head marker).
    CheckMergeInProgress,
    /// Record on the shelve guard that a shelve is now active.
    MarkGuard,
    /// Record on the shelve guard that the shelf no longer needs tracking.
    ConsumeGuard,
    /// The workflow has failed; no further directive follows.
    Fail(WorkflowError),
    /// The workflow has completed; no further directive follows.
    Complete,
}

/// The constructor of a directive, with payloads erased.
#[derive(Clone, Copy, Debug, PartialEq, Eq, Structural)]
pub enum DirectiveKind {
    Query,
    Run,
    AwaitMessage,
    PromptTag,
    PromptRemote,
    ResolveConflicts,
    CheckMergeInProgress,
    MarkGuard,
    ConsumeGuard,
    Fail,
    Complete,
}

/// The kind of a directive.
pub open spec fn kind_of(d: Directive) -> DirectiveKind {
    match d {
        Directive::Query(_) => DirectiveKind::Query,
        Directive::Run(_) => DirectiveKind::Run,
        Directive::AwaitMessage => DirectiveKind::AwaitMessage,
        Directive::PromptTag => DirectiveKind::PromptTag,
        Directive::PromptRemote => DirectiveKind::PromptRemote,
        Directive::ResolveConflicts => DirectiveKind::ResolveConflicts,
        Directive::CheckMergeInProgress => DirectiveKind::CheckMergeInProgress,
        Directive::MarkGuard => DirectiveKind::MarkGuard,
        Directive::ConsumeGuard => DirectiveKind::ConsumeGuard,
        Directive::Fail(_) => DirectiveKind::Fail,
        Directive::Complete => DirectiveKind::Complete,
    }
}

/// What the surrounding process reports back to a workflow.
pub enum WorkflowEvent {
    /// Output of a working-tree status query (empty on query failure, as
    /// the status check tolerates errors).
    Status { output: String },
    /// The current branch name.
    CurrentBranch { name: String },
    /// The commit-message form was submitted.
    Composed { msg: CommitMessage },
    /// The commit-message form was cancelled.
    ComposerCancelled,
    /// The text entered at the tag prompt.
    TagInput { text: String },
    /// A prompt was cancelled.
    PromptCancelled,
    /// The remote chosen at the remote prompt.
    RemoteChosen { name: String },
    /// The remote-refs listing for a branch (raw query output).
    LsRemoteOutput { output: String },
    /// A mutating operation succeeded.
    RunOk,
    /// A mutating operation or a required query failed; carries the
    /// captured error text.
    RunFailed { err: String },
    /// The current conflicted-file listing.
    ConflictList { files: Vec<String> },
    /// The conflict-resolution loop ended.
    ResolutionFinished { aborted: bool },
    /// Whether a merge is still in progress.
    MergeInProgress { in_progress: bool },
    /// A guard directive has been carried out.
    GuardAck,
}

/// Spec-level model of `WorkflowEvent`.
#[verifier::ext_equal]
pub enum EventModel {
    Status { output: Seq<char> },
    CurrentBranch { name: Seq<char> },
    Composed { msg: MsgModel },
    ComposerCancelled,
    TagInput { text: Seq<char> },
    PromptCancelled,
    RemoteChosen { name: Seq<char> },
    LsRemoteOutput { output: Seq<char> },
    RunOk,
    RunFailed { err: Seq<char> },
    ConflictList { files: Seq<Seq<char>> },
    ResolutionFinished { aborted: bool },
    MergeInProgress { in_progress: bool },
    GuardAck,
}

impl View for WorkflowEvent {
    type V = EventModel;

    open spec fn view(&self) -> EventModel {
        match self {
            WorkflowEvent::Status { output } => EventModel::Status { output: output@ },
            WorkflowEvent::CurrentBranch { name } => EventModel::CurrentBranch { name: name@ },
            WorkflowEvent::Composed { msg } => EventModel::Composed { msg: msg@ },
            WorkflowEvent::ComposerCancelled => EventModel::ComposerCancelled,
            WorkflowEvent::TagInput { text } => EventModel::TagInput { text: text@ },
            WorkflowEvent::PromptCancelled => EventModel::PromptCancelled,
            WorkflowEvent::RemoteChosen { name } => EventModel::RemoteChosen { name: name@ },
            WorkflowEvent::LsRemoteOutput { output } => EventModel::LsRemoteOutput {
                output: output@,
            },
            WorkflowEvent::RunOk => EventModel::RunOk,
            WorkflowEvent::RunFailed { err } => EventModel::RunFailed { err: err@ },
            WorkflowEvent::ConflictList { files } => EventModel::ConflictList {
                files: files.deep_view(),
            },
            WorkflowEvent::ResolutionFinished { aborted } => EventModel::ResolutionFinished {
                aborted: *aborted,
            },
            WorkflowEvent::MergeInProgress { in_progress } => EventModel::MergeInProgress {
                in_progress: *in_progress,
            },
            WorkflowEvent::GuardAck => EventModel::GuardAck,
        }
    }
}

} // verus!
