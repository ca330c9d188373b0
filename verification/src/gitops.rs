//! The command vocabulary: every mutating operation and every read-only
//! query the workflows issue, together with the exact argument vector each
//! one stands for.  The surrounding process turns these into subprocess
//! invocations of the external version-control tool.

use vstd::prelude::*;

verus! {

/// A mutating operation on the repository.
pub enum GitOp {
    /// `checkout <branch>`
    Checkout { branch: String },
    /// `checkout -b <name>` — create and switch to a new branch.
    StartBranch { name: String },
    /// `merge --no-ff <branch> -m <message>`
    MergeNoFf { branch: String, message: String },
    /// `commit -m <message>`
    Commit { message: String },
    /// `commit --no-edit` — finalize a merge already in progress.
    CommitNoEdit,
    /// `tag -a <name> -m <message>`
    TagAnnotated { name: String, message: String },
    /// `branch -d <branch>` — non-force delete, loud on unmerged commits.
    DeleteBranch { branch: String },
    /// `branch -D <branch>` — force delete, used only outside the finish
    /// workflow.
    ForceDeleteBranch { branch: String },
    /// `stash push -u -m <label>` with the fixed shelve label.
    StashPush,
    /// `stash pop`
    StashPop,
    /// `pull <remote> <branch>`
    Pull { remote: String, branch: String },
    /// `push -u <remote> <branch>`
    PushUpstream { remote: String, branch: String },
}

/// A read-only query of repository state.
pub enum GitQuery {
    /// `rev-parse --abbrev-ref HEAD`
    CurrentBranch,
    /// `status --porcelain`
    StatusPorcelain,
    /// `diff --name-only --diff-filter=U`
    ConflictedFiles,
    /// `branch --format=%(refname:short)`
    BranchList,
    /// `ls-remote --heads <remote> <branch>`
    LsRemoteHeads { remote: String, branch: String },
}

impl GitOp {
    /// The argument vector this operation stands for.
    pub open spec fn spec_args(&self) -> Seq<Seq<char>> {
        match self {
            GitOp::Checkout { branch } => seq!["checkout"@, branch@],
            GitOp::StartBranch { name } => seq!["checkout"@, "-b"@, name@],
            GitOp::MergeNoFf { branch, message } => seq![
                "merge"@,
                "--no-ff"@,
                branch@,
                "-m"@,
                message@,
            ],
            GitOp::Commit { message } => seq!["commit"@, "-m"@, message@],
            GitOp::CommitNoEdit => seq!["commit"@, "--no-edit"@],
            GitOp::TagAnnotated { name, message } => seq![
                "tag"@,
                "-a"@,
                name@,
                "-m"@,
                message@,
            ],
            GitOp::DeleteBranch { branch } => seq!["branch"@, "-d"@, branch@],
            GitOp::ForceDeleteBranch { branch } => seq!["branch"@, "-D"@, branch@],
            GitOp::StashPush => seq![
                "stash"@,
                "push"@,
                "-u"@,
                "-m"@,
                "wgit sync: auto-stash"@,
            ],
            GitOp::StashPop => seq!["stash"@, "pop"@],
            GitOp::Pull { remote, branch } => seq!["pull"@, remote@, branch@],
            GitOp::PushUpstream { remote, branch } => seq!["push"@, "-u"@, remote@, branch@],
        }
    }

    /// Builds the argument vector.
    pub fn args(&self) -> (r: Vec<String>)
        ensures
            r.deep_view() == self.spec_args(),
    {
        let r = match self {
            GitOp::Checkout { branch } => vec![String::from_str("checkout"), branch.clone()],
            GitOp::StartBranch { name } => vec![
                String::from_str("checkout"),
                String::from_str("-b"),
                name.clone(),
            ],
            GitOp::MergeNoFf { branch, message } => vec![
                String::from_str("merge"),
                String::from_str("--no-ff"),
                branch.clone(),
                String::from_str("-m"),
                message.clone(),
            ],
            GitOp::Commit { message } => vec![
                String::from_str("commit"),
                String::from_str("-m"),
                message.clone(),
            ],
            GitOp::CommitNoEdit => vec![
                String::from_str("commit"),
                String::from_str("--no-edit"),
            ],
            GitOp::TagAnnotated { name, message } => vec![
                String::from_str("tag"),
                String::from_str("-a"),
                name.clone(),
                String::from_str("-m"),
                message.clone(),
            ],
            GitOp::DeleteBranch { branch } => vec![
                String::from_str("branch"),
                String::from_str("-d"),
                branch.clone(),
            ],
            GitOp::ForceDeleteBranch { branch } => vec![
                String::from_str("branch"),
                String::from_str("-D"),
                branch.clone(),
            ],
            GitOp::StashPush => vec![
                String::from_str("stash"),
                String::from_str("push"),
                String::from_str("-u"),
                String::from_str("-m"),
                String::from_str("wgit sync: auto-stash"),
            ],
            GitOp::StashPop => vec![String::from_str("stash"), String::from_str("pop")],
            GitOp::Pull { remote, branch } => vec![
                String::from_str("pull"),
                remote.clone(),
                branch.clone(),
            ],
            GitOp::PushUpstream { remote, branch } => vec![
                String::from_str("push"),
                String::from_str("-u"),
                remote.clone(),
                branch.clone(),
            ],
        };
        proof {
            assert(r.deep_view() =~= self.spec_args());
        }
        r
    }
}

impl GitQuery {
    /// The argument vector this query stands for.
    pub open spec fn spec_args(&self) -> Seq<Seq<char>> {
        match self {
            GitQuery::CurrentBranch => seq!["rev-parse"@, "--abbrev-ref"@, "HEAD"@],
            GitQuery::StatusPorcelain => seq!["status"@, "--porcelain"@],
            GitQuery::ConflictedFiles => seq!["diff"@, "--name-only"@, "--diff-filter=U"@],
            GitQuery::BranchList => seq!["branch"@, "--format=%(refname:short)"@],
            GitQuery::LsRemoteHeads { remote, branch } => seq![
                "ls-remote"@,
                "--heads"@,
                remote@,
                branch@,
            ],
        }
    }

    /// Builds the argument vector.
    pub fn args(&self) -> (r: Vec<String>)
        ensures
            r.deep_view() == self.spec_args(),
    {
        let r = match self {
            GitQuery::CurrentBranch => vec![
                String::from_str("rev-parse"),
                String::from_str("--abbrev-ref"),
                String::from_str("HEAD"),
            ],
            GitQuery::StatusPorcelain => vec![
                String::from_str("status"),
                String::from_str("--porcelain"),
            ],
            GitQuery::ConflictedFiles => vec![
                String::from_str("diff"),
                String::from_str("--name-only"),
                String::from_str("--diff-filter=U"),
            ],
            GitQuery::BranchList => vec![
                String::from_str("branch"),
                String::from_str("--format=%(refname:short)"),
            ],
            GitQuery::LsRemoteHeads { remote, branch } => vec![
                String::from_str("ls-remote"),
                String::from_str("--heads"),
                remote.clone(),
                branch.clone(),
            ],
        };
        proof {
            assert(r.deep_view() =~= self.spec_args());
        }
        r
    }
}

/// The arguments joined with single spaces.
pub open spec fn join_spaced(xs: Seq<Seq<char>>) -> Seq<char>
    decreases xs.len(),
{
    if xs.len() == 0 {
        Seq::<char>::empty()
    } else {
        join_spaced(xs.drop_last()) + (if xs.len() == 1 {
            Seq::<char>::empty()
        } else {
            " "@
        }) + xs.last()
    }
}

/// The audit line echoed before a command is run: the tool name followed
/// by the space-joined arguments.
pub open spec fn spec_command_display(xs: Seq<Seq<char>>) -> Seq<char> {
    "  git "@ + join_spaced(xs)
}

/// Builds the audit line for an argument vector.
pub fn command_display(args: &Vec<String>) -> (r: String)
    ensures
        r@ == spec_command_display(args.deep_view()),
{
    let mut m = String::from_str("  git ");
    let mut i: usize = 0;
    while i < args.len()
        invariant
            i <= args@.len(),
            m@ == "  git "@ + join_spaced(args.deep_view().take(i as int)),
        decreases args@.len() - i,
    {
        if i > 0 {
            m.append(" ");
        }
        m.append(args[i].as_str());
        proof {
            let dv = args.deep_view();
            assert(dv.take(i + 1).drop_last() =~= dv.take(i as int));
            assert(dv.take(i + 1).last() == dv[i as int]);
        }
        i += 1;
    }
    proof {
        assert(args.deep_view().take(args@.len() as int) =~= args.deep_view());
    }
    m
}

} // verus!
