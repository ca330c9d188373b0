use wgit::gitops::{command_display, GitOp, GitQuery};

fn strs(v: Vec<String>) -> Vec<String> {
    v
}

#[test]
fn checkout_vector() {
    let op = GitOp::Checkout { branch: String::from("develop") };
    assert_eq!(strs(op.args()), vec!["checkout", "develop"]);
}

#[test]
fn start_branch_vector() {
    let op = GitOp::StartBranch { name: String::from("feature/login") };
    assert_eq!(strs(op.args()), vec!["checkout", "-b", "feature/login"]);
}

#[test]
fn merge_vector() {
    let op = GitOp::MergeNoFf {
        branch: String::from("feature/login"),
        message: String::from("feat: add login"),
    };
    assert_eq!(
        strs(op.args()),
        vec!["merge", "--no-ff", "feature/login", "-m", "feat: add login"]
    );
}

#[test]
fn commit_vectors() {
    let op = GitOp::Commit { message: String::from("fix: x") };
    assert_eq!(strs(op.args()), vec!["commit", "-m", "fix: x"]);
    assert_eq!(strs(GitOp::CommitNoEdit.args()), vec!["commit", "--no-edit"]);
}

#[test]
fn tag_vector() {
    let op = GitOp::TagAnnotated {
        name: String::from("v1.0.0"),
        message: String::from("release: 1.0"),
    };
    assert_eq!(
        strs(op.args()),
        vec!["tag", "-a", "v1.0.0", "-m", "release: 1.0"]
    );
}

#[test]
fn delete_vectors() {
    let op = GitOp::DeleteBranch { branch: String::from("feature/a") };
    assert_eq!(strs(op.args()), vec!["branch", "-d", "feature/a"]);
    let op = GitOp::ForceDeleteBranch { branch: String::from("feature/a") };
    assert_eq!(strs(op.args()), vec!["branch", "-D", "feature/a"]);
}

#[test]
fn stash_vectors() {
    assert_eq!(
        strs(GitOp::StashPush.args()),
        vec!["stash", "push", "-u", "-m", "wgit sync: auto-stash"]
    );
    assert_eq!(strs(GitOp::StashPop.args()), vec!["stash", "pop"]);
}

#[test]
fn pull_push_vectors() {
    let op = GitOp::Pull { remote: String::from("origin"), branch: String::from("develop") };
    assert_eq!(strs(op.args()), vec!["pull", "origin", "develop"]);
    let op = GitOp::PushUpstream {
        remote: String::from("origin"),
        branch: String::from("develop"),
    };
    assert_eq!(strs(op.args()), vec!["push", "-u", "origin", "develop"]);
}

#[test]
fn query_vectors() {
    assert_eq!(
        strs(GitQuery::CurrentBranch.args()),
        vec!["rev-parse", "--abbrev-ref", "HEAD"]
    );
    assert_eq!(
        strs(GitQuery::StatusPorcelain.args()),
        vec!["status", "--porcelain"]
    );
    assert_eq!(
        strs(GitQuery::ConflictedFiles.args()),
        vec!["diff", "--name-only", "--diff-filter=U"]
    );
    assert_eq!(
        strs(GitQuery::BranchList.args()),
        vec!["branch", "--format=%(refname:short)"]
    );
    let q = GitQuery::LsRemoteHeads {
        remote: String::from("origin"),
        branch: String::from("main"),
    };
    assert_eq!(
        strs(q.args()),
        vec!["ls-remote", "--heads", "origin", "main"]
    );
}

#[test]
fn command_display_joins_arguments() {
    let args = GitQuery::StatusPorcelain.args();
    assert_eq!(command_display(&args), "  git status --porcelain");
    let none: Vec<String> = Vec::new();
    assert_eq!(command_display(&none), "  git ");
}
