//! The workflow configuration: protected branch names, configured remotes
//! and the review mode.  Loaded once per invocation by the surrounding
//! process and passed by reference into the workflows, immutable for the
//! duration of a run.

use vstd::prelude::*;

verus! {

/// Whether finishing merges locally or commits are pushed for remote
/// review.
#[derive(Clone, Copy, Debug, PartialEq, Eq, Structural)]
pub enum ReviewMode {
    LocalMerge,
    RemoteReview,
}

/// The configuration record.  Remotes are kept as `(name, url)` pairs with
/// pairwise-distinct names.
pub struct WgitConfig {
    pub remotes: Vec<(String, String)>,
    pub review_mode: ReviewMode,
    pub main_branch: String,
    pub dev_branch: String,
}

impl WgitConfig {
    /// Well-formed: remote names are pairwise distinct.
    pub open spec fn wf(&self) -> bool {
        forall|i: int, j: int|
            0 <= i < j < self.remotes@.len() ==> self.remotes@[i].0@ != self.remotes@[j].0@
    }

    /// A branch is protected exactly when it is the configured main or
    /// development branch.
    pub open spec fn is_protected(&self, branch: Seq<char>) -> bool {
        branch == self.main_branch@ || branch == self.dev_branch@
    }

    /// Executable protection test.
    pub fn branch_is_protected(&self, branch: &String) -> (r: bool)
        ensures
            r == self.is_protected(branch@),
    {
        branch.eq(&self.main_branch) || branch.eq(&self.dev_branch)
    }
}

impl Default for WgitConfig {
    /// The stock configuration: no remotes, local merging, `main` and
    /// `develop` as the protected branches.
    fn default() -> (c: WgitConfig)
        ensures
            c.remotes@.len() == 0,
            c.review_mode is LocalMerge,
            c.main_branch@ == "main"@,
            c.dev_branch@ == "develop"@,
            c.wf(),
    {
        WgitConfig {
            remotes: Vec::new(),
            review_mode: ReviewMode::LocalMerge,
            main_branch: String::from_str("main"),
            dev_branch: String::from_str("develop"),
        }
    }
}

} // verus!
