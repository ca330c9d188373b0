//! The branch command's decisions: dispatching the chosen action, building
//! workflow branch names, and selecting which branches may be deleted.

use vstd::prelude::*;
use crate::cli::{BranchAction, BranchArgs};
use crate::config::WgitConfig;
use crate::finish::{FinishModel, FinishState};

verus! {

/// What the branch command is to do: prompt for an action first, run one
/// of the interactive actions, or drive the finish workflow from its
/// initial state.
pub enum BranchPlan {
    /// No action was given; the surrounding process must ask for one.
    NeedsSelection,
    /// Create and switch to a new workflow branch.
    Start,
    /// Delete a branch chosen from the deletable listing.
    Delete,
    /// Check out a branch chosen from the listing.
    Switch,
    /// Run the finish workflow.
    Finish { flow: FinishState },
}

/// Maps the command's argument to its plan.
pub fn run(args: BranchArgs) -> (p: BranchPlan)
    ensures
        args.action is None <==> p is NeedsSelection,
        args.action matches Some(BranchAction::Start) <==> p is Start,
        args.action matches Some(BranchAction::Delete) <==> p is Delete,
        args.action matches Some(BranchAction::Switch) <==> p is Switch,
        args.action matches Some(BranchAction::Finish) <==> p is Finish,
        p matches BranchPlan::Finish { flow } ==> flow@ == FinishModel::CheckingClean,
{
    match args.action {
        None => BranchPlan::NeedsSelection,
        Some(BranchAction::Start) => BranchPlan::Start,
        Some(BranchAction::Delete) => BranchPlan::Delete,
        Some(BranchAction::Switch) => BranchPlan::Switch,
        Some(BranchAction::Finish) => BranchPlan::Finish { flow: FinishState::start() },
    }
}

/// The full name of a new workflow branch: the chosen category, a slash,
/// the entered name.
pub fn make_branch_name(category: &str, name: &str) -> (r: String)
    ensures
        r@ == category@ + "/"@ + name@,
{
    let mut m = String::from_str(category);
    m.append("/");
    m.append(name);
    m
}

/// The branches of `bs` that are not protected, in order.
pub open spec fn spec_deletable(cfg: &WgitConfig, bs: Seq<Seq<char>>) -> Seq<Seq<char>>
    decreases bs.len(),
{
    if bs.len() == 0 {
        Seq::<Seq<char>>::empty()
    } else {
        let rest = spec_deletable(cfg, bs.drop_last());
        if cfg.is_protected(bs.last()) {
            rest
        } else {
            rest.push(bs.last())
        }
    }
}

/// Filters a branch listing down to the branches a delete may target:
/// everything but the protected ones, order kept.
pub fn deletable_branches(cfg: &WgitConfig, branches: Vec<String>) -> (r: Vec<String>)
    ensures
        r.deep_view() == spec_deletable(cfg, branches.deep_view()),
{
    let mut r: Vec<String> = Vec::new();
    let mut i: usize = 0;
    while i < branches.len()
        invariant
            i <= branches@.len(),
            r.deep_view() == spec_deletable(cfg, branches.deep_view().take(i as int)),
        decreases branches@.len() - i,
    {
        let b = branches[i].clone();
        let keep = !cfg.branch_is_protected(&b);
        proof {
            let dv = branches.deep_view();
            assert(dv.take(i + 1).drop_last() =~= dv.take(i as int));
            assert(dv.take(i + 1).last() == dv[i as int]);
        }
        if keep {
            let ghost prev = r.deep_view();
            r.push(b);
            proof {
                assert(r.deep_view() =~= prev.push(branches.deep_view()[i as int]));
            }
        }
        i += 1;
    }
    proof {
        assert(branches.deep_view().take(branches@.len() as int) =~= branches.deep_view());
    }
    r
}

} // verus!
