use vstd::prelude::*;
use crate::errors::OpError;
use crate::repo::RepoFacts;

verus! {

/// Which contextual default a prompt is seeded with.
#[derive(Clone, Copy, PartialEq, Eq, Structural, Debug)]
pub enum ResolverKind {
    /// The revision currently selected in the UI.
    SelectedRev,
    /// The most recently created local branch.
    LatestLocalBranch,
}

/// The continuation an action runs once its argument is confirmed. Each
/// names one fixed behaviour of the engine; dispatch produces it fresh
/// and it is consumed at most once.
#[derive(Clone, Copy, PartialEq, Eq, Structural, Debug)]
pub enum Continuation {
    MergePlain,
    MergeEdit,
    MergeNoCommit,
    MergeAbsorb,
    MergeSquash,
    MergeDissolve,
    CommitCreate,
    MergeAbort,
}

/// A prompt wrapped around a continuation: the label shown, the resolver
/// that computes the editable default, and whether an empty default must
/// refuse to suspend at all.
pub struct PromptSpec {
    pub label: String,
    pub continuation: Continuation,
    pub resolver: ResolverKind,
    pub require_nonempty: bool,
}

/// An invocable unit produced by dispatch: a direct continuation, or one
/// wrapped by a prompt pending confirmation.
pub enum Action {
    Prompted(PromptSpec),
    Direct(Continuation),
}

/// Read a resolver's answer out of the repository snapshot. Resolvers are
/// pure: they only read, never mutate.
pub fn resolve_default<'a>(kind: ResolverKind, facts: &'a RepoFacts) -> (r: &'a Option<String>)
    ensures
        *r == match kind {
            ResolverKind::SelectedRev => facts.selected_rev,
            ResolverKind::LatestLocalBranch => facts.latest_local_branch,
        },
{
    match kind {
        ResolverKind::SelectedRev => &facts.selected_rev,
        ResolverKind::LatestLocalBranch => &facts.latest_local_branch,
    }
}

/// A default is missing when the resolver found nothing or only an empty
/// line.
pub open spec fn default_missing(d: Option<String>) -> bool {
    match d {
        None => true,
        Some(s) => s@.len() == 0,
    }
}

/// The first step of running a prompt-wrapped action.
pub enum PromptStep {
    /// Suspend the session for exactly one line of input, pre-filled with
    /// this editable seed.
    Suspend { label: String, seed: String },
    /// Refuse without suspending: no input is collected, nothing runs.
    Refuse { error: OpError },
}

/// Begin a prompt with the resolver's answer. When the default is
/// required but missing, this refuses with `MissingArgument` and the
/// session is never suspended; otherwise it suspends exactly once,
/// seeded with the resolved default (or an empty line when none came
/// and none was required).
pub fn prompt_begin(p: &PromptSpec, default: Option<String>) -> (r: PromptStep)
    ensures
        p.require_nonempty && default_missing(default) ==> r == (PromptStep::Refuse {
            error: OpError::MissingArgument,
        }),
        !(p.require_nonempty && default_missing(default)) ==> (r matches PromptStep::Suspend {
            label,
            seed,
        } && label@ == p.label@ && seed@ == match default {
            Some(d) => d@,
            None => Seq::<char>::empty(),
        }),
{
    let missing = match &default {
        None => true,
        Some(s) => s.as_str().is_empty(),
    };
    if p.require_nonempty && missing {
        PromptStep::Refuse { error: OpError::MissingArgument }
    } else {
        let seed = match default {
            Some(d) => d,
            None => String::new(),
        };
        PromptStep::Suspend { label: p.label.clone(), seed }
    }
}

} // verus!
