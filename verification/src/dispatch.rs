use vstd::prelude::*;
use crate::action::{Action, Continuation, PromptSpec};
use crate::errors::OpError;
use crate::exec::{menu_closed, open_menu_entries, ExecMode, Invocation, SessionState};
use crate::menu::{render_spec, token_views};
use crate::merge::{
    commit_create, continuation_spec, edit_merge_tokens, no_commit_merge_tokens,
    plain_merge_tokens, prompt_label_spec, push_step_tokens, resolver_spec, squash_merge_tokens,
    state_continuation_spec, DissolveMachine, MergeAction, MergeState,
};
use crate::repo::{RepoFacts, TargetData};

verus! {

/// One entry of a visible menu catalogue.
#[derive(Clone, Copy, PartialEq, Eq, Structural, Debug)]
pub enum MenuItem {
    /// Offered while no operation is in progress.
    Idle(MergeAction),
    /// Offered while a merge is in progress.
    InProgress(MergeState),
}

/// Whether an entry's dispatch protocol yields an action in the given
/// context. Every member of both merge catalogues is applicable
/// everywhere; a family whose protocol answered `None` here would be
/// dispatched as `Unavailable`.
pub open spec fn action_available(item: MenuItem) -> bool {
    true
}

/// The selector: choose the catalogue that is visible under the current
/// repository state. The predicate is re-evaluated on every (re)opening
/// of the menu and never cached, since external runs change the
/// repository out of band. The two catalogues are disjoint: in progress,
/// only concluding or aborting the merge is offered; idle, the full
/// six-variant family is.
pub fn current_catalogue(operation_in_progress: bool) -> (r: Vec<MenuItem>)
    ensures
        operation_in_progress ==> r@ == seq![
            MenuItem::InProgress(MergeState::Commit),
            MenuItem::InProgress(MergeState::Abort),
        ],
        !operation_in_progress ==> r@ == seq![
            MenuItem::Idle(MergeAction::Plain),
            MenuItem::Idle(MergeAction::Edit),
            MenuItem::Idle(MergeAction::NoCommit),
            MenuItem::Idle(MergeAction::Absorb),
            MenuItem::Idle(MergeAction::Squash),
            MenuItem::Idle(MergeAction::Dissolve),
        ],
{
    let mut r: Vec<MenuItem> = Vec::new();
    if operation_in_progress {
        r.push(MenuItem::InProgress(MergeState::Commit));
        r.push(MenuItem::InProgress(MergeState::Abort));
        assert(r@ =~= seq![
            MenuItem::InProgress(MergeState::Commit),
            MenuItem::InProgress(MergeState::Abort),
        ]);
    } else {
        r.push(MenuItem::Idle(MergeAction::Plain));
        r.push(MenuItem::Idle(MergeAction::Edit));
        r.push(MenuItem::Idle(MergeAction::NoCommit));
        r.push(MenuItem::Idle(MergeAction::Absorb));
        r.push(MenuItem::Idle(MergeAction::Squash));
        r.push(MenuItem::Idle(MergeAction::Dissolve));
        assert(r@ =~= seq![
            MenuItem::Idle(MergeAction::Plain),
            MenuItem::Idle(MergeAction::Edit),
            MenuItem::Idle(MergeAction::NoCommit),
            MenuItem::Idle(MergeAction::Absorb),
            MenuItem::Idle(MergeAction::Squash),
            MenuItem::Idle(MergeAction::Dissolve),
        ]);
    }
    r
}

/// What a keypress on a catalogue entry resolves to. Only `NeedInput`
/// and `Invoke` carry anything the execution engine can act on:
/// `Unavailable` holds no continuation and no invocation, so a dispatch
/// that yields no action can never be followed by a spawned process.
pub enum DispatchOutcome {
    /// The entry is not applicable here; nothing is prompted or run.
    Unavailable,
    /// Collect one line of input per this prompt, then run its
    /// continuation with the confirmed value.
    NeedInput(PromptSpec),
    /// Run this continuation directly.
    Invoke(Continuation),
}

impl MenuItem {
    /// The caption of this entry.
    pub fn display(&self) -> (r: String)
        ensures
            match *self {
                MenuItem::Idle(a) => r@ == crate::merge::display_spec(a),
                MenuItem::InProgress(s) => r@ == crate::merge::state_display_spec(s),
            },
    {
        match self {
            MenuItem::Idle(a) => a.display(),
            MenuItem::InProgress(s) => s.display(),
        }
    }

    /// The action-dispatch protocol over a whole catalogue entry.
    pub fn get_action(&self, target: Option<&TargetData>) -> (r: Option<Action>)
        ensures
            r is Some <==> action_available(*self),
            match *self {
                MenuItem::Idle(a) => r matches Some(Action::Prompted(p))
                    && p.label@ == prompt_label_spec(a)
                    && p.continuation == continuation_spec(a)
                    && p.resolver == resolver_spec(a)
                    && p.require_nonempty,
                MenuItem::InProgress(s) => r == Some(Action::Direct(state_continuation_spec(s))),
            },
    {
        match self {
            MenuItem::Idle(a) => a.get_action(target),
            MenuItem::InProgress(s) => s.get_action(target),
        }
    }
}

/// Resolve a keypress on a catalogue entry. An entry whose protocol
/// yields no action maps to `Unavailable`, which carries nothing that
/// could reach the execution engine; otherwise the action is unwrapped
/// into either its prompt or its direct continuation.
pub fn dispatch(item: &MenuItem, target: Option<&TargetData>) -> (r: DispatchOutcome)
    ensures
        !action_available(*item) <==> r is Unavailable,
        match *item {
            MenuItem::Idle(a) => r matches DispatchOutcome::NeedInput(p)
                && p.label@ == prompt_label_spec(a)
                && p.continuation == continuation_spec(a)
                && p.resolver == resolver_spec(a)
                && p.require_nonempty,
            MenuItem::InProgress(s) => r == DispatchOutcome::Invoke(state_continuation_spec(s)),
        },
{
    match item.get_action(target) {
        None => DispatchOutcome::Unavailable,
        Some(Action::Prompted(p)) => DispatchOutcome::NeedInput(p),
        Some(Action::Direct(c)) => DispatchOutcome::Invoke(c),
    }
}

/// What invoking a continuation hands the runner: one invocation to
/// launch, or the started dissolve sequence together with its first
/// invocation.
pub enum ContinuationOutcome {
    Launch(Invocation),
    BeginDissolve(DissolveMachine, Invocation),
}

/// Whether invoking a continuation closed the menu and handed out one
/// invocation of the external tool with these tokens and this mode.
pub open spec fn launches(
    r: Result<ContinuationOutcome, OpError>,
    s_old: SessionState,
    s_new: SessionState,
    tokens: Seq<Seq<char>>,
    mode: ExecMode,
) -> bool {
    &&& s_new == menu_closed(s_old)
    &&& r matches Ok(ContinuationOutcome::Launch(inv)) && inv.program@ == "git"@
        && token_views(inv.args@) == tokens && inv.mode == mode
}

/// Run a confirmed continuation against the currently open menu: each
/// reads its options from that menu alone, closes it before anything is
/// launched, and reports failures without touching the session. The
/// resolved argument is the prompt's confirmed line (direct
/// continuations ignore it).
pub fn run_continuation(
    c: Continuation,
    session: &mut SessionState,
    facts: &RepoFacts,
    resolved: &String,
) -> (r: Result<ContinuationOutcome, OpError>)
    requires
        old(session).pending_menu is Some,
    ensures
        match c {
            Continuation::MergePlain => launches(r, *old(session), *final(session),
                plain_merge_tokens(render_spec(open_menu_entries(*old(session))), resolved@),
                ExecMode::Async),
            Continuation::MergeEdit => launches(r, *old(session), *final(session),
                edit_merge_tokens(render_spec(open_menu_entries(*old(session))), resolved@),
                ExecMode::Interactive),
            Continuation::MergeNoCommit => launches(r, *old(session), *final(session),
                no_commit_merge_tokens(render_spec(open_menu_entries(*old(session))), resolved@),
                ExecMode::Interactive),
            Continuation::MergeAbsorb => {
                &&& *final(session) == *old(session)
                &&& r == Err::<ContinuationOutcome, OpError>(OpError::NotImplemented)
            },
            Continuation::MergeSquash => launches(r, *old(session), *final(session),
                squash_merge_tokens(render_spec(open_menu_entries(*old(session))), resolved@),
                ExecMode::Async),
            Continuation::MergeDissolve => {
                &&& facts.upstream_branch is None ==> {
                    &&& *final(session) == *old(session)
                    &&& r == Err::<ContinuationOutcome, OpError>(OpError::NoSuchRef)
                }
                &&& (facts.upstream_branch matches Some(upstream) ==> {
                    &&& *final(session) == menu_closed(*old(session))
                    &&& r matches Ok(ContinuationOutcome::BeginDissolve(m, inv))
                    &&& m.destination@ == resolved@
                    &&& token_views(m.rendered@) == render_spec(open_menu_entries(*old(session)))
                    &&& m.phase == crate::merge::DissolvePhase::Pushing
                    &&& inv.program@ == "git"@
                    &&& token_views(inv.args@) == push_step_tokens(upstream@)
                    &&& inv.mode == ExecMode::Async
                })
            },
            Continuation::CommitCreate => launches(r, *old(session), *final(session),
                seq!["commit"@], ExecMode::Interactive),
            Continuation::MergeAbort => launches(r, *old(session), *final(session),
                seq!["merge"@, "--abort"@], ExecMode::Interactive),
        },
{
    match c {
        Continuation::MergePlain => Ok(ContinuationOutcome::Launch(
            MergeAction::plain(session, resolved),
        )),
        Continuation::MergeEdit => Ok(ContinuationOutcome::Launch(
            MergeAction::edit(session, resolved),
        )),
        Continuation::MergeNoCommit => Ok(ContinuationOutcome::Launch(
            MergeAction::no_commit(session, resolved),
        )),
        Continuation::MergeAbsorb => {
            match MergeAction::absorb(session, resolved) {
                Ok(inv) => Ok(ContinuationOutcome::Launch(inv)),
                Err(e) => Err(e),
            }
        },
        Continuation::MergeSquash => Ok(ContinuationOutcome::Launch(
            MergeAction::squash(session, resolved),
        )),
        Continuation::MergeDissolve => {
            match MergeAction::dissolve(session, facts, resolved) {
                Ok((m, inv)) => Ok(ContinuationOutcome::BeginDissolve(m, inv)),
                Err(e) => Err(e),
            }
        },
        Continuation::CommitCreate => Ok(ContinuationOutcome::Launch(commit_create(session))),
        Continuation::MergeAbort => Ok(ContinuationOutcome::Launch(MergeState::abort(session))),
    }
}

} // verus!
