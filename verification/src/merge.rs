use vstd::prelude::*;
use crate::action::{Action, Continuation, PromptSpec, ResolverKind};
use crate::errors::OpError;
use crate::exec::{menu_closed, open_menu_entries, ExecMode, Invocation, SessionState};
use crate::menu::{contains_token, render_spec, token_views};
use crate::arg::{Arg, ArgKind};
use crate::repo::{RepoFacts, TargetData};

verus! {

/// The option catalogue of the merge menu: the fast-forward pair, both
/// off by default. The strategy modifier is deliberately left out until
/// its value parser is specified.
pub fn init_args() -> (r: Vec<Arg>)
    ensures
        r@.len() == 2,
        r@[0].kind == ArgKind::Flag,
        r@[0].token@ == "--ff-only"@,
        r@[0].label@ == "Fast-forward only"@,
        !r@[0].default_active,
        r@[1].kind == ArgKind::Flag,
        r@[1].token@ == "--no-ff"@,
        r@[1].label@ == "No fast-forward"@,
        !r@[1].default_active,
        r@[0].token@ != r@[1].token@,
{
    let mut v: Vec<Arg> = Vec::new();
    v.push(Arg::new_flag("--ff-only", "Fast-forward only", false));
    v.push(Arg::new_flag("--no-ff", "No fast-forward", false));
    proof {
        reveal_strlit("--ff-only");
        reveal_strlit("--no-ff");
        assert("--ff-only"@.len() == 9);
        assert("--no-ff"@.len() == 7);
    }
    v
}

/// The idle-catalogue merge family: one member per user-invocable flavour
/// of merge. The set is closed; every consumer matches it exhaustively,
/// so adding a member forces every dependent match to be updated.
#[derive(Clone, Copy, PartialEq, Eq, Structural, PartialOrd, Ord, Debug)]
pub enum MergeAction {
    Plain,
    Edit,
    NoCommit,
    Absorb,
    Squash,
    Dissolve,
}

/// The in-progress catalogue: the only actions offered while a merge is
/// under way.
#[derive(Clone, Copy, PartialEq, Eq, Structural, PartialOrd, Ord, Debug)]
pub enum MergeState {
    Commit,
    Abort,
}

/// The menu caption of each merge variant.
pub open spec fn display_spec(a: MergeAction) -> Seq<char> {
    match a {
        MergeAction::Plain => "Merge"@,
        MergeAction::Edit => "Merge and edit message"@,
        MergeAction::NoCommit => "Merge but don't commit"@,
        MergeAction::Absorb => "Absorb"@,
        MergeAction::Squash => "Squash merge"@,
        MergeAction::Dissolve => "Dissolve"@,
    }
}

/// The menu caption of each in-progress action.
pub open spec fn state_display_spec(s: MergeState) -> Seq<char> {
    match s {
        MergeState::Commit => "commit"@,
        MergeState::Abort => "abort"@,
    }
}

/// Every merge variant has a caption.
pub proof fn lemma_display_defined(a: MergeAction)
    ensures
        display_spec(a).len() > 0,
{
    reveal_strlit("Merge");
    reveal_strlit("Merge and edit message");
    reveal_strlit("Merge but don't commit");
    reveal_strlit("Absorb");
    reveal_strlit("Squash merge");
    reveal_strlit("Dissolve");
}

/// Every in-progress action has a caption.
pub proof fn lemma_state_display_defined(s: MergeState)
    ensures
        state_display_spec(s).len() > 0,
{
    reveal_strlit("commit");
    reveal_strlit("abort");
}

/// The tokens of a plain merge run.
pub open spec fn plain_merge_tokens(rendered: Seq<Seq<char>>, rev: Seq<char>) -> Seq<Seq<char>> {
    seq!["merge"@] + rendered + seq![rev]
}

/// The tokens of a merge run that edits the commit message.
pub open spec fn edit_merge_tokens(rendered: Seq<Seq<char>>, rev: Seq<char>) -> Seq<Seq<char>> {
    seq!["merge"@, "--edit"@] + rendered + seq![rev]
}

/// The tokens of a squash merge run.
pub open spec fn squash_merge_tokens(rendered: Seq<Seq<char>>, rev: Seq<char>) -> Seq<Seq<char>> {
    seq!["merge"@, "--squash"@] + rendered + seq![rev]
}

/// The tokens of a merge run that defers the commit: fast-forward
/// suppression is injected exactly when the user has not toggled it
/// already, so deferring the commit defaults toward a merge commit.
pub open spec fn no_commit_merge_tokens(rendered: Seq<Seq<char>>, rev: Seq<char>) -> Seq<Seq<char>> {
    seq!["merge"@, "--no-commit"@]
        + (if rendered.contains("--no-ff"@) { Seq::<Seq<char>>::empty() } else { seq!["--no-ff"@] })
        + rendered + seq![rev]
}

/// The tokens of the dissolve sequence's force-push step.
pub open spec fn push_step_tokens(upstream: Seq<char>) -> Seq<Seq<char>> {
    seq!["push"@, "--force-with-lease"@, "--set-upstream"@, upstream]
}

/// The tokens of the dissolve sequence's branch-switch step.
pub open spec fn checkout_step_tokens(destination: Seq<char>) -> Seq<Seq<char>> {
    seq!["checkout"@, destination]
}

/// Append clones of every token of `src` to `dst`, in order.
fn push_all(dst: &mut Vec<String>, src: &Vec<String>)
    ensures
        token_views(final(dst)@) == token_views(old(dst)@) + token_views(src@),
{
    let mut i: usize = 0;
    while i < src.len()
        invariant
            i <= src@.len(),
            token_views(dst@) == token_views(old(dst)@) + token_views(src@.take(i as int)),
        decreases src@.len() - i,
    {
        let ghost before = dst@;
        dst.push(src[i].clone());
        assert(token_views(dst@) =~= token_views(before) + seq![src@[i as int]@]);
        assert(token_views(src@.take(i as int + 1))
            =~= token_views(src@.take(i as int)) + seq![src@[i as int]@]);
        assert(token_views(dst@)
            =~= token_views(old(dst)@) + token_views(src@.take(i as int + 1)));
        i = i + 1;
    }
    assert(src@.take(src@.len() as int) =~= src@);
}

/// Wrap a finalized token list into an invocation of the external tool.
fn git_invocation(args: Vec<String>, mode: ExecMode) -> (r: Invocation)
    ensures
        r.program@ == "git"@,
        r.args == args,
        r.mode == mode,
{
    Invocation { program: "git".to_owned(), args, mode }
}

/// An edit-style merge invocation over an already rendered token list.
fn edit_invocation_from(rendered: &Vec<String>, rev: &String) -> (inv: Invocation)
    ensures
        inv.program@ == "git"@,
        token_views(inv.args@) == edit_merge_tokens(token_views(rendered@), rev@),
        inv.mode == ExecMode::Interactive,
{
    let mut args: Vec<String> = Vec::new();
    args.push("merge".to_owned());
    args.push("--edit".to_owned());
    assert(token_views(args@) =~= seq!["merge"@, "--edit"@]);
    push_all(&mut args, rendered);
    let ghost mid2 = args@;
    args.push(rev.clone());
    assert(token_views(args@) =~= token_views(mid2) + seq![rev@]);
    assert(token_views(args@) =~= edit_merge_tokens(token_views(rendered@), rev@));
    git_invocation(args, ExecMode::Interactive)
}

impl MergeAction {
    /// The menu caption of this variant; defined for every member of the
    /// closed catalogue.
    pub fn display(&self) -> (r: String)
        ensures
            r@ == display_spec(*self),
    {
        match self {
            MergeAction::Plain => "Merge".to_owned(),
            MergeAction::Edit => "Merge and edit message".to_owned(),
            MergeAction::NoCommit => "Merge but don't commit".to_owned(),
            MergeAction::Absorb => "Absorb".to_owned(),
            MergeAction::Squash => "Squash merge".to_owned(),
            MergeAction::Dissolve => "Dissolve".to_owned(),
        }
    }

    /// Plain merge: render the open menu, append the confirmed revision,
    /// close the menu, and run asynchronously.
    pub fn plain(session: &mut SessionState, rev: &String) -> (inv: Invocation)
        requires
            old(session).pending_menu is Some,
        ensures
            *final(session) == menu_closed(*old(session)),
            inv.program@ == "git"@,
            token_views(inv.args@) == plain_merge_tokens(
                render_spec(open_menu_entries(*old(session))), rev@),
            inv.mode == ExecMode::Async,
    {
        let menu = session.pending_menu.as_ref().unwrap();
        let rendered = menu.render();
        let mut args: Vec<String> = Vec::new();
        args.push("merge".to_owned());
        assert(token_views(args@) =~= seq!["merge"@]);
        push_all(&mut args, &rendered);
        let ghost mid = args@;
        args.push(rev.clone());
        assert(token_views(args@) =~= token_views(mid) + seq![rev@]);
        assert(token_views(args@) =~= plain_merge_tokens(token_views(rendered@), rev@));
        session.close_menu();
        git_invocation(args, ExecMode::Async)
    }

    /// Merge and edit the message: as `plain`, but the run is interactive
    /// so the external editor can take the terminal.
    pub fn edit(session: &mut SessionState, rev: &String) -> (inv: Invocation)
        requires
            old(session).pending_menu is Some,
        ensures
            *final(session) == menu_closed(*old(session)),
            inv.program@ == "git"@,
            token_views(inv.args@) == edit_merge_tokens(
                render_spec(open_menu_entries(*old(session))), rev@),
            inv.mode == ExecMode::Interactive,
    {
        let menu = session.pending_menu.as_ref().unwrap();
        let rendered = menu.render();
        session.close_menu();
        edit_invocation_from(&rendered, rev)
    }

    /// Merge without committing: defers the commit step, injecting
    /// fast-forward suppression unless the user toggled it already; runs
    /// interactively.
    pub fn no_commit(session: &mut SessionState, rev: &String) -> (inv: Invocation)
        requires
            old(session).pending_menu is Some,
        ensures
            *final(session) == menu_closed(*old(session)),
            inv.program@ == "git"@,
            token_views(inv.args@) == no_commit_merge_tokens(
                render_spec(open_menu_entries(*old(session))), rev@),
            inv.mode == ExecMode::Interactive,
    {
        let menu = session.pending_menu.as_ref().unwrap();
        let rendered = menu.render();
        let noff: String = "--no-ff".to_owned();
        let has = contains_token(&rendered, &noff);
        let mut args: Vec<String> = Vec::new();
        args.push("merge".to_owned());
        args.push("--no-commit".to_owned());
        assert(token_views(args@) =~= seq!["merge"@, "--no-commit"@]);
        if has == false {
            let ghost before = args@;
            args.push(noff);
            assert(token_views(args@) =~= token_views(before) + seq!["--no-ff"@]);
        }
        push_all(&mut args, &rendered);
        let ghost mid = args@;
        args.push(rev.clone());
        assert(token_views(args@) =~= token_views(mid) + seq![rev@]);
        assert(token_views(args@) =~= no_commit_merge_tokens(token_views(rendered@), rev@));
        session.close_menu();
        git_invocation(args, ExecMode::Interactive)
    }

    /// Absorb-style merge (merge without a separate edit step, then remove
    /// the merged source branch). Not realised yet: it reports
    /// `NotImplemented` at dispatch and leaves the session untouched, so
    /// the whole session never aborts over it.
    #[allow(unused_variables)]
    pub fn absorb(session: &mut SessionState, branch_name: &String) -> (r: Result<Invocation, OpError>)
        ensures
            *final(session) == *old(session),
            r == Err::<Invocation, OpError>(OpError::NotImplemented),
    {
        Err(OpError::NotImplemented)
    }

    /// Squash merge: as `plain`, with the squash token; asynchronous.
    pub fn squash(session: &mut SessionState, rev: &String) -> (inv: Invocation)
        requires
            old(session).pending_menu is Some,
        ensures
            *final(session) == menu_closed(*old(session)),
            inv.program@ == "git"@,
            token_views(inv.args@) == squash_merge_tokens(
                render_spec(open_menu_entries(*old(session))), rev@),
            inv.mode == ExecMode::Async,
    {
        let menu = session.pending_menu.as_ref().unwrap();
        let rendered = menu.render();
        let mut args: Vec<String> = Vec::new();
        args.push("merge".to_owned());
        args.push("--squash".to_owned());
        assert(token_views(args@) =~= seq!["merge"@, "--squash"@]);
        push_all(&mut args, &rendered);
        let ghost mid = args@;
        args.push(rev.clone());
        assert(token_views(args@) =~= token_views(mid) + seq![rev@]);
        assert(token_views(args@) =~= squash_merge_tokens(token_views(rendered@), rev@));
        session.close_menu();
        git_invocation(args, ExecMode::Async)
    }

    /// Begin the dissolve sequence: merge the current branch into another
    /// and remove the former. When no upstream is configured the whole
    /// sequence is refused with `NoSuchRef` before anything runs and the
    /// menu stays open; otherwise the menu is closed, its rendering is
    /// snapshotted for the final merge step, and the force-push of the
    /// current branch to its upstream is handed out as the first step.
    pub fn dissolve(session: &mut SessionState, facts: &RepoFacts, destination_branch: &String)
        -> (r: Result<(DissolveMachine, Invocation), OpError>)
        requires
            old(session).pending_menu is Some,
        ensures
            facts.upstream_branch is None ==> {
                &&& r == Err::<(DissolveMachine, Invocation), OpError>(OpError::NoSuchRef)
                &&& *final(session) == *old(session)
            },
            facts.upstream_branch matches Some(upstream) ==> {
                &&& *final(session) == menu_closed(*old(session))
                &&& r matches Ok((m, inv))
                &&& m.destination@ == destination_branch@
                &&& token_views(m.rendered@) == render_spec(open_menu_entries(*old(session)))
                &&& m.phase == DissolvePhase::Pushing
                &&& inv.program@ == "git"@
                &&& token_views(inv.args@) == push_step_tokens(upstream@)
                &&& inv.mode == ExecMode::Async
            },
    {
        match &facts.upstream_branch {
            None => Err(OpError::NoSuchRef),
            Some(upstream) => {
                let menu = session.pending_menu.as_ref().unwrap();
                let rendered = menu.render();
                session.close_menu();
                let mut args: Vec<String> = Vec::new();
                args.push("push".to_owned());
                args.push("--force-with-lease".to_owned());
                args.push("--set-upstream".to_owned());
                args.push(upstream.clone());
                assert(token_views(args@) =~= push_step_tokens(upstream@));
                let inv = git_invocation(args, ExecMode::Async);
                let machine = DissolveMachine {
                    destination: destination_branch.clone(),
                    rendered,
                    phase: DissolvePhase::Pushing,
                };
                Ok((machine, inv))
            },
        }
    }
}

/// Create the commit that concludes a merge in progress: close the menu
/// and hand the terminal to the configured editor.
pub fn commit_create(session: &mut SessionState) -> (inv: Invocation)
    ensures
        *final(session) == menu_closed(*old(session)),
        inv.program@ == "git"@,
        token_views(inv.args@) == seq!["commit"@],
        inv.mode == ExecMode::Interactive,
{
    let mut args: Vec<String> = Vec::new();
    args.push("commit".to_owned());
    assert(token_views(args@) =~= seq!["commit"@]);
    session.close_menu();
    git_invocation(args, ExecMode::Interactive)
}

impl MergeState {
    /// The menu caption of this in-progress action.
    pub fn display(&self) -> (r: String)
        ensures
            r@ == state_display_spec(*self),
    {
        match self {
            MergeState::Commit => "commit".to_owned(),
            MergeState::Abort => "abort".to_owned(),
        }
    }

    /// Abort the merge in progress: close the menu and run the abort
    /// interactively.
    pub fn abort(session: &mut SessionState) -> (inv: Invocation)
        ensures
            *final(session) == menu_closed(*old(session)),
            inv.program@ == "git"@,
            token_views(inv.args@) == seq!["merge"@, "--abort"@],
            inv.mode == ExecMode::Interactive,
    {
        let mut args: Vec<String> = Vec::new();
        args.push("merge".to_owned());
        args.push("--abort".to_owned());
        assert(token_views(args@) =~= seq!["merge"@, "--abort"@]);
        session.close_menu();
        git_invocation(args, ExecMode::Interactive)
    }
}

/// Where the dissolve sequence stands: which step's outcome `next` is
/// waiting for.
#[derive(Clone, Copy, PartialEq, Eq, Structural, Debug)]
pub enum DissolvePhase {
    Pushing,
    CheckingOut,
    Merging,
    Finished,
}

/// The compound dissolve sequence as an explicit step machine: each
/// external run is handed out as an invocation, its outcome is reported
/// back, and the first failure aborts every remaining step.
pub struct DissolveMachine {
    /// The branch the current branch is merged into.
    pub destination: String,
    /// The menu rendering snapshotted when the sequence began, for the
    /// fallback merge step.
    pub rendered: Vec<String>,
    pub phase: DissolvePhase,
}

/// What the dissolve sequence asks of its runner next.
pub enum DissolveDecision {
    /// Dispatch this invocation and report its outcome to `next`.
    Run(Invocation),
    /// The sequence completed.
    Done,
    /// The sequence aborted with this error; no further step runs.
    Fail(OpError),
}

impl DissolveMachine {
    /// Advance the sequence with the outcome of the step just run. A
    /// failed step aborts the remainder and surfaces its error. After a
    /// successful push the branch switch runs; after a successful switch,
    /// if the head is a named branch the absorb-style merge would follow
    /// (not realised yet, so it fails loudly), and if the head is
    /// detached the sequence falls back to an edit-style merge of the
    /// previously selected revision, which must exist.
    pub fn next(&mut self, prior: Result<(), OpError>, facts: &RepoFacts) -> (r: DissolveDecision)
        requires
            old(self).phase != DissolvePhase::Finished,
        ensures
            final(self).destination == old(self).destination,
            final(self).rendered == old(self).rendered,
            prior matches Err(e) ==> {
                &&& final(self).phase == DissolvePhase::Finished
                &&& r == DissolveDecision::Fail(e)
            },
            prior is Ok && old(self).phase == DissolvePhase::Pushing ==> {
                &&& final(self).phase == DissolvePhase::CheckingOut
                &&& r matches DissolveDecision::Run(inv)
                &&& inv.program@ == "git"@
                &&& token_views(inv.args@) == checkout_step_tokens(old(self).destination@)
                &&& inv.mode == ExecMode::Async
            },
            prior is Ok && old(self).phase == DissolvePhase::CheckingOut
                && facts.head_branch is Some ==> {
                &&& final(self).phase == DissolvePhase::Finished
                &&& r == DissolveDecision::Fail(OpError::NotImplemented)
            },
            prior is Ok && old(self).phase == DissolvePhase::CheckingOut
                && facts.head_branch is None ==> (facts.selected_rev matches Some(rev) ==> {
                &&& final(self).phase == DissolvePhase::Merging
                &&& r matches DissolveDecision::Run(inv)
                &&& inv.program@ == "git"@
                &&& token_views(inv.args@) == edit_merge_tokens(
                    token_views(old(self).rendered@), rev@)
                &&& inv.mode == ExecMode::Interactive
            }),
            prior is Ok && old(self).phase == DissolvePhase::CheckingOut
                && facts.head_branch is None && facts.selected_rev is None ==> {
                &&& final(self).phase == DissolvePhase::Finished
                &&& r == DissolveDecision::Fail(OpError::MissingArgument)
            },
            prior is Ok && old(self).phase == DissolvePhase::Merging ==> {
                &&& final(self).phase == DissolvePhase::Finished
                &&& r == DissolveDecision::Done
            },
    {
        match prior {
            Err(e) => {
                self.phase = DissolvePhase::Finished;
                DissolveDecision::Fail(e)
            },
            Ok(()) => {
                let phase = self.phase;
                match phase {
                    DissolvePhase::Pushing => {
                        let mut args: Vec<String> = Vec::new();
                        args.push("checkout".to_owned());
                        args.push(self.destination.clone());
                        assert(token_views(args@) =~= checkout_step_tokens(self.destination@));
                        self.phase = DissolvePhase::CheckingOut;
                        DissolveDecision::Run(git_invocation(args, ExecMode::Async))
                    },
                    DissolvePhase::CheckingOut => {
                        match &facts.head_branch {
                            Some(_) => {
                                self.phase = DissolvePhase::Finished;
                                DissolveDecision::Fail(OpError::NotImplemented)
                            },
                            None => {
                                match &facts.selected_rev {
                                    Some(rev) => {
                                        let inv = edit_invocation_from(&self.rendered, rev);
                                        self.phase = DissolvePhase::Merging;
                                        DissolveDecision::Run(inv)
                                    },
                                    None => {
                                        self.phase = DissolvePhase::Finished;
                                        DissolveDecision::Fail(OpError::MissingArgument)
                                    },
                                }
                            },
                        }
                    },
                    DissolvePhase::Merging => {
                        self.phase = DissolvePhase::Finished;
                        DissolveDecision::Done
                    },
                    DissolvePhase::Finished => unreached(),
                }
            },
        }
    }
}

/// The prompt label each merge variant is dispatched with.
pub open spec fn prompt_label_spec(a: MergeAction) -> Seq<char> {
    match a {
        MergeAction::Plain => "Merge"@,
        MergeAction::Edit => "Merge"@,
        MergeAction::NoCommit => "Merge"@,
        MergeAction::Absorb => "Absorb branch"@,
        MergeAction::Squash => "Squash"@,
        MergeAction::Dissolve => "Merge current branch into"@,
    }
}

/// The continuation each merge variant's prompt confirms into.
pub open spec fn continuation_spec(a: MergeAction) -> Continuation {
    match a {
        MergeAction::Plain => Continuation::MergePlain,
        MergeAction::Edit => Continuation::MergeEdit,
        MergeAction::NoCommit => Continuation::MergeNoCommit,
        MergeAction::Absorb => Continuation::MergeAbsorb,
        MergeAction::Squash => Continuation::MergeSquash,
        MergeAction::Dissolve => Continuation::MergeDissolve,
    }
}

/// The default resolver each merge variant's prompt is seeded from.
pub open spec fn resolver_spec(a: MergeAction) -> ResolverKind {
    match a {
        MergeAction::Plain => ResolverKind::SelectedRev,
        MergeAction::Edit => ResolverKind::SelectedRev,
        MergeAction::NoCommit => ResolverKind::SelectedRev,
        MergeAction::Absorb => ResolverKind::LatestLocalBranch,
        MergeAction::Squash => ResolverKind::SelectedRev,
        MergeAction::Dissolve => ResolverKind::LatestLocalBranch,
    }
}

/// The continuation each in-progress action invokes directly.
pub open spec fn state_continuation_spec(s: MergeState) -> Continuation {
    match s {
        MergeState::Commit => Continuation::CommitCreate,
        MergeState::Abort => Continuation::MergeAbort,
    }
}

impl MergeAction {
    /// The action-dispatch protocol for the idle merge family: every
    /// variant is applicable in every selection context, and each yields
    /// a prompt-wrapped continuation that requires a non-empty argument.
    #[allow(unused_variables)]
    pub fn get_action(&self, target: Option<&TargetData>) -> (r: Option<Action>)
        ensures
            r matches Some(Action::Prompted(p)) && p.label@ == prompt_label_spec(*self)
                && p.continuation == continuation_spec(*self)
                && p.resolver == resolver_spec(*self) && p.require_nonempty,
    {
        let label: &str = match self {
            MergeAction::Plain => "Merge",
            MergeAction::Edit => "Merge",
            MergeAction::NoCommit => "Merge",
            MergeAction::Absorb => "Absorb branch",
            MergeAction::Squash => "Squash",
            MergeAction::Dissolve => "Merge current branch into",
        };
        let continuation = match self {
            MergeAction::Plain => Continuation::MergePlain,
            MergeAction::Edit => Continuation::MergeEdit,
            MergeAction::NoCommit => Continuation::MergeNoCommit,
            MergeAction::Absorb => Continuation::MergeAbsorb,
            MergeAction::Squash => Continuation::MergeSquash,
            MergeAction::Dissolve => Continuation::MergeDissolve,
        };
        let resolver = match self {
            MergeAction::Plain => ResolverKind::SelectedRev,
            MergeAction::Edit => ResolverKind::SelectedRev,
            MergeAction::NoCommit => ResolverKind::SelectedRev,
            MergeAction::Absorb => ResolverKind::LatestLocalBranch,
            MergeAction::Squash => ResolverKind::SelectedRev,
            MergeAction::Dissolve => ResolverKind::LatestLocalBranch,
        };
        Some(Action::Prompted(PromptSpec {
            label: label.to_owned(),
            continuation,
            resolver,
            require_nonempty: true,
        }))
    }
}

impl MergeState {
    /// The action-dispatch protocol for the in-progress family: every
    /// action is applicable and invokes its continuation directly,
    /// without a prompt.
    #[allow(unused_variables)]
    pub fn get_action(&self, target: Option<&TargetData>) -> (r: Option<Action>)
        ensures
            r == Some(Action::Direct(state_continuation_spec(*self))),
    {
        match self {
            MergeState::Commit => Some(Action::Direct(Continuation::CommitCreate)),
            MergeState::Abort => Some(Action::Direct(Continuation::MergeAbort)),
        }
    }
}

} // verus!
