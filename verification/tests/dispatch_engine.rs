use mergemenu::action::{Action, Continuation, PromptSpec, PromptStep, ResolverKind};
use mergemenu::action::{prompt_begin, resolve_default};
use mergemenu::dispatch::{
    current_catalogue, dispatch, run_continuation, ContinuationOutcome, DispatchOutcome, MenuItem,
};
use mergemenu::errors::{ExitStatus, OpError};
use mergemenu::exec::{ExecMode, SessionState, TermMode};
use mergemenu::menu::PendingMenu;
use mergemenu::merge::{init_args, DissolveDecision, MergeAction, MergeState};
use mergemenu::repo::RepoFacts;

fn idle_facts() -> RepoFacts {
    RepoFacts {
        operation_in_progress: false,
        upstream_branch: Some("origin/feature".to_string()),
        head_branch: Some("feature".to_string()),
        selected_rev: Some("abc123".to_string()),
        latest_local_branch: Some("feature".to_string()),
    }
}

fn session_with_menu() -> SessionState {
    let mut s = SessionState::new();
    s.open_menu(PendingMenu::new(init_args()));
    s
}

fn tokens(v: &[&str]) -> Vec<String> {
    v.iter().map(|s| s.to_string()).collect()
}

#[test]
fn no_commit_on_empty_menu_injects_fast_forward_suppression() {
    let mut s = session_with_menu();
    let rev = "abc123".to_string();
    let inv = MergeAction::no_commit(&mut s, &rev);
    assert_eq!(inv.program, "git".to_string());
    assert_eq!(inv.args, tokens(&["merge", "--no-commit", "--no-ff", "abc123"]));
    assert!(matches!(inv.mode, ExecMode::Interactive));
    assert!(s.pending_menu.is_none());
}

#[test]
fn no_commit_does_not_duplicate_an_explicit_no_ff() {
    let mut s = SessionState::new();
    let mut menu = PendingMenu::new(init_args());
    menu.toggle(1);
    s.open_menu(menu);
    let rev = "abc123".to_string();
    let inv = MergeAction::no_commit(&mut s, &rev);
    assert_eq!(inv.args, tokens(&["merge", "--no-commit", "--no-ff", "abc123"]));
    let occurrences = inv.args.iter().filter(|a| a.as_str() == "--no-ff").count();
    assert_eq!(occurrences, 1);
}

#[test]
fn plain_merge_renders_options_before_the_revision() {
    let mut s = SessionState::new();
    let mut menu = PendingMenu::new(init_args());
    menu.toggle(0);
    s.open_menu(menu);
    let rev = "topic".to_string();
    let inv = MergeAction::plain(&mut s, &rev);
    assert_eq!(inv.args, tokens(&["merge", "--ff-only", "topic"]));
    assert!(matches!(inv.mode, ExecMode::Async));
    assert!(s.pending_menu.is_none());
}

#[test]
fn edit_merge_is_interactive() {
    let mut s = session_with_menu();
    let rev = "topic".to_string();
    let inv = MergeAction::edit(&mut s, &rev);
    assert_eq!(inv.args, tokens(&["merge", "--edit", "topic"]));
    assert!(matches!(inv.mode, ExecMode::Interactive));
}

#[test]
fn squash_merge_is_asynchronous() {
    let mut s = session_with_menu();
    let rev = "topic".to_string();
    let inv = MergeAction::squash(&mut s, &rev);
    assert_eq!(inv.args, tokens(&["merge", "--squash", "topic"]));
    assert!(matches!(inv.mode, ExecMode::Async));
}

#[test]
fn absorb_fails_loudly_without_touching_the_session() {
    let mut s = session_with_menu();
    let branch = "feature".to_string();
    let r = MergeAction::absorb(&mut s, &branch);
    assert!(matches!(r, Err(OpError::NotImplemented)));
    assert!(s.pending_menu.is_some());
}

#[test]
fn abort_closes_menu_and_runs_interactively() {
    let mut s = session_with_menu();
    let inv = MergeState::abort(&mut s);
    assert_eq!(inv.args, tokens(&["merge", "--abort"]));
    assert!(matches!(inv.mode, ExecMode::Interactive));
    assert!(s.pending_menu.is_none());
}

#[test]
fn selector_in_progress_offers_only_commit_and_abort() {
    let catalogue = current_catalogue(true);
    assert_eq!(catalogue.len(), 2);
    assert!(matches!(catalogue[0], MenuItem::InProgress(MergeState::Commit)));
    assert!(matches!(catalogue[1], MenuItem::InProgress(MergeState::Abort)));
}

#[test]
fn selector_idle_offers_the_full_six_variant_family() {
    let catalogue = current_catalogue(false);
    assert_eq!(catalogue.len(), 6);
    assert!(matches!(catalogue[0], MenuItem::Idle(MergeAction::Plain)));
    assert!(matches!(catalogue[1], MenuItem::Idle(MergeAction::Edit)));
    assert!(matches!(catalogue[2], MenuItem::Idle(MergeAction::NoCommit)));
    assert!(matches!(catalogue[3], MenuItem::Idle(MergeAction::Absorb)));
    assert!(matches!(catalogue[4], MenuItem::Idle(MergeAction::Squash)));
    assert!(matches!(catalogue[5], MenuItem::Idle(MergeAction::Dissolve)));
}

#[test]
fn every_catalogue_entry_has_a_nonempty_caption() {
    let idle = current_catalogue(false);
    let in_progress = current_catalogue(true);
    for item in idle.iter().chain(in_progress.iter()) {
        assert!(!item.display().is_empty());
    }
    assert_eq!(MergeAction::Plain.display(), "Merge".to_string());
    assert_eq!(MergeAction::Edit.display(), "Merge and edit message".to_string());
    assert_eq!(MergeAction::NoCommit.display(), "Merge but don't commit".to_string());
    assert_eq!(MergeAction::Absorb.display(), "Absorb".to_string());
    assert_eq!(MergeAction::Squash.display(), "Squash merge".to_string());
    assert_eq!(MergeAction::Dissolve.display(), "Dissolve".to_string());
    assert_eq!(MergeState::Commit.display(), "commit".to_string());
    assert_eq!(MergeState::Abort.display(), "abort".to_string());
}

#[test]
fn dispatch_wraps_idle_variants_in_prompts() {
    let r = dispatch(&MenuItem::Idle(MergeAction::Dissolve), None);
    match r {
        DispatchOutcome::NeedInput(p) => {
            assert_eq!(p.label, "Merge current branch into".to_string());
            assert!(matches!(p.continuation, Continuation::MergeDissolve));
            assert!(matches!(p.resolver, ResolverKind::LatestLocalBranch));
            assert!(p.require_nonempty);
        }
        _ => panic!("dissolve must dispatch to a prompt"),
    }
}

#[test]
fn dispatch_invokes_in_progress_actions_directly() {
    let r = dispatch(&MenuItem::InProgress(MergeState::Abort), None);
    assert!(matches!(r, DispatchOutcome::Invoke(Continuation::MergeAbort)));
    let r = dispatch(&MenuItem::InProgress(MergeState::Commit), None);
    assert!(matches!(r, DispatchOutcome::Invoke(Continuation::CommitCreate)));
}

#[test]
fn get_action_is_defined_for_every_variant() {
    let idle = current_catalogue(false);
    let in_progress = current_catalogue(true);
    for item in idle.iter().chain(in_progress.iter()) {
        match item.get_action(None) {
            Some(Action::Prompted(p)) => assert!(!p.label.is_empty()),
            Some(Action::Direct(_)) => {}
            None => panic!("no catalogue entry may be unavailable"),
        }
    }
}

#[test]
fn required_prompt_with_missing_default_refuses_without_suspending() {
    let p = PromptSpec {
        label: "Merge".to_string(),
        continuation: Continuation::MergePlain,
        resolver: ResolverKind::SelectedRev,
        require_nonempty: true,
    };
    let r = prompt_begin(&p, None);
    assert!(matches!(r, PromptStep::Refuse { error: OpError::MissingArgument }));
    let r = prompt_begin(&p, Some(String::new()));
    assert!(matches!(r, PromptStep::Refuse { error: OpError::MissingArgument }));
}

#[test]
fn prompt_suspends_seeded_with_the_resolved_default() {
    let p = PromptSpec {
        label: "Merge".to_string(),
        continuation: Continuation::MergePlain,
        resolver: ResolverKind::SelectedRev,
        require_nonempty: true,
    };
    match prompt_begin(&p, Some("abc123".to_string())) {
        PromptStep::Suspend { label, seed } => {
            assert_eq!(label, "Merge".to_string());
            assert_eq!(seed, "abc123".to_string());
        }
        _ => panic!("a present default must suspend for input"),
    }
}

#[test]
fn optional_prompt_with_no_default_suspends_on_an_empty_line() {
    let p = PromptSpec {
        label: "Merge".to_string(),
        continuation: Continuation::MergePlain,
        resolver: ResolverKind::SelectedRev,
        require_nonempty: false,
    };
    match prompt_begin(&p, None) {
        PromptStep::Suspend { seed, .. } => assert_eq!(seed, String::new()),
        _ => panic!("an optional prompt must still suspend"),
    }
}

#[test]
fn resolvers_read_the_matching_repository_fact() {
    let facts = idle_facts();
    assert_eq!(
        resolve_default(ResolverKind::SelectedRev, &facts),
        &Some("abc123".to_string())
    );
    assert_eq!(
        resolve_default(ResolverKind::LatestLocalBranch, &facts),
        &Some("feature".to_string())
    );
}

#[test]
fn dissolve_without_upstream_fails_and_leaves_the_menu_open() {
    let mut s = session_with_menu();
    let mut facts = idle_facts();
    facts.upstream_branch = None;
    let dest = "main".to_string();
    let r = MergeAction::dissolve(&mut s, &facts, &dest);
    assert!(matches!(r, Err(OpError::NoSuchRef)));
    assert!(s.pending_menu.is_some());
}

#[test]
fn dissolve_detached_head_falls_back_to_edit_merge_of_selected_revision() {
    let mut s = session_with_menu();
    let mut facts = idle_facts();
    facts.head_branch = None;
    let dest = "main".to_string();
    let (mut machine, push) = MergeAction::dissolve(&mut s, &facts, &dest).unwrap();
    assert_eq!(
        push.args,
        tokens(&["push", "--force-with-lease", "--set-upstream", "origin/feature"])
    );
    assert!(s.pending_menu.is_none());

    let checkout = match machine.next(Ok(()), &facts) {
        DissolveDecision::Run(inv) => inv,
        _ => panic!("a successful push must be followed by the branch switch"),
    };
    assert_eq!(checkout.args, tokens(&["checkout", "main"]));

    let merge = match machine.next(Ok(()), &facts) {
        DissolveDecision::Run(inv) => inv,
        _ => panic!("a detached head must fall back to the edit-style merge"),
    };
    assert_eq!(merge.args, tokens(&["merge", "--edit", "abc123"]));
    assert!(matches!(merge.mode, ExecMode::Interactive));

    assert!(matches!(machine.next(Ok(()), &facts), DissolveDecision::Done));
}

#[test]
fn dissolve_on_named_branch_reaches_the_unrealised_absorb() {
    let mut s = session_with_menu();
    let facts = idle_facts();
    let dest = "main".to_string();
    let (mut machine, _push) = MergeAction::dissolve(&mut s, &facts, &dest).unwrap();
    machine.next(Ok(()), &facts);
    let r = machine.next(Ok(()), &facts);
    assert!(matches!(r, DissolveDecision::Fail(OpError::NotImplemented)));
}

#[test]
fn dissolve_aborts_all_remaining_steps_on_first_failure() {
    let mut s = session_with_menu();
    let facts = idle_facts();
    let dest = "main".to_string();
    let (mut machine, _push) = MergeAction::dissolve(&mut s, &facts, &dest).unwrap();
    let failure = OpError::ExternalToolFailure { detail: "rejected".to_string() };
    let r = machine.next(Err(failure.clone()), &facts);
    assert!(matches!(r, DissolveDecision::Fail(OpError::ExternalToolFailure { .. })));
    if let DissolveDecision::Fail(e) = r {
        assert_eq!(e, failure);
    }
}

#[test]
fn dissolve_detached_without_selection_is_a_missing_argument() {
    let mut s = session_with_menu();
    let mut facts = idle_facts();
    facts.head_branch = None;
    facts.selected_rev = None;
    let dest = "main".to_string();
    let (mut machine, _push) = MergeAction::dissolve(&mut s, &facts, &dest).unwrap();
    machine.next(Ok(()), &facts);
    let r = machine.next(Ok(()), &facts);
    assert!(matches!(r, DissolveDecision::Fail(OpError::MissingArgument)));
}

#[test]
fn run_continuation_dispatching_no_commit_matches_the_scenario() {
    let mut s = session_with_menu();
    let facts = idle_facts();
    let resolved = "abc123".to_string();
    let r = run_continuation(Continuation::MergeNoCommit, &mut s, &facts, &resolved);
    match r {
        Ok(ContinuationOutcome::Launch(inv)) => {
            assert_eq!(inv.args, tokens(&["merge", "--no-commit", "--no-ff", "abc123"]));
        }
        _ => panic!("the deferred-commit merge must launch one invocation"),
    }
}

#[test]
fn run_continuation_dissolve_begins_the_compound_sequence() {
    let mut s = session_with_menu();
    let facts = idle_facts();
    let resolved = "main".to_string();
    match run_continuation(Continuation::MergeDissolve, &mut s, &facts, &resolved) {
        Ok(ContinuationOutcome::BeginDissolve(_machine, first)) => {
            assert_eq!(
                first.args,
                tokens(&["push", "--force-with-lease", "--set-upstream", "origin/feature"])
            );
            assert!(matches!(first.mode, ExecMode::Async));
        }
        _ => panic!("dissolve must begin its compound sequence"),
    }
    assert!(s.pending_menu.is_none());
}

#[test]
fn run_continuation_absorb_surfaces_not_implemented() {
    let mut s = session_with_menu();
    let facts = idle_facts();
    let resolved = "feature".to_string();
    let r = run_continuation(Continuation::MergeAbsorb, &mut s, &facts, &resolved);
    assert!(matches!(r, Err(OpError::NotImplemented)));
    assert!(s.pending_menu.is_some());
}

#[test]
fn prompt_labels_follow_the_variant() {
    let expectations = [
        (MergeAction::Plain, "Merge", ResolverKind::SelectedRev),
        (MergeAction::Edit, "Merge", ResolverKind::SelectedRev),
        (MergeAction::NoCommit, "Merge", ResolverKind::SelectedRev),
        (MergeAction::Absorb, "Absorb branch", ResolverKind::LatestLocalBranch),
        (MergeAction::Squash, "Squash", ResolverKind::SelectedRev),
        (
            MergeAction::Dissolve,
            "Merge current branch into",
            ResolverKind::LatestLocalBranch,
        ),
    ];
    for (variant, label, resolver) in expectations {
        match variant.get_action(None) {
            Some(Action::Prompted(p)) => {
                assert_eq!(p.label, label.to_string());
                assert_eq!(p.resolver, resolver);
                assert!(p.require_nonempty);
            }
            _ => panic!("every merge variant dispatches to a prompt"),
        }
    }
}

#[test]
fn run_continuation_commit_create_takes_the_terminal() {
    let mut s = session_with_menu();
    let facts = idle_facts();
    let resolved = String::new();
    match run_continuation(Continuation::CommitCreate, &mut s, &facts, &resolved) {
        Ok(ContinuationOutcome::Launch(inv)) => {
            assert_eq!(inv.args, tokens(&["commit"]));
            assert!(matches!(inv.mode, ExecMode::Interactive));
        }
        _ => panic!("concluding the merge must launch one invocation"),
    }
}

#[test]
fn interactive_run_restores_terminal_mode_on_every_exit() {
    for exit in [ExitStatus::Exited(0), ExitStatus::Exited(1), ExitStatus::Terminated] {
        let mut s = SessionState::new();
        let before = s.term_mode;
        s.begin_interactive();
        assert_eq!(s.term_mode, TermMode::Released);
        let _ = s.finish_interactive(exit);
        assert_eq!(s.term_mode, before);
        assert!(!s.in_flight);
    }
}

#[test]
fn interactive_failure_is_reported_after_restoration() {
    let mut s = SessionState::new();
    s.begin_interactive();
    let r = s.finish_interactive(ExitStatus::Exited(2));
    assert!(matches!(r, Err(OpError::ExternalToolFailure { .. })));
    assert_eq!(s.term_mode, TermMode::Ui);
}

#[test]
fn async_failure_carries_the_captured_diagnostics() {
    let mut s = SessionState::new();
    s.begin_async();
    assert_eq!(s.term_mode, TermMode::Ui);
    let r = s.finish_async(ExitStatus::Exited(128), "fatal: not a repository".to_string());
    match r {
        Err(OpError::ExternalToolFailure { detail }) => {
            assert_eq!(detail, "fatal: not a repository".to_string());
        }
        _ => panic!("a non-zero exit must be an external tool failure"),
    }
    assert!(!s.in_flight);
}

#[test]
fn async_success_reports_ok() {
    let mut s = SessionState::new();
    s.begin_async();
    let r = s.finish_async(ExitStatus::Exited(0), String::new());
    assert!(r.is_ok());
}

#[test]
fn exit_status_success_is_exactly_code_zero() {
    assert!(ExitStatus::Exited(0).success());
    assert!(!ExitStatus::Exited(1).success());
    assert!(!ExitStatus::Terminated.success());
}

#[test]
fn terminal_mode_error_is_distinct_from_tool_failure() {
    let e = OpError::TerminalModeError;
    assert!(matches!(e, OpError::TerminalModeError));
    assert_ne!(e, OpError::NoSuchRef);
}
