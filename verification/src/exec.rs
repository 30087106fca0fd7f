use vstd::prelude::*;
use crate::errors::{ExitStatus, OpError};
use crate::menu::PendingMenu;

verus! {

/// Whether an external run blocks the session and takes over the terminal.
#[derive(Clone, Copy, PartialEq, Eq, Structural, Debug)]
pub enum ExecMode {
    /// Detached from the terminal; output is captured and surfaced later.
    Async,
    /// Full terminal handoff; the whole session blocks until exit.
    Interactive,
}

/// Who controls the terminal's display mode.
#[derive(Clone, Copy, PartialEq, Eq, Structural, Debug)]
pub enum TermMode {
    /// The session holds the terminal in its own (raw, alternate-screen) mode.
    Ui,
    /// The terminal has been handed over to an external process.
    Released,
}

/// A finalized external tool invocation: a program, its ordered token
/// list, and the mode it must run in.
pub struct Invocation {
    pub program: String,
    pub args: Vec<String>,
    pub mode: ExecMode,
}

/// The per-session bookkeeping this engine is responsible for: the one
/// pending menu, whether an external run is outstanding, and who holds
/// the terminal. At most one menu is open and at most one run is in
/// flight at a time.
pub struct SessionState {
    pub pending_menu: Option<PendingMenu>,
    pub in_flight: bool,
    pub term_mode: TermMode,
}

/// The session with its menu closed, everything else as it was.
pub open spec fn menu_closed(s: SessionState) -> SessionState {
    SessionState { pending_menu: None, ..s }
}

/// Starting an asynchronous run only marks it outstanding; the terminal
/// stays with the session.
pub open spec fn begin_async_spec(s: SessionState) -> SessionState {
    SessionState { in_flight: true, ..s }
}

/// Finishing an asynchronous run clears the outstanding mark.
pub open spec fn finish_async_spec(s: SessionState) -> SessionState {
    SessionState { in_flight: false, ..s }
}

/// Starting an interactive run marks it outstanding and hands the
/// terminal over.
pub open spec fn begin_interactive_spec(s: SessionState) -> SessionState {
    SessionState { in_flight: true, term_mode: TermMode::Released, ..s }
}

/// Finishing an interactive run restores the terminal to the session
/// unconditionally, whatever the exit status was.
pub open spec fn finish_interactive_spec(s: SessionState, exit: ExitStatus) -> SessionState {
    SessionState { in_flight: false, term_mode: TermMode::Ui, ..s }
}

/// The entries of the currently open menu.
pub open spec fn open_menu_entries(s: SessionState) -> Seq<crate::menu::MenuEntry>
    recommends
        s.pending_menu is Some,
{
    s.pending_menu.unwrap().entries@
}

impl SessionState {
    /// A session with no menu open, no run outstanding, and the terminal
    /// in session control.
    pub fn new() -> (r: SessionState)
        ensures
            r.pending_menu is None,
            !r.in_flight,
            r.term_mode == TermMode::Ui,
    {
        SessionState { pending_menu: None, in_flight: false, term_mode: TermMode::Ui }
    }

    /// Open a menu, superseding whatever menu was open before.
    pub fn open_menu(&mut self, menu: PendingMenu)
        ensures
            *final(self) == (SessionState { pending_menu: Some(menu), ..*old(self) }),
    {
        self.pending_menu = Some(menu);
    }

    /// Close the open menu, if any.
    pub fn close_menu(&mut self)
        ensures
            *final(self) == menu_closed(*old(self)),
    {
        self.pending_menu = None;
    }

    /// Record the start of an asynchronous run. The caller has closed the
    /// menu already and no other run is outstanding.
    pub fn begin_async(&mut self)
        requires
            !old(self).in_flight,
            old(self).pending_menu is None,
            old(self).term_mode == TermMode::Ui,
        ensures
            *final(self) == begin_async_spec(*old(self)),
    {
        self.in_flight = true;
    }

    /// Record the end of an asynchronous run, reporting a non-zero exit
    /// as `ExternalToolFailure` carrying the captured diagnostics.
    pub fn finish_async(&mut self, exit: ExitStatus, captured_stderr: String) -> (r: Result<(), OpError>)
        requires
            old(self).in_flight,
        ensures
            *final(self) == finish_async_spec(*old(self)),
            exit.is_success() ==> r == Ok::<(), OpError>(()),
            !exit.is_success() ==> r == Err::<(), OpError>(OpError::ExternalToolFailure { detail: captured_stderr }),
    {
        self.in_flight = false;
        if exit.success() {
            Ok(())
        } else {
            Err(OpError::ExternalToolFailure { detail: captured_stderr })
        }
    }

    /// Record the start of an interactive run: the terminal leaves the
    /// session's control for the external process.
    pub fn begin_interactive(&mut self)
        requires
            !old(self).in_flight,
            old(self).pending_menu is None,
            old(self).term_mode == TermMode::Ui,
        ensures
            *final(self) == begin_interactive_spec(*old(self)),
    {
        self.in_flight = true;
        self.term_mode = TermMode::Released;
    }

    /// Record the end of an interactive run. The terminal returns to the
    /// session on every path, whatever the exit status; a failed exit is
    /// reported after restoration.
    pub fn finish_interactive(&mut self, exit: ExitStatus) -> (r: Result<(), OpError>)
        requires
            old(self).in_flight,
            old(self).term_mode == TermMode::Released,
        ensures
            *final(self) == finish_interactive_spec(*old(self), exit),
            final(self).term_mode == TermMode::Ui,
            exit.is_success() ==> r == Ok::<(), OpError>(()),
            !exit.is_success() ==> (r matches Err(e) && e is ExternalToolFailure),
    {
        self.term_mode = TermMode::Ui;
        self.in_flight = false;
        if exit.success() {
            Ok(())
        } else {
            Err(OpError::ExternalToolFailure { detail: String::new() })
        }
    }
}

/// For every interactive run, regardless of how the external process
/// ends, the terminal mode after the run equals the mode before it.
pub proof fn lemma_interactive_run_restores_terminal(s: SessionState)
    requires
        s.term_mode == TermMode::Ui,
    ensures
        forall|exit: ExitStatus|
            (#[trigger] finish_interactive_spec(begin_interactive_spec(s), exit)).term_mode
                == s.term_mode,
{
}

} // verus!
