use vstd::prelude::*;

verus! {

/// The kind of a command-line modifier: a bare flag, or an argument that
/// carries a value appended to its token.
#[derive(Clone, Copy, PartialEq, Eq, Structural, Debug)]
pub enum ArgKind {
    Flag,
    Valued,
}

/// One togglable command-line modifier of an operation menu: its canonical
/// token, a human-readable label, and the activation state it starts with.
/// An `Arg` is defined once per catalogue and never mutated; only its
/// activation state, held by the pending menu, changes per interaction.
pub struct Arg {
    pub kind: ArgKind,
    pub token: String,
    pub label: String,
    pub default_active: bool,
}

impl Arg {
    /// A boolean flag.
    pub fn new_flag(token: &str, label: &str, default_active: bool) -> (r: Arg)
        ensures
            r.kind == ArgKind::Flag,
            r.token@ == token@,
            r.label@ == label@,
            r.default_active == default_active,
    {
        Arg { kind: ArgKind::Flag, token: token.to_owned(), label: label.to_owned(), default_active }
    }

    /// A modifier whose value is appended to its canonical token.
    pub fn new_arg(token: &str, label: &str, default_active: bool) -> (r: Arg)
        ensures
            r.kind == ArgKind::Valued,
            r.token@ == token@,
            r.label@ == label@,
            r.default_active == default_active,
    {
        Arg { kind: ArgKind::Valued, token: token.to_owned(), label: label.to_owned(), default_active }
    }
}

} // verus!
