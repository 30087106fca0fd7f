use vstd::prelude::*;
use vstd::string::StringExecFns;
use crate::arg::{Arg, ArgKind};

verus! {

/// One entry of a pending menu: a modifier together with its live toggle
/// state and, for valued modifiers, the value the user supplied.
pub struct MenuEntry {
    pub arg: Arg,
    pub active: bool,
    pub value: Option<String>,
}

impl MenuEntry {
    /// The token this entry contributes when it is active: the canonical
    /// token, with the supplied value appended for valued modifiers.
    pub open spec fn rendered_token(self) -> Seq<char> {
        match self.arg.kind {
            ArgKind::Flag => self.arg.token@,
            ArgKind::Valued => self.arg.token@ + (match self.value {
                Some(v) => v@,
                None => Seq::<char>::empty(),
            }),
        }
    }
}

/// A fresh menu entry for a catalogue modifier: activation starts at the
/// modifier's default, with no value supplied yet.
pub open spec fn fresh_entry(e: MenuEntry, a: Arg) -> bool {
    &&& e.arg == a
    &&& e.active == a.default_active
    &&& e.value is None
}

/// Well-formedness of a menu's entries: canonical tokens are unique
/// within one menu.
pub open spec fn wf_tokens(entries: Seq<MenuEntry>) -> bool {
    forall|i: int, j: int| 0 <= i < j < entries.len() ==>
        entries[i].arg.token@ != entries[j].arg.token@
}

/// An update that touches no canonical token keeps a menu well-formed.
pub proof fn lemma_wf_preserved_by_entry_update(before: Seq<MenuEntry>, after: Seq<MenuEntry>)
    requires
        before.len() == after.len(),
        forall|k: int| 0 <= k < before.len() ==>
            (#[trigger] after[k]).arg.token@ == before[k].arg.token@,
        wf_tokens(before),
    ensures
        wf_tokens(after),
{
}

/// The views of an owned token list.
pub open spec fn token_views(ts: Seq<String>) -> Seq<Seq<char>> {
    ts.map_values(|t: String| t@)
}

/// The finalized token list of a menu state: the token of every active
/// entry, in declaration order; inactive entries contribute nothing.
pub open spec fn render_spec(entries: Seq<MenuEntry>) -> Seq<Seq<char>>
    decreases entries.len(),
{
    if entries.len() == 0 {
        Seq::<Seq<char>>::empty()
    } else if entries[0].active {
        seq![entries[0].rendered_token()] + render_spec(entries.drop_first())
    } else {
        render_spec(entries.drop_first())
    }
}

/// Rendering distributes over concatenation of entry sequences.
pub proof fn lemma_render_spec_append(a: Seq<MenuEntry>, b: Seq<MenuEntry>)
    ensures
        render_spec(a + b) == render_spec(a) + render_spec(b),
    decreases a.len(),
{
    if a.len() == 0 {
        assert(a + b =~= b);
        assert(render_spec(a) + render_spec(b) =~= render_spec(b));
    } else {
        assert((a + b).drop_first() =~= a.drop_first() + b);
        assert((a + b)[0] == a[0]);
        assert((a + b).len() > 0);
        lemma_render_spec_append(a.drop_first(), b);
        if a[0].active {
            assert(seq![a[0].rendered_token()] + (render_spec(a.drop_first()) + render_spec(b))
                =~= (seq![a[0].rendered_token()] + render_spec(a.drop_first())) + render_spec(b));
        }
    }
}

/// Rendering a single entry.
pub proof fn lemma_render_spec_singleton(e: MenuEntry)
    ensures
        render_spec(seq![e]) == if e.active { seq![e.rendered_token()] } else { Seq::<Seq<char>>::empty() },
{
    let s = seq![e];
    assert(s.len() == 1);
    assert(s[0] == e);
    assert(s.drop_first() =~= Seq::<MenuEntry>::empty());
    assert(render_spec(s.drop_first()) == Seq::<Seq<char>>::empty());
    if e.active {
        assert(render_spec(s) == seq![e.rendered_token()] + render_spec(s.drop_first()));
        assert(render_spec(s) =~= seq![e.rendered_token()]);
    } else {
        assert(render_spec(s) == render_spec(s.drop_first()));
    }
}

/// Growing the rendered prefix by one entry.
pub proof fn lemma_render_spec_snoc(entries: Seq<MenuEntry>, i: int)
    requires
        0 <= i < entries.len(),
    ensures
        render_spec(entries.take(i + 1)) == render_spec(entries.take(i))
            + if entries[i].active { seq![entries[i].rendered_token()] } else { Seq::<Seq<char>>::empty() },
{
    assert(entries.take(i + 1) =~= entries.take(i) + seq![entries[i]]);
    lemma_render_spec_append(entries.take(i), seq![entries[i]]);
    lemma_render_spec_singleton(entries[i]);
}

/// Where an active entry's token stands in the rendering: after everything
/// the entries before it contribute.
pub open spec fn render_pos(entries: Seq<MenuEntry>, i: int) -> int {
    render_spec(entries.take(i)).len() as int
}

/// An active entry's token stands at its render position.
pub proof fn lemma_render_at(entries: Seq<MenuEntry>, i: int)
    requires
        0 <= i < entries.len(),
        entries[i].active,
    ensures
        0 <= render_pos(entries, i) < render_spec(entries).len(),
        render_spec(entries)[render_pos(entries, i)] == entries[i].rendered_token(),
{
    assert(entries =~= entries.take(i + 1) + entries.skip(i + 1));
    lemma_render_spec_append(entries.take(i + 1), entries.skip(i + 1));
    lemma_render_spec_snoc(entries, i);
}

/// Order preservation: for two active entries in declaration order, the
/// first one's token stands strictly before the second one's.
pub proof fn lemma_render_order_preserving(entries: Seq<MenuEntry>, i: int, j: int)
    requires
        0 <= i < j < entries.len(),
        entries[i].active,
        entries[j].active,
    ensures
        0 <= render_pos(entries, i) < render_pos(entries, j) < render_spec(entries).len(),
        render_spec(entries)[render_pos(entries, i)] == entries[i].rendered_token(),
        render_spec(entries)[render_pos(entries, j)] == entries[j].rendered_token(),
{
    lemma_render_at(entries, i);
    lemma_render_at(entries, j);
    assert(entries.take(j) =~= entries.take(i + 1) + entries.take(j).skip(i + 1));
    lemma_render_spec_append(entries.take(i + 1), entries.take(j).skip(i + 1));
    lemma_render_spec_snoc(entries, i);
}

/// Exclusion: an inactive entry contributes nothing, so the rendering of
/// the whole sequence equals the rendering with that entry dropped.
pub proof fn lemma_render_excludes_inactive(entries: Seq<MenuEntry>, i: int)
    requires
        0 <= i < entries.len(),
        !entries[i].active,
    ensures
        render_spec(entries) == render_spec(entries.remove(i)),
{
    assert(entries =~= entries.take(i) + entries.skip(i));
    lemma_render_spec_append(entries.take(i), entries.skip(i));
    assert(entries.skip(i).len() > 0);
    assert(entries.skip(i)[0] == entries[i]);
    assert(entries.skip(i).drop_first() =~= entries.skip(i + 1));
    assert(entries.remove(i) =~= entries.take(i) + entries.skip(i + 1));
    lemma_render_spec_append(entries.take(i), entries.skip(i + 1));
}

/// The live, mutable, ordered set of toggled options for the menu that is
/// currently open in the session.
pub struct PendingMenu {
    pub entries: Vec<MenuEntry>,
}

impl PendingMenu {
    /// Well-formedness: canonical tokens are unique within the menu.
    pub open spec fn wf(self) -> bool {
        wf_tokens(self.entries@)
    }

    /// Open a menu over a catalogue of modifiers: one entry per modifier,
    /// in catalogue order, each starting at its default activation with no
    /// value supplied. The catalogue's tokens must be distinct, and the
    /// menu is then well-formed.
    pub fn new(args: Vec<Arg>) -> (r: PendingMenu)
        requires
            forall|i: int, j: int| 0 <= i < j < args@.len() ==>
                args@[i].token@ != args@[j].token@,
        ensures
            r.entries@.len() == args@.len(),
            forall|i: int| 0 <= i < args@.len() ==> fresh_entry(#[trigger] r.entries@[i], args@[i]),
            r.wf(),
    {
        let ghost all = args@;
        let mut rest = args;
        let mut entries: Vec<MenuEntry> = Vec::new();
        while rest.len() > 0
            invariant
                entries@.len() + rest@.len() == all.len(),
                rest@ == all.skip(entries@.len() as int),
                forall|i: int| 0 <= i < entries@.len() ==> fresh_entry(#[trigger] entries@[i], all[i]),
            decreases rest.len(),
        {
            let a = rest.remove(0);
            assert(a == all[entries@.len() as int]);
            let active = a.default_active;
            entries.push(MenuEntry { arg: a, active, value: None });
            assert(rest@ =~= all.skip(entries@.len() as int));
        }
        proof {
            assert forall|i: int, j: int| 0 <= i < j < entries@.len() implies
                entries@[i].arg.token@ != entries@[j].arg.token@ by {
                assert(fresh_entry(entries@[i], all[i]));
                assert(fresh_entry(entries@[j], all[j]));
            }
        }
        PendingMenu { entries }
    }

    /// Flip one entry's activation state; everything else is unchanged.
    pub fn toggle(&mut self, i: usize)
        requires
            i < old(self).entries@.len(),
        ensures
            final(self).entries@.len() == old(self).entries@.len(),
            final(self).entries@[i as int].arg == old(self).entries@[i as int].arg,
            final(self).entries@[i as int].value == old(self).entries@[i as int].value,
            final(self).entries@[i as int].active == !old(self).entries@[i as int].active,
            forall|k: int| 0 <= k < old(self).entries@.len() && k != i ==>
                #[trigger] final(self).entries@[k] == old(self).entries@[k],
            old(self).wf() ==> final(self).wf(),
    {
        let e = self.entries.remove(i);
        let flipped = MenuEntry { arg: e.arg, active: !e.active, value: e.value };
        self.entries.insert(i, flipped);
        proof {
            if old(self).wf() {
                assert forall|k: int| 0 <= k < old(self).entries@.len() implies
                    (#[trigger] self.entries@[k]).arg.token@ == old(self).entries@[k].arg.token@ by {
                }
                lemma_wf_preserved_by_entry_update(old(self).entries@, self.entries@);
            }
        }
    }

    /// Supply the value of one entry; everything else is unchanged.
    pub fn set_value(&mut self, i: usize, v: String)
        requires
            i < old(self).entries@.len(),
        ensures
            final(self).entries@.len() == old(self).entries@.len(),
            final(self).entries@[i as int].arg == old(self).entries@[i as int].arg,
            final(self).entries@[i as int].active == old(self).entries@[i as int].active,
            final(self).entries@[i as int].value == Some(v),
            forall|k: int| 0 <= k < old(self).entries@.len() && k != i ==>
                #[trigger] final(self).entries@[k] == old(self).entries@[k],
            old(self).wf() ==> final(self).wf(),
    {
        let e = self.entries.remove(i);
        let set = MenuEntry { arg: e.arg, active: e.active, value: Some(v) };
        self.entries.insert(i, set);
        proof {
            if old(self).wf() {
                assert forall|k: int| 0 <= k < old(self).entries@.len() implies
                    (#[trigger] self.entries@[k]).arg.token@ == old(self).entries@[k].arg.token@ by {
                }
                lemma_wf_preserved_by_entry_update(old(self).entries@, self.entries@);
            }
        }
    }

    /// Render the menu into its finalized token list: a pure projection of
    /// the current state, so re-rendering without interaction yields the
    /// same tokens and never mutates the menu.
    pub fn render(&self) -> (r: Vec<String>)
        ensures
            token_views(r@) == render_spec(self.entries@),
    {
        let mut out: Vec<String> = Vec::new();
        let mut i: usize = 0;
        while i < self.entries.len()
            invariant
                i <= self.entries@.len(),
                token_views(out@) == render_spec(self.entries@.take(i as int)),
            decreases self.entries@.len() - i,
        {
            proof {
                lemma_render_spec_snoc(self.entries@, i as int);
            }
            if self.entries[i].active {
                let ghost before = out@;
                let t = entry_token(&self.entries[i]);
                out.push(t);
                assert(token_views(out@) =~= token_views(before) + seq![t@]);
            }
            i = i + 1;
        }
        assert(self.entries@.take(i as int) =~= self.entries@);
        out
    }
}

/// The token one entry contributes to a rendering.
fn entry_token(e: &MenuEntry) -> (r: String)
    ensures
        r@ == e.rendered_token(),
{
    match e.arg.kind {
        ArgKind::Flag => e.arg.token.clone(),
        ArgKind::Valued => {
            match &e.value {
                Some(v) => e.arg.token.clone().concat(v.as_str()),
                None => {
                    let t = e.arg.token.clone();
                    assert(t@ =~= e.arg.token@ + Seq::<char>::empty());
                    t
                },
            }
        },
    }
}

/// Whether an owned token list holds a given token.
pub fn contains_token(ts: &Vec<String>, needle: &String) -> (r: bool)
    ensures
        r == token_views(ts@).contains(needle@),
{
    let mut i: usize = 0;
    while i < ts.len()
        invariant
            i <= ts@.len(),
            forall|k: int| 0 <= k < i ==> #[trigger] token_views(ts@)[k] != needle@,
        decreases ts@.len() - i,
    {
        assert(token_views(ts@)[i as int] == ts@[i as int]@);
        if ts[i].eq(needle) {
            assert(token_views(ts@)[i as int] == needle@);
            assert(token_views(ts@).contains(needle@));
            return true;
        }
        i = i + 1;
    }
    assert forall|k: int| 0 <= k < ts@.len() implies #[trigger] token_views(ts@)[k] != needle@ by {
        assert(token_views(ts@)[k] == ts@[k]@);
    }
    false
}

} // verus!
