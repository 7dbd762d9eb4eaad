//! A recording compositor that simulates per-compositor quirks, for checking
//! IME invariants over every combination of quirks.
use vstd::prelude::*;
use crate::types::{InputEvent, StateTransition, TransitionResult};
use crate::engine::{added, extends, lemma_added_push, lemma_extends_self, CompositionEngine, LoggedEngine};
use crate::text::{char_len, owned};

verus! {

/// Bitfield of known compositor quirks that affect IME behaviour.
#[derive(Clone, Copy, Debug, PartialEq, Eq, Structural)]
pub struct CompositorQuirks(pub u32);

/// No quirk.
pub const QUIRKS_NONE: u32 = 0;
/// GNOME: suppress forwarding empty preedit-clear updates (causes cursor flicker).
pub const GNOME_EMPTY_PREEDIT: u32 = 1;
/// KDE/KWin: preedit cursor offsets are byte positions, not char positions.
pub const KDE_BYTE_OFFSETS: u32 = 2;
/// Hyprland: batch preedit updates and flush on commit.
pub const HYPRLAND_BUFFERING: u32 = 4;
/// Sway: focus-in arrives slightly after the first key event of a new word.
pub const SWAY_TIMING: u32 = 8;
/// Weston: strict text-input lifecycle — activate before preedit, deactivate after commit.
pub const WESTON_LIFECYCLE: u32 = 16;

impl CompositorQuirks {
    /// Every quirk of `other` is set in `self`.
    pub open spec fn spec_contains(self, other: Self) -> bool {
        (self.0 & other.0) == other.0
    }

    /// Every quirk of `other` is set in `self`.
    pub fn contains(self, other: Self) -> (b: bool)
        ensures
            b == self.spec_contains(other),
    {
        (self.0 & other.0) == other.0
    }
}

/// A set of quirks contains itself and the empty set.
pub proof fn lemma_quirks_contains_self_and_none(q: CompositorQuirks)
    ensures
        q.spec_contains(q),
        q.spec_contains(CompositorQuirks(QUIRKS_NONE)),
{
    let x = q.0;
    assert(x & x == x) by (bit_vector);
    assert(x & 0u32 == 0u32) by (bit_vector);
}

/// Minimal interface a compositor exposes to the IME.
pub trait ImeBackend {
    fn preedit_update(&mut self, text: &str, cursor_begin: i32, cursor_end: i32);
    fn commit_string(&mut self, text: &str);
}

/// Recording mock compositor that enforces quirk-specific rules.
pub struct MockCompositor {
    pub quirks: CompositorQuirks,
    pub committed: Vec<String>,
    pub preedit_history: Vec<String>,
    /// Buffered preedit text under `HYPRLAND_BUFFERING`; flushed on commit.
    pub buffered_preedit: Option<String>,
}

/// The recorded strings as character sequences.
pub open spec fn texts(v: Seq<String>) -> Seq<Seq<char>> {
    Seq::new(v.len(), |i: int| v[i]@)
}

/// What the compositor shows: commits, preedit history and the buffered preedit.
pub struct CompositorView {
    pub committed: Seq<Seq<char>>,
    pub preedit_history: Seq<Seq<char>>,
    pub buffered: Option<Seq<char>>,
}

impl MockCompositor {
    /// The compositor's recordings.
    pub open spec fn view_of(&self) -> CompositorView {
        CompositorView {
            committed: texts(self.committed@),
            preedit_history: texts(self.preedit_history@),
            buffered: match self.buffered_preedit {
                Some(b) => Some(b@),
                None => None,
            },
        }
    }

    /// A preedit update: dropped when empty under the GNOME quirk, buffered
    /// under the Hyprland quirk, else recorded.
    pub open spec fn after_preedit(quirks: CompositorQuirks, v: CompositorView, text: Seq<char>) -> CompositorView {
        if quirks.spec_contains(CompositorQuirks(GNOME_EMPTY_PREEDIT)) && text.len() == 0 {
            v
        } else if quirks.spec_contains(CompositorQuirks(HYPRLAND_BUFFERING)) {
            CompositorView { buffered: Some(text), ..v }
        } else {
            CompositorView { preedit_history: v.preedit_history.push(text), ..v }
        }
    }

    /// A commit: under the Hyprland quirk the buffered preedit is flushed
    /// into the history first; the text is then recorded.
    pub open spec fn after_commit(quirks: CompositorQuirks, v: CompositorView, text: Seq<char>) -> CompositorView {
        let v1 = if quirks.spec_contains(CompositorQuirks(HYPRLAND_BUFFERING)) {
            match v.buffered {
                Some(b) => CompositorView { preedit_history: v.preedit_history.push(b), buffered: None, ..v },
                None => v,
            }
        } else {
            v
        };
        CompositorView { committed: v1.committed.push(text), ..v1 }
    }

    pub fn new(quirks: CompositorQuirks) -> (m: Self)
        ensures
            m.quirks == quirks,
            m.committed@.len() == 0,
            m.preedit_history@.len() == 0,
            m.buffered_preedit is None,
    {
        MockCompositor {
            quirks,
            committed: Vec::new(),
            preedit_history: Vec::new(),
            buffered_preedit: None,
        }
    }

    /// Receive a preedit update.
    pub fn record_preedit(&mut self, text: &str)
        ensures
            final(self).quirks == old(self).quirks,
            final(self).view_of() === Self::after_preedit(old(self).quirks, old(self).view_of(), text@),
    {
        let empty = char_len(text) == 0;
        if self.quirks.contains(CompositorQuirks(GNOME_EMPTY_PREEDIT)) && empty {
            return;
        }
        if self.quirks.contains(CompositorQuirks(HYPRLAND_BUFFERING)) {
            self.buffered_preedit = Some(owned(text));
            return;
        }
        self.preedit_history.push(owned(text));
        assert(texts(self.preedit_history@) =~= texts(old(self).preedit_history@).push(text@));
    }

    /// Receive a commit.
    pub fn record_commit(&mut self, text: &str)
        ensures
            final(self).quirks == old(self).quirks,
            final(self).view_of() === Self::after_commit(old(self).quirks, old(self).view_of(), text@),
    {
        if self.quirks.contains(CompositorQuirks(HYPRLAND_BUFFERING)) {
            let taken = self.buffered_preedit.take();
            match taken {
                Some(buf) => {
                    let ghost before = self.preedit_history@;
                    self.preedit_history.push(buf);
                    assert(texts(self.preedit_history@) =~= texts(before).push(old(self).buffered_preedit->0@));
                },
                None => {},
            }
        }
        let ghost before = self.committed@;
        self.committed.push(owned(text));
        assert(texts(self.committed@) =~= texts(before).push(text@));
    }

    /// The compositor after a state transition: a preedit update shows the
    /// new preedit; a commit is followed by an empty preedit (or by the new
    /// preedit that comes with it); a clear is an empty preedit; a key the
    /// engine let through or consumed, and a composition error, send nothing.
    pub open spec fn after_transition(quirks: CompositorQuirks, v: CompositorView, t: TransitionResult) -> CompositorView {
        match t {
            Ok(StateTransition::PreeditUpdated(p)) => Self::after_preedit(quirks, v, p.text@),
            Ok(StateTransition::Commit(c)) => Self::after_preedit(
                quirks,
                Self::after_commit(quirks, v, c@),
                Seq::empty(),
            ),
            Ok(StateTransition::CommitAndClear(c)) => Self::after_preedit(
                quirks,
                Self::after_commit(quirks, v, c@),
                Seq::empty(),
            ),
            Ok(StateTransition::CommitThenPreedit(c, p)) => Self::after_preedit(
                quirks,
                Self::after_commit(quirks, v, c@),
                p.text@,
            ),
            Ok(StateTransition::Cleared) => Self::after_preedit(quirks, v, Seq::empty()),
            Ok(StateTransition::CommitThenPassThrough(c)) => Self::after_preedit(
                quirks,
                Self::after_commit(quirks, v, c@),
                Seq::empty(),
            ),
            _ => v,
        }
    }
}

impl ImeBackend for MockCompositor {
    fn preedit_update(&mut self, text: &str, cursor_begin: i32, cursor_end: i32)
        ensures
            final(self).quirks == old(self).quirks,
            final(self).view_of() === Self::after_preedit(old(self).quirks, old(self).view_of(), text@),
    {
        self.record_preedit(text);
    }

    fn commit_string(&mut self, text: &str)
        ensures
            final(self).quirks == old(self).quirks,
            final(self).view_of() === Self::after_commit(old(self).quirks, old(self).view_of(), text@),
    {
        self.record_commit(text);
    }
}

/// Carry out one state transition on the mock compositor.
pub fn drive_transition(compositor: &mut MockCompositor, t: &TransitionResult)
    ensures
        final(compositor).quirks == old(compositor).quirks,
        final(compositor).view_of() === MockCompositor::after_transition(
            old(compositor).quirks,
            old(compositor).view_of(),
            *t,
        ),
{
    proof {
        reveal_strlit("");
        assert(""@ =~= Seq::<char>::empty());
    }
    match t {
        Ok(StateTransition::PreeditUpdated(p)) => {
            compositor.record_preedit(p.text.as_str());
        },
        Ok(StateTransition::Commit(c)) | Ok(StateTransition::CommitAndClear(c))
        | Ok(StateTransition::CommitThenPassThrough(c)) => {
            compositor.record_commit(c.as_str());
            compositor.record_preedit("");
        },
        Ok(StateTransition::CommitThenPreedit(c, p)) => {
            compositor.record_commit(c.as_str());
            compositor.record_preedit(p.text.as_str());
        },
        Ok(StateTransition::Cleared) => {
            compositor.record_preedit("");
        },
        _ => {},
    }
}

/// The view after applying the transitions `ts` in order.
pub open spec fn after_transitions(quirks: CompositorQuirks, v: CompositorView, ts: Seq<TransitionResult>) -> CompositorView
    decreases ts.len(),
{
    if ts.len() == 0 {
        v
    } else {
        MockCompositor::after_transition(quirks, after_transitions(quirks, v, ts.drop_last()), ts.last())
    }
}

/// Feed `events` to `engine`, in order, and carry out each answer on the
/// compositor: the compositor ends as the engine's answers, applied in order,
/// make it.
pub fn drive_engine<E: CompositionEngine>(engine: &mut LoggedEngine<E>, compositor: &mut MockCompositor, events: &[InputEvent])
    requires
        old(engine).truthful(),
    ensures
        final(engine).truthful(),
        final(compositor).quirks == old(compositor).quirks,
        extends(old(engine).fed(), final(engine).fed()),
        extends(old(engine).answered(), final(engine).answered()),
        final(engine).resets() == old(engine).resets(),
        added(old(engine).fed(), final(engine).fed()) == events@,
        added(old(engine).answered(), final(engine).answered()).len() == events@.len(),
        final(compositor).view_of() === after_transitions(
            old(compositor).quirks,
            old(compositor).view_of(),
            added(old(engine).answered(), final(engine).answered()),
        ),
{
    let ghost start = compositor.view_of();
    let ghost fed0 = engine.fed();
    let ghost ans0 = engine.answered();
    proof {
        lemma_extends_self(fed0);
        lemma_extends_self(ans0);
    }
    let mut i: usize = 0;
    while i < events.len()
        invariant
            i <= events@.len(),
            compositor.quirks == old(compositor).quirks,
            start === old(compositor).view_of(),
            fed0 == old(engine).fed(),
            engine.truthful(),
            ans0 == old(engine).answered(),
            extends(fed0, engine.fed()),
            extends(ans0, engine.answered()),
            engine.resets() == old(engine).resets(),
            added(fed0, engine.fed()) == events@.take(i as int),
            added(ans0, engine.answered()).len() == i,
            compositor.view_of() === after_transitions(compositor.quirks, start, added(ans0, engine.answered())),
        decreases events@.len() - i,
    {
        let ghost f1 = engine.fed();
        let ghost a1 = engine.answered();
        let t = engine.process(&events[i]);
        proof {
            lemma_added_push(fed0, f1, events@[i as int]);
            lemma_added_push(ans0, a1, t);
            assert(events@.take(i + 1) =~= events@.take(i as int).push(events@[i as int]));
            let a = added(ans0, engine.answered());
            assert(a.drop_last() =~= added(ans0, a1));
        }
        drive_transition(compositor, &t);
        i = i + 1;
    }
    proof {
        assert(events@.take(i as int) =~= events@);
    }
}

/// The transition hands text to the application.
pub open spec fn is_commit_transition(t: TransitionResult) -> bool {
    match t {
        Ok(StateTransition::Commit(_)) => true,
        Ok(StateTransition::CommitAndClear(_)) => true,
        Ok(StateTransition::CommitThenPreedit(_, _)) => true,
        Ok(StateTransition::CommitThenPassThrough(_)) => true,
        _ => false,
    }
}

/// Under every combination of quirks, a transition that commits records
/// exactly one commit, holding the committed text, and any other transition
/// records none.
pub proof fn lemma_commit_recorded_once(q: CompositorQuirks, v: CompositorView, t: TransitionResult)
    ensures
        ({
            let after = MockCompositor::after_transition(q, v, t);
            &&& is_commit_transition(t) ==> after.committed.len() == v.committed.len() + 1
                && after.committed.take(v.committed.len() as int) == v.committed
            &&& !is_commit_transition(t) ==> after.committed == v.committed
            &&& (t matches Ok(StateTransition::Commit(c)) ==> after.committed.last() == c@)
        }),
{
    let after = MockCompositor::after_transition(q, v, t);
    if is_commit_transition(t) {
        assert(after.committed.take(v.committed.len() as int) =~= v.committed);
    }
}

} // verus!
