//! The recording backend of the full-stack test harness, and what it does
//! with each engine answer. Running the engine is the caller's.
use vstd::prelude::*;
use crate::types::{InputEvent, Key, StateTransition, TransitionResult};
use crate::engine::{added, extends, feed_one, lemma_added_push, lemma_extends_self, CompositionEngine, LoggedEngine};
use crate::replay::implicit_key_up;

verus! {

/// What `UnicodeNormalization::nfc` of the `unicode-normalization` crate
/// makes of a text: its Normalization Form C.
pub uninterp spec fn nfc_of(s: Seq<char>) -> Seq<char>;

/// Calls `UnicodeNormalization::nfc` and collects the characters; the
/// contract names the result, a function of `s` alone.
#[verifier::external_body]
pub(crate) fn nfc_string(s: &str) -> (r: String)
    ensures
        r@ == nfc_of(s@),
{
    unicode_normalization::UnicodeNormalization::nfc(s).collect()
}

/// Recording mock backend for integration tests.
#[derive(Clone, Debug)]
pub struct MockBackend {
    pub committed: Vec<String>,
    pub preedit_history: Vec<String>,
    pub clears: usize,
    pub forwards: Vec<Key>,
}

/// Why the mock refused an engine answer.
#[derive(Clone, Debug)]
pub enum MockDispatchError {
    /// The committed text is not NFC-normalised.
    NotNfc(String),
    /// The engine reported a composition error, with its description.
    Composition(String),
}

/// The recordings as character sequences.
pub open spec fn recorded(v: Seq<String>) -> Seq<Seq<char>> {
    Seq::new(v.len(), |i: int| v[i]@)
}

/// The mock's recordings: commits, preedit history and clears.
pub struct MockView {
    pub committed: Seq<Seq<char>>,
    pub preedit_history: Seq<Seq<char>>,
    pub clears: int,
}

/// The text an answer commits, if it commits.
pub open spec fn committed_text(t: StateTransition) -> Option<Seq<char>> {
    match t {
        StateTransition::Commit(c) => Some(c@),
        StateTransition::CommitAndClear(c) => Some(c@),
        StateTransition::CommitThenPreedit(c, _) => Some(c@),
        StateTransition::CommitThenPassThrough(c) => Some(c@),
        _ => None,
    }
}

/// The recordings after a successful answer: a preedit is recorded; a commit
/// is recorded (its preedit too, for a commit followed by one) and counts as
/// a clear unless a new preedit follows it; a clear is counted.
pub open spec fn after_answer(v: MockView, t: StateTransition) -> MockView {
    match t {
        StateTransition::PreeditUpdated(p) => MockView { preedit_history: v.preedit_history.push(p.text@), ..v },
        StateTransition::Commit(c) => MockView { committed: v.committed.push(c@), clears: v.clears + 1, ..v },
        StateTransition::CommitAndClear(c) => MockView { committed: v.committed.push(c@), clears: v.clears + 1, ..v },
        StateTransition::CommitThenPreedit(c, p) => MockView {
            committed: v.committed.push(c@),
            preedit_history: v.preedit_history.push(p.text@),
            ..v
        },
        StateTransition::Cleared => MockView { clears: v.clears + 1, ..v },
        StateTransition::CommitThenPassThrough(c) => MockView { committed: v.committed.push(c@), clears: v.clears + 1, ..v },
        _ => v,
    }
}

/// The outcome of recording the answer `t` on recordings `v`: result `r`
/// and recordings `w`.  A composition error is refused with its description;
/// a commit whose text is not NFC-normalised is refused with that text;
/// nothing is recorded then.  Any other answer is recorded.
pub open spec fn dispatched(
    v: MockView,
    t: TransitionResult,
    r: Result<(), MockDispatchError>,
    w: MockView,
) -> bool {
    match t {
        Err(e) => r matches Err(MockDispatchError::Composition(m)) && m@ == e.message@ && w == v,
        Ok(a) => match committed_text(a) {
            Some(c) => if nfc_of(c) == c {
                r is Ok && w == after_answer(v, a)
            } else {
                r matches Err(MockDispatchError::NotNfc(s)) && s@ == c && w == v
            },
            None => r is Ok && w == after_answer(v, a),
        },
    }
}

impl MockBackend {
    pub fn new() -> (b: Self)
        ensures
            b.committed@.len() == 0,
            b.preedit_history@.len() == 0,
            b.clears == 0,
            b.forwards@.len() == 0,
    {
        MockBackend { committed: Vec::new(), preedit_history: Vec::new(), clears: 0, forwards: Vec::new() }
    }

    /// The recordings.
    pub open spec fn view_of(&self) -> MockView {
        MockView {
            committed: recorded(self.committed@),
            preedit_history: recorded(self.preedit_history@),
            clears: self.clears as int,
        }
    }

    fn record_commit(&mut self, text: &String) -> (r: Result<(), MockDispatchError>)
        ensures
            r is Ok <==> nfc_of(text@) == text@,
            r is Ok ==> final(self).view_of() == (MockView { committed: old(self).view_of().committed.push(text@), ..old(self).view_of() }),
            r is Err ==> final(self).view_of() == old(self).view_of(),
            r matches Err(MockDispatchError::NotNfc(s)) ==> s@ == text@,
            r matches Err(e) ==> e is NotNfc,
            final(self).forwards@ == old(self).forwards@,
    {
        let nfc = nfc_string(text.as_str());
        if !crate::text::same_text(nfc.as_str(), text.as_str()) {
            return Err(MockDispatchError::NotNfc(text.clone()));
        }
        let ghost before = self.committed@;
        self.committed.push(text.clone());
        assert(recorded(self.committed@) =~= recorded(before).push(text@));
        Ok(())
    }

    /// Record one engine answer. A commit whose text is not NFC-normalised is
    /// refused, as is a composition error; nothing is recorded then.
    pub fn dispatch(&mut self, t: &TransitionResult) -> (r: Result<(), MockDispatchError>)
        requires
            old(self).clears < usize::MAX,
        ensures
            final(self).forwards@ == old(self).forwards@,
            dispatched(old(self).view_of(), *t, r, final(self).view_of()),
    {
        match t {
            Ok(StateTransition::PreeditUpdated(p)) => {
                let ghost before = self.preedit_history@;
                self.preedit_history.push(p.text.clone());
                assert(recorded(self.preedit_history@) =~= recorded(before).push(p.text@));
                Ok(())
            },
            Ok(StateTransition::Commit(c)) | Ok(StateTransition::CommitAndClear(c))
            | Ok(StateTransition::CommitThenPassThrough(c)) => {
                let r = self.record_commit(c);
                if r.is_ok() {
                    self.clears = self.clears + 1;
                }
                r
            },
            Ok(StateTransition::CommitThenPreedit(c, p)) => {
                let r = self.record_commit(c);
                if r.is_ok() {
                    let ghost before = self.preedit_history@;
                    self.preedit_history.push(p.text.clone());
                    assert(recorded(self.preedit_history@) =~= recorded(before).push(p.text@));
                }
                r
            },
            Ok(StateTransition::Cleared) => {
                self.clears = self.clears + 1;
                Ok(())
            },
            Ok(StateTransition::PassThrough) | Ok(StateTransition::Consumed) => Ok(()),
            Err(e) => Err(MockDispatchError::Composition(e.message.clone())),
        }
    }
}

/// Full-stack test harness wiring a composition engine to a recording
/// backend.
pub struct IntegrationHarness<E: CompositionEngine> {
    pub engine: LoggedEngine<E>,
    pub backend: MockBackend,
}

impl<E: CompositionEngine> IntegrationHarness<E> {
    /// A harness around `engine`, with nothing recorded.
    pub fn new(engine: E) -> (h: Self)
        ensures
            h.engine.truthful(),
            h.engine.inner() == engine,
            h.engine.fed() == Seq::<InputEvent>::empty(),
            h.engine.answered() == Seq::<TransitionResult>::empty(),
            h.engine.resets() == 0,
            h.backend.view_of().committed.len() == 0,
            h.backend.view_of().preedit_history.len() == 0,
            h.backend.view_of().clears == 0,
            h.backend.forwards@.len() == 0,
    {
        IntegrationHarness { engine: LoggedEngine::new(engine), backend: MockBackend::new() }
    }

    /// Send one event: the engine's answer is recorded by the backend (see
    /// [`MockBackend::dispatch`]); after a character press the release of that
    /// character is sent too, its answer unrecorded.
    pub fn send_event(&mut self, event: &InputEvent) -> (r: Result<(), MockDispatchError>)
        requires
            old(self).backend.clears < usize::MAX,
            old(self).engine.truthful(),
        ensures
            final(self).engine.truthful(),
            final(self).backend.forwards@ == old(self).backend.forwards@,
            extends(old(self).engine.fed(), final(self).engine.fed()),
            extends(old(self).engine.answered(), final(self).engine.answered()),
            final(self).engine.resets() == old(self).engine.resets(),
            added(old(self).engine.fed(), final(self).engine.fed()) == feed_one(*event),
            added(old(self).engine.answered(), final(self).engine.answered()).len() == feed_one(*event).len(),
            dispatched(
                old(self).backend.view_of(),
                added(old(self).engine.answered(), final(self).engine.answered())[0],
                r,
                final(self).backend.view_of(),
            ),
    {
        let ghost f0 = self.engine.fed();
        let ghost a0 = self.engine.answered();
        proof {
            lemma_extends_self(f0);
            lemma_extends_self(a0);
        }
        let t = self.engine.process(event);
        proof {
            lemma_added_push(f0, f0, *event);
            lemma_added_push(a0, a0, t);
        }
        let r = self.backend.dispatch(&t);
        let ghost f1 = self.engine.fed();
        let ghost a1 = self.engine.answered();
        match implicit_key_up(event) {
            Some(up) => {
                let u = self.engine.process(&up);
                proof {
                    lemma_added_push(f0, f1, up);
                    lemma_added_push(a0, a1, u);
                    assert(added(f0, self.engine.fed()) =~= feed_one(*event));
                    assert(added(a0, self.engine.answered())[0] == t);
                }
            },
            None => {
                proof {
                    assert(added(f0, self.engine.fed()) =~= feed_one(*event));
                }
            },
        }
        r
    }

    /// The texts committed so far.
    pub fn committed(&self) -> (v: Vec<String>)
        ensures
            recorded(v@) == self.backend.view_of().committed,
    {
        let mut v: Vec<String> = Vec::new();
        let mut i: usize = 0;
        while i < self.backend.committed.len()
            invariant
                i <= self.backend.committed@.len(),
                v@.len() == i,
                forall|j: int| 0 <= j < i ==> #[trigger] v@[j]@ == self.backend.committed@[j]@,
            decreases self.backend.committed@.len() - i,
        {
            let s = crate::text::owned(self.backend.committed[i].as_str());
            v.push(s);
            i = i + 1;
        }
        assert(recorded(v@) =~= recorded(self.backend.committed@));
        v
    }

    /// The preedit the engine reports.
    pub fn preedit(&self) -> (r: String)
        ensures
            r@ == self.engine.inner().preedit_view()@,
    {
        self.engine.preedit()
    }
}

} // verus!
