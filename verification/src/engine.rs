//! The composition engine as the test harnesses drive it, and the drivers
//! that replay sessions, stress focus changes and type syllables through it.
//!
//! The engine itself is the caller's, a value of a type implementing
//! [`CompositionEngine`]; every driver takes it inside a [`LoggedEngine`],
//! which hands each event to the engine and logs it with the engine's answer.
//! Each driver states which events it feeds and what it returns for the
//! answers the engine gave.
use vstd::prelude::*;
use crate::replay::{
    implicit_key_up, is_focus_out_commit, kd, key_press, kp, press, replay_commit, return_commit,
    spec_implicit_key_up, spec_replay_commit, spec_return_commit, ReplaySession,
};
use crate::text::{char_at, char_len, chars_of, seq_of_strings};
use crate::types::{CompositionError, InputEvent, Key, StateTransition, TransitionResult};

verus! {

/// A Vietnamese composition engine: it answers each input event with a
/// state transition.  Each engine says, through its spec functions, which
/// answers it gives in which state and what preedit it shows.
pub trait CompositionEngine {
    /// `t` is an answer this engine, as it is, gives to `event`.
    spec fn answers(&self, event: InputEvent, t: TransitionResult) -> bool;

    /// The preedit this engine shows.
    spec fn preedit_view(&self) -> String;

    /// Process one input event.
    fn process(&mut self, event: &InputEvent) -> (t: TransitionResult)
        ensures
            old(self).answers(*event, t),
    ;

    /// Drop any composition in progress: afterwards no preedit is shown.
    fn reset(&mut self)
        ensures
            final(self).preedit_view()@ == Seq::<char>::empty(),
    ;

    /// The preedit in progress.
    fn preedit(&self) -> (r: String)
        ensures
            r@ == self.preedit_view()@,
    ;
}

/// What was done through a [`LoggedEngine`]: the events handed to the
/// engine, its answers, the engine as each event found it and as each answer
/// left it, and how many times the composition was dropped.
pub struct EngineLog<E> {
    pub fed: Seq<InputEvent>,
    pub answered: Seq<TransitionResult>,
    pub before: Seq<E>,
    pub after: Seq<E>,
    pub resets: nat,
}

/// An engine together with the log of what was done through it.  Only this
/// type's methods touch the engine, and the log holds, for every event handed
/// over, the engine as the event found it and an answer it gives to that
/// event in that state.
pub struct LoggedEngine<E: CompositionEngine> {
    engine: E,
    log: Ghost<EngineLog<E>>,
}

impl<E: CompositionEngine> LoggedEngine<E> {
    /// Every logged answer is one the engine, as the event found it, gives to
    /// that event; the logs run in step.  [`LoggedEngine::new`] makes a log
    /// that holds this and every method keeps it.
    pub closed spec fn truthful(&self) -> bool {
        let l = self.log@;
        &&& l.answered.len() == l.fed.len()
        &&& l.before.len() == l.fed.len()
        &&& l.after.len() == l.fed.len()
        &&& forall|k: int| 0 <= k < l.fed.len() ==> #[trigger] l.before[k].answers(l.fed[k], l.answered[k])
    }

    /// The engine.
    pub closed spec fn inner(&self) -> E {
        self.engine
    }

    /// The events handed to the engine through this log, in order.
    pub closed spec fn fed(&self) -> Seq<InputEvent> {
        self.log@.fed
    }

    /// The engine's answers to them, in order.
    pub closed spec fn answered(&self) -> Seq<TransitionResult> {
        self.log@.answered
    }

    /// The engine as each event found it, in order.
    pub closed spec fn before(&self) -> Seq<E> {
        self.log@.before
    }

    /// The engine as each answer left it, in order.
    pub closed spec fn after(&self) -> Seq<E> {
        self.log@.after
    }

    /// How many times the composition was dropped through this log.
    pub closed spec fn resets(&self) -> nat {
        self.log@.resets
    }

    /// Start logging `engine`, with nothing logged yet.
    pub fn new(engine: E) -> (l: Self)
        ensures
            l.truthful(),
            l.inner() == engine,
            l.fed() == Seq::<InputEvent>::empty(),
            l.answered() == Seq::<TransitionResult>::empty(),
            l.before() == Seq::<E>::empty(),
            l.after() == Seq::<E>::empty(),
            l.resets() == 0,
    {
        LoggedEngine {
            engine,
            log: Ghost(EngineLog {
                fed: Seq::empty(),
                answered: Seq::empty(),
                before: Seq::empty(),
                after: Seq::empty(),
                resets: 0,
            }),
        }
    }

    /// Hand one event to the engine; the answer is the engine's answer to it,
    /// and both are logged.
    pub fn process(&mut self, event: &InputEvent) -> (t: TransitionResult)
        requires
            old(self).truthful(),
        ensures
            final(self).truthful(),
            old(self).inner().answers(*event, t),
            final(self).fed() == old(self).fed().push(*event),
            final(self).answered() == old(self).answered().push(t),
            final(self).before() == old(self).before().push(old(self).inner()),
            final(self).after() == old(self).after().push(final(self).inner()),
            final(self).resets() == old(self).resets(),
    {
        let ghost was = self.engine;
        let ghost l = self.log@;
        let t = self.engine.process(event);
        let ghost next = EngineLog {
            fed: l.fed.push(*event),
            answered: l.answered.push(t),
            before: l.before.push(was),
            after: l.after.push(self.engine),
            resets: l.resets,
        };
        proof {
            assert forall|k: int| 0 <= k < next.fed.len() implies #[trigger] next.before[k].answers(
                next.fed[k],
                next.answered[k],
            ) by {
                if k < l.fed.len() {
                    assert(next.before[k] == l.before[k]);
                    assert(next.fed[k] == l.fed[k]);
                    assert(next.answered[k] == l.answered[k]);
                }
            }
        }
        self.log = Ghost(next);
        t
    }

    /// Drop the engine's composition, and count it.
    pub fn reset(&mut self)
        requires
            old(self).truthful(),
        ensures
            final(self).truthful(),
            final(self).inner().preedit_view()@ == Seq::<char>::empty(),
            final(self).fed() == old(self).fed(),
            final(self).answered() == old(self).answered(),
            final(self).before() == old(self).before(),
            final(self).after() == old(self).after(),
            final(self).resets() == old(self).resets() + 1,
    {
        self.engine.reset();
        let ghost l = self.log@;
        self.log = Ghost(EngineLog { resets: l.resets + 1, ..l });
    }

    /// The engine's preedit in progress.
    pub fn preedit(&self) -> (r: String)
        ensures
            r@ == self.inner().preedit_view()@,
    {
        self.engine.preedit()
    }

    /// The engine, to look at.
    pub fn engine(&self) -> (e: &E)
        ensures
            *e == self.inner(),
    {
        &self.engine
    }
}

/// `n` starts with `o`.
pub open spec fn extends<T>(o: Seq<T>, n: Seq<T>) -> bool {
    o.len() <= n.len() && n.take(o.len() as int) == o
}

/// What `n` holds after its prefix `o`.
pub open spec fn added<T>(o: Seq<T>, n: Seq<T>) -> Seq<T> {
    n.skip(o.len() as int)
}

/// Pushing onto a log that extends `o` adds the element after `o`.
pub proof fn lemma_added_push<T>(o: Seq<T>, n: Seq<T>, e: T)
    requires
        extends(o, n),
    ensures
        extends(o, n.push(e)),
        added(o, n.push(e)) == added(o, n).push(e),
{
    assert forall|i: int| 0 <= i < o.len() implies #[trigger] n.push(e).take(o.len() as int)[i] == o[i] by {
        assert(n.take(o.len() as int)[i] == o[i]);
    }
    assert(n.push(e).take(o.len() as int) =~= o);
    assert(added(o, n.push(e)) =~= added(o, n).push(e));
}

/// A log extends itself, and adds nothing.
pub proof fn lemma_extends_self<T>(o: Seq<T>)
    ensures
        extends(o, o),
        added(o, o) == Seq::<T>::empty(),
{
    assert(o.take(o.len() as int) =~= o);
    assert(added(o, o) =~= Seq::<T>::empty());
}

/// The events a replay feeds for one session event: the event, then the
/// release of a pressed character.
pub open spec fn feed_one(e: InputEvent) -> Seq<InputEvent> {
    match spec_implicit_key_up(e) {
        Some(u) => seq![e, u],
        None => seq![e],
    }
}

/// The events a replay of `events` feeds when every answer succeeds.
pub open spec fn replay_feed(events: Seq<InputEvent>) -> Seq<InputEvent>
    decreases events.len(),
{
    if events.len() == 0 {
        Seq::empty()
    } else {
        replay_feed(events.drop_last()) + feed_one(events.last())
    }
}

/// The text a replay records for an answer, as a sequence of zero or one texts.
pub open spec fn commit_of(t: StateTransition) -> Seq<Seq<char>> {
    match spec_replay_commit(t) {
        Some(c) => seq![c],
        None => Seq::empty(),
    }
}

/// The outcome of replaying `events` when the engine gave the answers
/// `ans` (one per fed event): the texts committed, in order, or the first
/// error the engine answered to a session event.  Answers to the injected
/// releases are not looked at.
pub open spec fn replay_result(events: Seq<InputEvent>, ans: Seq<TransitionResult>) -> Result<
    Seq<Seq<char>>,
    CompositionError,
>
    decreases events.len(),
{
    if events.len() == 0 {
        Ok(Seq::empty())
    } else {
        let p = replay_feed(events.drop_last()).len() as int;
        match replay_result(events.drop_last(), ans.take(p)) {
            Err(x) => Err(x),
            Ok(cs) => match ans[p] {
                Ok(t) => Ok(cs + commit_of(t)),
                Err(x) => Err(x),
            },
        }
    }
}

/// The replay stopped at a session event the engine failed on: `f` is what
/// it was fed, `a` what it answered, the last answer being the error `x`.
pub open spec fn replay_failed(events: Seq<InputEvent>, f: Seq<InputEvent>, a: Seq<TransitionResult>, x: CompositionError) -> bool {
    exists|k: int|
        0 <= k < events.len() && f == #[trigger] replay_feed(events.take(k)).push(events[k])
            && a.len() == f.len() && replay_result(events.take(k), a.drop_last()) is Ok
            && a.last() == Err::<StateTransition, CompositionError>(x)
}

/// One more session event whose answer succeeded.
proof fn lemma_replay_step(events: Seq<InputEvent>, i: int, a: Seq<TransitionResult>, t: StateTransition, extra: Seq<TransitionResult>, cs: Seq<Seq<char>>)
    requires
        0 <= i < events.len(),
        a.len() == replay_feed(events.take(i)).len(),
        replay_result(events.take(i), a) == Ok::<Seq<Seq<char>>, CompositionError>(cs),
        extra.len() + 1 == feed_one(events[i]).len(),
    ensures
        replay_feed(events.take(i + 1)) == replay_feed(events.take(i)) + feed_one(events[i]),
        replay_result(events.take(i + 1), a.push(Ok(t)) + extra) == Ok::<Seq<Seq<char>>, CompositionError>(cs + commit_of(t)),
{
    assert(events.take(i + 1).drop_last() =~= events.take(i));
    assert(events.take(i + 1).last() == events[i]);
    let a2 = a.push(Ok(t)) + extra;
    assert(a2.take(a.len() as int) =~= a);
    assert(a2[a.len() as int] == Ok::<StateTransition, CompositionError>(t));
}

/// Replay `session` through `engine`, which is fresh and set to the
/// session's input method.  Each session event is fed in order, and after
/// every character press the release of that character; the answers to the
/// releases are not looked at.  The texts committed, in order, or the first
/// error the engine answered to a session event, after which nothing more is
/// fed.
pub fn replay_session<E: CompositionEngine>(engine: &mut LoggedEngine<E>, session: &ReplaySession)
    -> (r: Result<Vec<String>, CompositionError>)
    requires
        old(engine).truthful(),
    ensures
        final(engine).truthful(),
        extends(old(engine).fed(), final(engine).fed()),
        extends(old(engine).answered(), final(engine).answered()),
        final(engine).resets() == old(engine).resets(),
        ({
            let f = added(old(engine).fed(), final(engine).fed());
            let a = added(old(engine).answered(), final(engine).answered());
            &&& a.len() == f.len()
            &&& match r {
                Ok(v) => f == replay_feed(session.events@) && replay_result(session.events@, a)
                    == Ok::<Seq<Seq<char>>, CompositionError>(seq_of_strings(v@)),
                Err(x) => replay_failed(session.events@, f, a, x),
            }
        }),
{
    let ghost fed0 = engine.fed();
    let ghost ans0 = engine.answered();
    let mut commits: Vec<String> = Vec::new();
    let mut i: usize = 0;
    proof {
        lemma_extends_self(fed0);
        lemma_extends_self(ans0);
        assert(session.events@.take(0) =~= Seq::<InputEvent>::empty());
        assert(seq_of_strings(commits@) =~= Seq::<Seq<char>>::empty());
    }
    while i < session.events.len()
        invariant
            i <= session.events@.len(),
            extends(fed0, engine.fed()),
            extends(ans0, engine.answered()),
            engine.resets() == old(engine).resets(),
            fed0 == old(engine).fed(),
            engine.truthful(),
            ans0 == old(engine).answered(),
            added(fed0, engine.fed()) == replay_feed(session.events@.take(i as int)),
            added(ans0, engine.answered()).len() == added(fed0, engine.fed()).len(),
            replay_result(session.events@.take(i as int), added(ans0, engine.answered()))
                == Ok::<Seq<Seq<char>>, CompositionError>(seq_of_strings(commits@)),
        decreases session.events@.len() - i,
    {
        let event = &session.events[i];
        let ghost f1 = engine.fed();
        let ghost a1 = engine.answered();
        let answer = engine.process(event);
        proof {
            lemma_added_push(fed0, f1, *event);
            lemma_added_push(ans0, a1, answer);
        }
        let t = match answer {
            Ok(t) => t,
            Err(e) => {
                proof {
                    let k = i as int;
                    let a = added(ans0, engine.answered());
                    assert(a.drop_last() =~= added(ans0, a1));
                    assert(replay_failed(session.events@, added(fed0, engine.fed()), a, e));
                }
                return Err(e);
            },
        };
        let ghost before = commits@;
        match replay_commit(&t) {
            Some(c) => {
                commits.push(c);
                proof {
                    assert(seq_of_strings(commits@) =~= seq_of_strings(before) + commit_of(t));
                }
            },
            None => {
                proof {
                    assert(seq_of_strings(commits@) =~= seq_of_strings(before) + commit_of(t));
                }
            },
        }
        let ghost f2 = engine.fed();
        let ghost a2 = engine.answered();
        match implicit_key_up(event) {
            Some(up) => {
                let _ = engine.process(&up);
                proof {
                    lemma_added_push(fed0, f2, up);
                    lemma_added_push(ans0, a2, engine.answered().last());
                    assert(engine.answered() == a2.push(engine.answered().last()));
                    assert(added(fed0, engine.fed()) =~= added(fed0, f1) + feed_one(*event));
                    lemma_replay_step(session.events@, i as int, added(ans0, a1), t,
                        seq![engine.answered().last()], seq_of_strings(before));
                    assert(added(ans0, engine.answered()) =~= added(ans0, a1).push(Ok(t)) + seq![engine.answered().last()]);
                }
            },
            None => {
                proof {
                    assert(added(fed0, engine.fed()) =~= added(fed0, f1) + feed_one(*event));
                    lemma_replay_step(session.events@, i as int, added(ans0, a1), t,
                        Seq::empty(), seq_of_strings(before));
                    assert(added(ans0, engine.answered()) =~= added(ans0, a1).push(Ok(t)) + Seq::<TransitionResult>::empty());
                }
            },
        }
        i = i + 1;
    }
    proof {
        assert(session.events@.take(i as int) =~= session.events@);
    }
    Ok(commits)
}

/// Whether `a` and `b` hold the same texts, in order.
fn same_texts(a: &Vec<String>, b: &Vec<String>) -> (r: bool)
    ensures
        r == (seq_of_strings(a@) == seq_of_strings(b@)),
{
    if a.len() != b.len() {
        assert(seq_of_strings(a@).len() != seq_of_strings(b@).len());
        return false;
    }
    let mut i: usize = 0;
    while i < a.len()
        invariant
            i <= a@.len(),
            a@.len() == b@.len(),
            forall|j: int| 0 <= j < i ==> a@[j]@ == b@[j]@,
        decreases a@.len() - i,
    {
        if !crate::text::same_text(a[i].as_str(), b[i].as_str()) {
            assert(seq_of_strings(a@)[i as int] != seq_of_strings(b@)[i as int]);
            return false;
        }
        i = i + 1;
    }
    assert(seq_of_strings(a@) =~= seq_of_strings(b@));
    true
}

/// Whether replaying `session` through `engine` commits exactly the texts
/// the session expects: true when every session event succeeded and the
/// commits are the expected ones; an engine failure is a mismatch.
pub fn assert_replay<E: CompositionEngine>(engine: &mut LoggedEngine<E>, session: &ReplaySession) -> (ok: bool)
    requires
        old(engine).truthful(),
    ensures
        final(engine).truthful(),
        extends(old(engine).fed(), final(engine).fed()),
        extends(old(engine).answered(), final(engine).answered()),
        final(engine).resets() == old(engine).resets(),
        ({
            let f = added(old(engine).fed(), final(engine).fed());
            let a = added(old(engine).answered(), final(engine).answered());
            &&& a.len() == f.len()
            &&& (f == replay_feed(session.events@) && replay_result(session.events@, a) is Ok)
                || (exists|x: CompositionError| #[trigger] replay_failed(session.events@, f, a, x))
            &&& ok <==> (f == replay_feed(session.events@) && replay_result(session.events@, a)
                == Ok::<Seq<Seq<char>>, CompositionError>(seq_of_strings(session.expected_commits@)))
        }),
{
    let ghost fed0 = engine.fed();
    let ghost ans0 = engine.answered();
    let res = replay_session(engine, session);
    let ghost f = added(fed0, engine.fed());
    let ghost a = added(ans0, engine.answered());
    match res {
        Ok(actual) => {
            if actual.len() != session.expected_commits.len() {
                proof {
                    assert(seq_of_strings(actual@).len() != seq_of_strings(session.expected_commits@).len());
                }
                return false;
            }
            same_texts(&actual, &session.expected_commits)
        },
        Err(x) => {
            proof {
                let k = choose|k: int|
                    0 <= k < session.events@.len() && f == #[trigger] replay_feed(session.events@.take(k)).push(session.events@[k])
                        && a.len() == f.len() && replay_result(session.events@.take(k), a.drop_last()) is Ok
                        && a.last() == Err::<StateTransition, CompositionError>(x);
                lemma_failed_not_complete(session.events@, k, a);
            }
            false
        },
    }
}

/// A replay that failed at a session event never looks like a complete one:
/// either fewer events were fed, or the outcome over all events is that error.
proof fn lemma_failed_not_complete(events: Seq<InputEvent>, k: int, a: Seq<TransitionResult>)
    requires
        0 <= k < events.len(),
        a.len() == replay_feed(events.take(k)).len() + 1,
        replay_result(events.take(k), a.drop_last()) is Ok,
        a.last() is Err,
    ensures
        replay_feed(events.take(k)).push(events[k]) == replay_feed(events) ==> replay_result(events, a) is Err,
{
    if replay_feed(events.take(k)).push(events[k]) == replay_feed(events) {
        lemma_feed_prefix_len(events, k + 1);
        assert(events.take(k + 1).drop_last() =~= events.take(k));
        assert(replay_feed(events.take(k + 1)) == replay_feed(events.take(k)) + feed_one(events[k]));
        if k + 1 < events.len() {
            lemma_feed_grows(events, k + 1);
            assert(false);
        }
        assert(feed_one(events[k]).len() == 1);
        assert(events.take(k + 1) =~= events);
        assert(events.drop_last() =~= events.take(k));
        assert(a.take(replay_feed(events.take(k)).len() as int) =~= a.drop_last());
    }
}

/// The events fed for a prefix are at most those fed for the whole.
proof fn lemma_feed_prefix_len(events: Seq<InputEvent>, j: int)
    requires
        0 <= j <= events.len(),
    ensures
        replay_feed(events.take(j)).len() <= replay_feed(events).len(),
    decreases events.len() - j,
{
    if j < events.len() {
        lemma_feed_prefix_len(events, j + 1);
        assert(events.take(j + 1).drop_last() =~= events.take(j));
    } else {
        assert(events.take(j) =~= events);
    }
}

/// Feeding a longer prefix feeds more events.
proof fn lemma_feed_grows(events: Seq<InputEvent>, j: int)
    requires
        0 <= j < events.len(),
    ensures
        replay_feed(events.take(j)).len() < replay_feed(events).len(),
{
    lemma_feed_prefix_len(events, j + 1);
    assert(events.take(j + 1).drop_last() =~= events.take(j));
}

/// The events a focus-stress run of `n` cycles feeds.
pub open spec fn stress_feed(n: nat) -> Seq<InputEvent>
    decreases n,
{
    if n == 0 {
        Seq::empty()
    } else {
        stress_feed((n - 1) as nat) + seq![kd('a'), InputEvent::FocusIn, InputEvent::FocusOut]
    }
}

/// The answer commits the preedit.
pub open spec fn is_focus_commit(t: TransitionResult) -> bool {
    (t matches Ok(StateTransition::Commit(_))) || (t matches Ok(StateTransition::CommitAndClear(_)))
}

/// How many cycles of answers (three per cycle) end with a focus loss that
/// committed the preedit.
pub open spec fn focus_commit_count(a: Seq<TransitionResult>) -> nat
    decreases a.len(),
{
    if a.len() < 3 {
        0
    } else {
        focus_commit_count(a.take(a.len() - 3)) + if is_focus_commit(a.last()) { 1nat } else { 0nat }
    }
}

/// The engine as cycle `c`'s focus loss left it shows no preedit (`st` holds
/// the engine after each answer, three per cycle).
pub open spec fn cleared_after_cycle<E: CompositionEngine>(st: Seq<E>, c: int) -> bool {
    st[3 * c + 2].preedit_view()@.len() == 0
}

/// Run up to `iterations` cycles of: press `a`, focus in, focus out.  After
/// each focus loss the preedit must be clear; the run stops after the first
/// cycle that leaves it shown.  Returns how many focus losses committed the
/// preedit; a correct engine commits on every one and always clears, so the
/// result equals `iterations`.
pub fn focus_stress_run<E: CompositionEngine>(engine: &mut LoggedEngine<E>, iterations: usize) -> (commits: usize)
    requires
        old(engine).truthful(),
    ensures
        final(engine).truthful(),
        commits <= iterations,
        extends(old(engine).fed(), final(engine).fed()),
        extends(old(engine).answered(), final(engine).answered()),
        extends(old(engine).after(), final(engine).after()),
        final(engine).resets() == old(engine).resets(),
        ({
            let a = added(old(engine).answered(), final(engine).answered());
            let st = added(old(engine).after(), final(engine).after());
            let n = a.len() / 3;
            &&& a.len() == 3 * n
            &&& n <= iterations
            &&& st.len() == a.len()
            &&& added(old(engine).fed(), final(engine).fed()) == stress_feed(n)
            &&& commits == focus_commit_count(a)
            &&& forall|c: int| 0 <= c < n - 1 ==> #[trigger] cleared_after_cycle(st, c)
            &&& n < iterations ==> n > 0 && !cleared_after_cycle(st, n - 1)
        }),
{
    let ghost fed0 = engine.fed();
    let ghost ans0 = engine.answered();
    let ghost st0 = engine.after();
    proof {
        lemma_extends_self(fed0);
        lemma_extends_self(ans0);
        lemma_extends_self(st0);
    }
    let mut commits: usize = 0;
    let mut i: usize = 0;
    while i < iterations
        invariant
            i <= iterations,
            commits <= i,
            fed0 == old(engine).fed(),
            engine.truthful(),
            ans0 == old(engine).answered(),
            st0 == old(engine).after(),
            extends(fed0, engine.fed()),
            extends(ans0, engine.answered()),
            extends(st0, engine.after()),
            engine.resets() == old(engine).resets(),
            added(fed0, engine.fed()) == stress_feed(i as nat),
            added(ans0, engine.answered()).len() == 3 * i,
            added(st0, engine.after()).len() == 3 * i,
            focus_commit_count(added(ans0, engine.answered())) == commits,
            forall|c: int| 0 <= c < i ==> #[trigger] cleared_after_cycle(added(st0, engine.after()), c),
        decreases iterations - i,
    {
        let ghost f1 = engine.fed();
        let ghost a1 = engine.answered();
        let ghost s1 = engine.after();
        let press_a = key_press('a');
        let x = engine.process(&press_a);
        proof {
            lemma_added_push(fed0, f1, press_a);
            lemma_added_push(ans0, a1, x);
            lemma_added_push(st0, s1, engine.inner());
        }
        let ghost f2 = engine.fed();
        let ghost a2 = engine.answered();
        let ghost s2 = engine.after();
        let y = engine.process(&InputEvent::FocusIn);
        proof {
            lemma_added_push(fed0, f2, InputEvent::FocusIn);
            lemma_added_push(ans0, a2, y);
            lemma_added_push(st0, s2, engine.inner());
        }
        let ghost f3 = engine.fed();
        let ghost a3 = engine.answered();
        let ghost s3 = engine.after();
        let t = engine.process(&InputEvent::FocusOut);
        proof {
            lemma_added_push(fed0, f3, InputEvent::FocusOut);
            lemma_added_push(ans0, a3, t);
            lemma_added_push(st0, s3, engine.inner());
        }
        if is_focus_out_commit(&t) {
            commits = commits + 1;
        }
        let ghost st = added(st0, engine.after());
        proof {
            let a = added(ans0, engine.answered());
            assert(a == added(ans0, a1).push(x).push(y).push(t));
            assert(a.take(a.len() - 3) =~= added(ans0, a1));
            assert(added(fed0, engine.fed()) =~= stress_feed(i as nat) + seq![kd('a'), InputEvent::FocusIn, InputEvent::FocusOut]);
            assert(st == added(st0, s1).push(st[3 * i]).push(st[3 * i + 1]).push(engine.inner()));
            assert forall|c: int| 0 <= c < i implies #[trigger] cleared_after_cycle(st, c) by {
                assert(st[3 * c + 2] == added(st0, s1)[3 * c + 2]);
                assert(cleared_after_cycle(added(st0, s1), c));
            }
            assert(st[3 * i + 2] == engine.inner());
        }
        let shown = engine.preedit();
        if char_len(shown.as_str()) != 0 {
            proof {
                assert(!cleared_after_cycle(st, i as int));
                lemma_div_three(i + 1);
            }
            return commits;
        }
        proof {
            assert(cleared_after_cycle(st, i as int));
        }
        i = i + 1;
    }
    proof {
        lemma_div_three(i as int);
    }
    commits
}

proof fn lemma_div_three(k: int)
    requires
        k >= 0,
    ensures
        (3 * k) / 3 == k,
{
}

/// The events that type `cs`: each character pressed, then released.
pub open spec fn typing_feed(cs: Seq<char>) -> Seq<InputEvent>
    decreases cs.len(),
{
    if cs.len() == 0 {
        Seq::empty()
    } else {
        typing_feed(cs.drop_last()) + seq![kd(cs.last()), InputEvent::KeyUp(Key::Char(cs.last()))]
    }
}

/// The engine accepted every press of typing `cs` (answers `a`, two per
/// character: press, then release).
pub open spec fn presses_ok(cs: Seq<char>, a: Seq<TransitionResult>) -> bool
    decreases cs.len(),
{
    if cs.len() == 0 {
        true
    } else {
        presses_ok(cs.drop_last(), a.take(2 * (cs.len() - 1))) && a[2 * (cs.len() - 1)] is Ok
    }
}

/// What typing commits for the answer to Return.
pub open spec fn return_outcome(t: TransitionResult) -> Option<Seq<char>> {
    match t {
        Ok(s) => spec_return_commit(s),
        Err(_) => None,
    }
}

/// The texts of an optional string.
pub open spec fn opt_text(r: Option<String>) -> Option<Seq<char>> {
    match r {
        Some(s) => Some(s@),
        None => None,
    }
}

/// What a key sequence commits: each character of `keys` is pressed and
/// released, then Return is pressed.  The committed text, or an empty string
/// when Return passed through (as the engine answered Return); `None` when the
/// engine failed on a press, after which nothing more is fed, or answered
/// Return with anything else.
pub fn type_and_commit<E: CompositionEngine>(engine: &mut LoggedEngine<E>, keys: &str) -> (r: Option<String>)
    requires
        old(engine).truthful(),
    ensures
        final(engine).truthful(),
        extends(old(engine).fed(), final(engine).fed()),
        extends(old(engine).answered(), final(engine).answered()),
        final(engine).resets() == old(engine).resets(),
        ({
            let f = added(old(engine).fed(), final(engine).fed());
            let a = added(old(engine).answered(), final(engine).answered());
            &&& a.len() == f.len()
            &&& (f == typing_feed(keys@).push(kp(Key::Return)) && presses_ok(keys@, a.drop_last())
                && opt_text(r) == return_outcome(a.last()))
                || (exists|k: int| 0 <= k < keys@.len()
                    && f == #[trigger] typing_feed(keys@.take(k)).push(kd(keys@[k]))
                    && presses_ok(keys@.take(k), a.drop_last()) && a.last() is Err && r is None)
        }),
{
    let ghost fed0 = engine.fed();
    let ghost ans0 = engine.answered();
    proof {
        lemma_extends_self(fed0);
        lemma_extends_self(ans0);
    }
    let cs = chars_of(keys);
    let mut i: usize = 0;
    assert(cs@.take(0) =~= Seq::<char>::empty());
    while i < cs.len()
        invariant
            i <= cs.len(),
            cs@ == keys@,
            fed0 == old(engine).fed(),
            engine.truthful(),
            ans0 == old(engine).answered(),
            extends(fed0, engine.fed()),
            extends(ans0, engine.answered()),
            engine.resets() == old(engine).resets(),
            added(fed0, engine.fed()) == typing_feed(cs@.take(i as int)),
            added(ans0, engine.answered()).len() == 2 * i,
            added(fed0, engine.fed()).len() == 2 * i,
            presses_ok(cs@.take(i as int), added(ans0, engine.answered())),
        decreases cs.len() - i,
    {
        let c = char_at(&cs, i);
        let ghost f1 = engine.fed();
        let ghost a1 = engine.answered();
        let down = key_press(c);
        let x = engine.process(&down);
        proof {
            lemma_added_push(fed0, f1, down);
            lemma_added_push(ans0, a1, x);
        }
        match x {
            Ok(_) => {},
            Err(_) => {
                proof {
                    let a = added(ans0, engine.answered());
                    assert(a.drop_last() =~= added(ans0, a1));
                    assert(cs@.take(i as int).len() == i);
                    assert(added(fed0, engine.fed()) == typing_feed(keys@.take(i as int)).push(kd(keys@[i as int])));
                    assert(presses_ok(keys@.take(i as int), a.drop_last()));
                    assert(a.last() is Err);
                    assert(0 <= i < keys@.len() && added(fed0, engine.fed()) == typing_feed(keys@.take(i as int)).push(kd(keys@[i as int]))
                        && presses_ok(keys@.take(i as int), a.drop_last()) && a.last() is Err);
                    assert(a.len() == added(fed0, engine.fed()).len());
                }
                return None;
            },
        }
        let ghost f2 = engine.fed();
        let ghost a2 = engine.answered();
        let up = InputEvent::KeyUp(Key::Char(c));
        let y = engine.process(&up);
        proof {
            lemma_added_push(fed0, f2, up);
            lemma_added_push(ans0, a2, y);
            assert(cs@.take(i + 1).drop_last() =~= cs@.take(i as int));
            assert(cs@.take(i + 1).last() == c);
            assert(added(fed0, engine.fed()) =~= typing_feed(cs@.take(i as int)) + seq![kd(c), InputEvent::KeyUp(Key::Char(c))]);
            let a = added(ans0, engine.answered());
            assert(a == added(ans0, a1).push(x).push(y));
            assert(a.take(2 * i) =~= added(ans0, a1));
            assert(a[2 * i] == x);
        }
        i = i + 1;
    }
    proof {
        assert(cs@.take(i as int) =~= keys@);
    }
    let ghost f3 = engine.fed();
    let ghost a3 = engine.answered();
    let ret = press(Key::Return);
    let answer = engine.process(&ret);
    proof {
        lemma_added_push(fed0, f3, ret);
        lemma_added_push(ans0, a3, answer);
        assert(added(ans0, engine.answered()).drop_last() =~= added(ans0, a3));
        assert(added(ans0, engine.answered()).last() == answer);
        assert(ret == kp(Key::Return));
        assert(added(fed0, engine.fed()) == typing_feed(keys@).push(kp(Key::Return)));
        assert(presses_ok(keys@, added(ans0, engine.answered()).drop_last()));
    }
    let r = match answer {
        Ok(t) => return_commit(&t),
        Err(_) => None,
    };
    assert(opt_text(r) == return_outcome(answer));
    r
}

/// What a syllable commits: a view of the answer to Return.
pub open spec fn compose_outcome(t: TransitionResult) -> Option<Seq<char>> {
    match t {
        Ok(s) => spec_replay_commit(s),
        Err(_) => None,
    }
}

/// Compose one syllable from a clean state: reset, press and release each
/// character whatever the engine answers, press Return.  The text Return
/// commits, if it commits.
pub fn compose_one<E: CompositionEngine>(engine: &mut LoggedEngine<E>, syllable: &str) -> (r: Option<String>)
    requires
        old(engine).truthful(),
    ensures
        final(engine).truthful(),
        extends(old(engine).fed(), final(engine).fed()),
        extends(old(engine).answered(), final(engine).answered()),
        final(engine).resets() == old(engine).resets() + 1,
        ({
            let f = added(old(engine).fed(), final(engine).fed());
            let a = added(old(engine).answered(), final(engine).answered());
            &&& f == typing_feed(syllable@).push(kp(Key::Return))
            &&& a.len() == f.len()
            &&& opt_text(r) == compose_outcome(a.last())
        }),
{
    let ghost fed0 = engine.fed();
    let ghost ans0 = engine.answered();
    engine.reset();
    proof {
        lemma_extends_self(fed0);
        lemma_extends_self(ans0);
    }
    let cs = chars_of(syllable);
    let mut i: usize = 0;
    assert(cs@.take(0) =~= Seq::<char>::empty());
    while i < cs.len()
        invariant
            i <= cs.len(),
            cs@ == syllable@,
            fed0 == old(engine).fed(),
            engine.truthful(),
            ans0 == old(engine).answered(),
            extends(fed0, engine.fed()),
            extends(ans0, engine.answered()),
            engine.resets() == old(engine).resets() + 1,
            added(fed0, engine.fed()) == typing_feed(cs@.take(i as int)),
            added(ans0, engine.answered()).len() == 2 * i,
            added(fed0, engine.fed()).len() == 2 * i,
        decreases cs.len() - i,
    {
        let c = char_at(&cs, i);
        let ghost f1 = engine.fed();
        let ghost a1 = engine.answered();
        let down = key_press(c);
        let x = engine.process(&down);
        proof {
            lemma_added_push(fed0, f1, down);
            lemma_added_push(ans0, a1, x);
        }
        let ghost f2 = engine.fed();
        let ghost a2 = engine.answered();
        let up = InputEvent::KeyUp(Key::Char(c));
        let y = engine.process(&up);
        proof {
            lemma_added_push(fed0, f2, up);
            lemma_added_push(ans0, a2, y);
            assert(cs@.take(i + 1).drop_last() =~= cs@.take(i as int));
            assert(cs@.take(i + 1).last() == c);
            assert(added(fed0, engine.fed()) =~= typing_feed(cs@.take(i as int)) + seq![kd(c), InputEvent::KeyUp(Key::Char(c))]);
        }
        i = i + 1;
    }
    proof {
        assert(cs@.take(i as int) =~= syllable@);
    }
    let ghost f3 = engine.fed();
    let ghost a3 = engine.answered();
    let ret = press(Key::Return);
    let answer = engine.process(&ret);
    proof {
        lemma_added_push(fed0, f3, ret);
        lemma_added_push(ans0, a3, answer);
        assert(added(ans0, engine.answered()).last() == answer);
        assert(ret == kp(Key::Return));
        assert(added(fed0, engine.fed()) == typing_feed(syllable@).push(kp(Key::Return)));
    }
    let r = match answer {
        Ok(t) => replay_commit(&t),
        Err(_) => None,
    };
    assert(opt_text(r) == compose_outcome(answer));
    r
}

} // verus!
