//! Recorded input sessions for regression testing, the pre-built fixture
//! sessions, and what a replay does with the engine's answers.
//!
//! Running the composition engine, and the binary session format, are the
//! caller's; which events a replay sends and which answers count as commits
//! is decided here.
use vstd::prelude::*;
use crate::types::{InputEvent, InputMethod, Key, Modifiers, StateTransition, TransitionResult};
use crate::text::{chars_of, owned, seq_of_strings};

verus! {

/// A recorded input session: the sequence of events and the text committed
/// during replay.
#[derive(Clone, Debug)]
pub struct ReplaySession {
    /// Human-readable label.
    pub name: String,
    /// Input method active during the session.
    pub method: InputMethod,
    /// Events in order.
    pub events: Vec<InputEvent>,
    /// The committed strings expected when replaying these events.
    pub expected_commits: Vec<String>,
}

/// A key press with no modifier.
pub fn press(key: Key) -> (e: InputEvent)
    ensures
        e == InputEvent::KeyDown(key, Modifiers { shift: false, caps_lock: false, ctrl: false, alt: false, altgr: false, super_key: false }),
{
    InputEvent::KeyDown(key, Modifiers::none())
}

/// A character key press with no modifier.
pub fn key_press(c: char) -> (e: InputEvent)
    ensures
        e == InputEvent::KeyDown(Key::Char(c), Modifiers { shift: false, caps_lock: false, ctrl: false, alt: false, altgr: false, super_key: false }),
{
    press(Key::Char(c))
}

/// The text a replay records for an engine answer: the text of a commit
/// (one that clears the preedit or not), nothing for any other answer.
pub open spec fn spec_replay_commit(t: StateTransition) -> Option<Seq<char>> {
    match t {
        StateTransition::Commit(c) => Some(c@),
        StateTransition::CommitAndClear(c) => Some(c@),
        _ => None,
    }
}

/// The text a replay records for an engine answer.
pub fn replay_commit(t: &StateTransition) -> (r: Option<String>)
    ensures
        match r {
            Some(s) => spec_replay_commit(*t) == Some(s@),
            None => spec_replay_commit(*t) is None,
        },
{
    match t {
        StateTransition::Commit(c) => Some(c.clone()),
        StateTransition::CommitAndClear(c) => Some(c.clone()),
        _ => None,
    }
}

/// The release a replay injects after an event: after every character
/// press comes the release of that character, so that the engine's repeat
/// guard is cleared between equal consecutive presses.
pub open spec fn spec_implicit_key_up(e: InputEvent) -> Option<InputEvent> {
    match e {
        InputEvent::KeyDown(Key::Char(c), _) => Some(InputEvent::KeyUp(Key::Char(c))),
        _ => None,
    }
}

/// The release a replay injects after an event, if any.
pub fn implicit_key_up(e: &InputEvent) -> (r: Option<InputEvent>)
    ensures
        r == spec_implicit_key_up(*e),
{
    match e {
        InputEvent::KeyDown(Key::Char(c), _) => Some(InputEvent::KeyUp(Key::Char(*c))),
        _ => None,
    }
}

/// The events that type `keys` and then commit with Return: each character
/// is pressed and released, then Return is pressed.
pub fn typing_events(keys: &str) -> (v: Vec<InputEvent>)
    ensures
        v@.len() == 2 * keys@.len() + 1,
        forall|i: int| 0 <= i < keys@.len() ==> v@[2 * i] == InputEvent::KeyDown(Key::Char(#[trigger] keys@[i]), Modifiers { shift: false, caps_lock: false, ctrl: false, alt: false, altgr: false, super_key: false })
            && v@[2 * i + 1] == InputEvent::KeyUp(Key::Char(keys@[i])),
        v@[2 * keys@.len() as int] == InputEvent::KeyDown(Key::Return, Modifiers { shift: false, caps_lock: false, ctrl: false, alt: false, altgr: false, super_key: false }),
{
    let cs = chars_of(keys);
    let mut v: Vec<InputEvent> = Vec::new();
    let mut i: usize = 0;
    while i < cs.len()
        invariant
            i <= cs.len(),
            cs@ == keys@,
            v@.len() == 2 * i,
            forall|j: int| 0 <= j < i ==> v@[2 * j] == InputEvent::KeyDown(Key::Char(#[trigger] cs@[j]), Modifiers { shift: false, caps_lock: false, ctrl: false, alt: false, altgr: false, super_key: false })
                && v@[2 * j + 1] == InputEvent::KeyUp(Key::Char(cs@[j])),
        decreases cs.len() - i,
    {
        let c = crate::text::char_at(&cs, i);
        v.push(key_press(c));
        v.push(InputEvent::KeyUp(Key::Char(c)));
        i = i + 1;
    }
    v.push(press(Key::Return));
    v
}

/// What typing a key sequence commits, given the engine's answer to the
/// final Return.
pub open spec fn spec_return_commit(t: StateTransition) -> Option<Seq<char>> {
    match t {
        StateTransition::CommitAndClear(c) => Some(c@),
        StateTransition::Commit(c) => Some(c@),
        StateTransition::PassThrough => Some(Seq::empty()),
        _ => None,
    }
}

/// What typing a key sequence commits, from the engine's answer to the
/// final Return: the committed text, or nothing (an empty string) when the
/// key passed through because no composition was open; any other answer is
/// unexpected (`None`).
pub fn return_commit(t: &StateTransition) -> (r: Option<String>)
    ensures
        match spec_return_commit(*t) {
            Some(c) => r matches Some(s) && s@ == c,
            None => r is None,
        },
{
    match t {
        StateTransition::CommitAndClear(c) => Some(c.clone()),
        StateTransition::Commit(c) => Some(c.clone()),
        StateTransition::PassThrough => {
            let s = String::new();
            assert(s@ =~= Seq::<char>::empty());
            Some(s)
        },
        _ => None,
    }
}

/// The engine answer counts as a commit of the preedit (for focus-loss
/// stress runs).
pub fn is_focus_out_commit(t: &TransitionResult) -> (b: bool)
    ensures
        b == (*t matches Ok(StateTransition::Commit(_)) || *t matches Ok(StateTransition::CommitAndClear(_))),
{
    match t {
        Ok(StateTransition::Commit(_)) => true,
        Ok(StateTransition::CommitAndClear(_)) => true,
        _ => false,
    }
}

/// How many regression fixture sessions there are.
pub const FIXTURE_COUNT: usize = 20;

/// A key press of `c` with no modifier.
pub open spec fn kd(c: char) -> InputEvent {
    InputEvent::KeyDown(Key::Char(c), Modifiers { shift: false, caps_lock: false, ctrl: false, alt: false, altgr: false, super_key: false })
}

/// A press of `k` with no modifier.
pub open spec fn kp(k: Key) -> InputEvent {
    InputEvent::KeyDown(k, Modifiers { shift: false, caps_lock: false, ctrl: false, alt: false, altgr: false, super_key: false })
}

/// A session as `(name, method, events, expected commits)`.
pub open spec fn session_view(s: ReplaySession) -> (Seq<char>, InputMethod, Seq<InputEvent>, Seq<Seq<char>>) {
    (s.name@, s.method, s.events@, seq_of_strings(s.expected_commits@))
}

/// The regression fixtures as `(name, method, events, expected commits)`, in order.
pub open spec fn fixture_table() -> Seq<(Seq<char>, InputMethod, Seq<InputEvent>, Seq<Seq<char>>)> {
    seq![
        (seq!['t', 'e', 'l', 'e', 'x', '_', 't', 'o', 'i'], InputMethod::Telex, seq![kd('t'), kd('o'), kd('o'), kd('i'), kp(Key::Return)], seq![seq!['t', '\u{F4}', 'i']]),
        (seq!['t', 'e', 'l', 'e', 'x', '_', 'a', '_', 's', 'a', 'c'], InputMethod::Telex, seq![kd('a'), kd('s'), kp(Key::Return)], seq![seq!['\u{E1}']]),
        (seq!['t', 'e', 'l', 'e', 'x', '_', 'a', '_', 'h', 'u', 'y', 'e', 'n'], InputMethod::Telex, seq![kd('a'), kd('f'), kp(Key::Return)], seq![seq!['\u{E0}']]),
        (seq!['t', 'e', 'l', 'e', 'x', '_', 'b', 'a', 'c', 'k', 's', 'p', 'a', 'c', 'e'], InputMethod::Telex, seq![kd('t'), kd('o'), kd('o'), kp(Key::Backspace), kp(Key::Return)], seq![seq!['t']]),
        (seq!['t', 'e', 'l', 'e', 'x', '_', 'e', 's', 'c', 'a', 'p', 'e', '_', 'c', 'l', 'e', 'a', 'r', 's'], InputMethod::Telex, seq![kd('t'), kd('o'), kp(Key::Escape)], Seq::<Seq<char>>::empty()),
        (seq!['v', 'n', 'i', '_', 't', 'o', 'i'], InputMethod::Vni, seq![kd('t'), kd('o'), kd('6'), kd('i'), kp(Key::Return)], seq![seq!['t', '\u{F4}', 'i']]),
        (seq!['v', 'n', 'i', '_', 'a', '_', 's', 'a', 'c'], InputMethod::Vni, seq![kd('a'), kd('1'), kp(Key::Return)], seq![seq!['\u{E1}']]),
        (seq!['v', 'n', 'i', '_', 'a', '_', 'h', 'u', 'y', 'e', 'n'], InputMethod::Vni, seq![kd('a'), kd('2'), kp(Key::Return)], seq![seq!['\u{E0}']]),
        (seq!['v', 'n', 'i', '_', 'a', '_', 'n', 'a', 'n', 'g'], InputMethod::Vni, seq![kd('a'), kd('5'), kp(Key::Return)], seq![seq!['\u{1EA1}']]),
        (seq!['v', 'n', 'i', '_', 'o', '_', 'c', 'i', 'r', 'c'], InputMethod::Vni, seq![kd('o'), kd('6'), kp(Key::Return)], seq![seq!['\u{F4}']]),
        (seq!['v', 'i', 'q', 'r', '_', 't', 'o', 'i'], InputMethod::Viqr, seq![kd('t'), kd('o'), kd('^'), kd('i'), kp(Key::Return)], seq![seq!['t', '\u{F4}', 'i']]),
        (seq!['v', 'i', 'q', 'r', '_', 'a', '_', 's', 'a', 'c'], InputMethod::Viqr, seq![kd('a'), kd('\''), kp(Key::Return)], seq![seq!['\u{E1}']]),
        (seq!['v', 'i', 'q', 'r', '_', 'a', '_', 'h', 'u', 'y', 'e', 'n'], InputMethod::Viqr, seq![kd('a'), kd('`'), kp(Key::Return)], seq![seq!['\u{E0}']]),
        (seq!['v', 'i', 'q', 'r', '_', 'a', '_', 'h', 'o', 'i'], InputMethod::Viqr, seq![kd('a'), kd('?'), kp(Key::Return)], seq![seq!['\u{1EA3}']]),
        (seq!['v', 'i', 'q', 'r', '_', 'a', '_', 'n', 'g', 'a'], InputMethod::Viqr, seq![kd('a'), kd('~'), kp(Key::Return)], seq![seq!['\u{E3}']]),
        (seq!['v', 'i', 'q', 'r', '_', 'a', '_', 'n', 'a', 'n', 'g'], InputMethod::Viqr, seq![kd('a'), kd('.'), kp(Key::Return)], seq![seq!['\u{1EA1}']]),
        (seq!['t', 'e', 'l', 'e', 'x', '_', 'f', 'o', 'c', 'u', 's', '_', 'o', 'u', 't', '_', 'c', 'o', 'm', 'm', 'i', 't', 's'], InputMethod::Telex, seq![kd('a'), kd('a'), InputEvent::FocusOut], seq![seq!['\u{E2}']]),
        (seq!['t', 'e', 'l', 'e', 'x', '_', 't', 'w', 'o', '_', 'w', 'o', 'r', 'd', 's'], InputMethod::Telex, seq![kd('a'), kd('s'), kp(Key::Return), kd('o'), kd('o'), kp(Key::Return)], seq![seq!['\u{E1}'], seq!['\u{F4}']]),
        (seq!['t', 'e', 'l', 'e', 'x', '_', 'd', '_', 's', 't', 'r', 'o', 'k', 'e'], InputMethod::Telex, seq![kd('d'), kd('d'), kp(Key::Return)], seq![seq!['\u{111}']]),
        (seq!['t', 'e', 'l', 'e', 'x', '_', 'r', 'e', 's', 'e', 't', '_', 'n', 'o', '_', 'c', 'o', 'm', 'm', 'i', 't'], InputMethod::Telex, seq![kd('a'), kd('a'), InputEvent::Reset], Seq::<Seq<char>>::empty()),
    ]
}

/// Return all regression fixture sessions.
pub fn all_fixtures() -> (v: Vec<ReplaySession>)
    ensures
        v@.len() == FIXTURE_COUNT,
        forall|i: int| 0 <= i < FIXTURE_COUNT ==> #[trigger] session_view(v@[i]) == fixture_table()[i],
{
    let mut v: Vec<ReplaySession> = Vec::new();
    {
        let mut ev: Vec<InputEvent> = Vec::new();
        ev.push(key_press('t'));
        ev.push(key_press('o'));
        ev.push(key_press('o'));
        ev.push(key_press('i'));
        ev.push(press(Key::Return));
        let mut expected: Vec<String> = Vec::new();
        expected.push(owned("tôi"));
        proof {
            reveal_strlit("telex_toi");
            reveal_strlit("tôi");
            assert(ev@ =~= fixture_table()[0].2);
            assert(seq_of_strings(expected@) =~~= fixture_table()[0].3);
        }
        v.push(ReplaySession { name: owned("telex_toi"), method: InputMethod::Telex, events: ev, expected_commits: expected });
        proof {
            assert(session_view(v@[0]) == fixture_table()[0]);
        }
    }
    {
        let mut ev: Vec<InputEvent> = Vec::new();
        ev.push(key_press('a'));
        ev.push(key_press('s'));
        ev.push(press(Key::Return));
        let mut expected: Vec<String> = Vec::new();
        expected.push(owned("á"));
        proof {
            reveal_strlit("telex_a_sac");
            reveal_strlit("á");
            assert(ev@ =~= fixture_table()[1].2);
            assert(seq_of_strings(expected@) =~~= fixture_table()[1].3);
        }
        v.push(ReplaySession { name: owned("telex_a_sac"), method: InputMethod::Telex, events: ev, expected_commits: expected });
        proof {
            assert(session_view(v@[1]) == fixture_table()[1]);
        }
    }
    {
        let mut ev: Vec<InputEvent> = Vec::new();
        ev.push(key_press('a'));
        ev.push(key_press('f'));
        ev.push(press(Key::Return));
        let mut expected: Vec<String> = Vec::new();
        expected.push(owned("à"));
        proof {
            reveal_strlit("telex_a_huyen");
            reveal_strlit("à");
            assert(ev@ =~= fixture_table()[2].2);
            assert(seq_of_strings(expected@) =~~= fixture_table()[2].3);
        }
        v.push(ReplaySession { name: owned("telex_a_huyen"), method: InputMethod::Telex, events: ev, expected_commits: expected });
        proof {
            assert(session_view(v@[2]) == fixture_table()[2]);
        }
    }
    {
        let mut ev: Vec<InputEvent> = Vec::new();
        ev.push(key_press('t'));
        ev.push(key_press('o'));
        ev.push(key_press('o'));
        ev.push(press(Key::Backspace));
        ev.push(press(Key::Return));
        let mut expected: Vec<String> = Vec::new();
        expected.push(owned("t"));
        proof {
            reveal_strlit("telex_backspace");
            reveal_strlit("t");
            assert(ev@ =~= fixture_table()[3].2);
            assert(seq_of_strings(expected@) =~~= fixture_table()[3].3);
        }
        v.push(ReplaySession { name: owned("telex_backspace"), method: InputMethod::Telex, events: ev, expected_commits: expected });
        proof {
            assert(session_view(v@[3]) == fixture_table()[3]);
        }
    }
    {
        let mut ev: Vec<InputEvent> = Vec::new();
        ev.push(key_press('t'));
        ev.push(key_press('o'));
        ev.push(press(Key::Escape));
        let mut expected: Vec<String> = Vec::new();
        proof {
            reveal_strlit("telex_escape_clears");
            assert(ev@ =~= fixture_table()[4].2);
            assert(seq_of_strings(expected@) =~~= fixture_table()[4].3);
        }
        v.push(ReplaySession { name: owned("telex_escape_clears"), method: InputMethod::Telex, events: ev, expected_commits: expected });
        proof {
            assert(session_view(v@[4]) == fixture_table()[4]);
        }
    }
    {
        let mut ev: Vec<InputEvent> = Vec::new();
        ev.push(key_press('t'));
        ev.push(key_press('o'));
        ev.push(key_press('6'));
        ev.push(key_press('i'));
        ev.push(press(Key::Return));
        let mut expected: Vec<String> = Vec::new();
        expected.push(owned("tôi"));
        proof {
            reveal_strlit("vni_toi");
            reveal_strlit("tôi");
            assert(ev@ =~= fixture_table()[5].2);
            assert(seq_of_strings(expected@) =~~= fixture_table()[5].3);
        }
        v.push(ReplaySession { name: owned("vni_toi"), method: InputMethod::Vni, events: ev, expected_commits: expected });
        proof {
            assert(session_view(v@[5]) == fixture_table()[5]);
        }
    }
    {
        let mut ev: Vec<InputEvent> = Vec::new();
        ev.push(key_press('a'));
        ev.push(key_press('1'));
        ev.push(press(Key::Return));
        let mut expected: Vec<String> = Vec::new();
        expected.push(owned("á"));
        proof {
            reveal_strlit("vni_a_sac");
            reveal_strlit("á");
            assert(ev@ =~= fixture_table()[6].2);
            assert(seq_of_strings(expected@) =~~= fixture_table()[6].3);
        }
        v.push(ReplaySession { name: owned("vni_a_sac"), method: InputMethod::Vni, events: ev, expected_commits: expected });
        proof {
            assert(session_view(v@[6]) == fixture_table()[6]);
        }
    }
    {
        let mut ev: Vec<InputEvent> = Vec::new();
        ev.push(key_press('a'));
        ev.push(key_press('2'));
        ev.push(press(Key::Return));
        let mut expected: Vec<String> = Vec::new();
        expected.push(owned("à"));
        proof {
            reveal_strlit("vni_a_huyen");
            reveal_strlit("à");
            assert(ev@ =~= fixture_table()[7].2);
            assert(seq_of_strings(expected@) =~~= fixture_table()[7].3);
        }
        v.push(ReplaySession { name: owned("vni_a_huyen"), method: InputMethod::Vni, events: ev, expected_commits: expected });
        proof {
            assert(session_view(v@[7]) == fixture_table()[7]);
        }
    }
    {
        let mut ev: Vec<InputEvent> = Vec::new();
        ev.push(key_press('a'));
        ev.push(key_press('5'));
        ev.push(press(Key::Return));
        let mut expected: Vec<String> = Vec::new();
        expected.push(owned("ạ"));
        proof {
            reveal_strlit("vni_a_nang");
            reveal_strlit("ạ");
            assert(ev@ =~= fixture_table()[8].2);
            assert(seq_of_strings(expected@) =~~= fixture_table()[8].3);
        }
        v.push(ReplaySession { name: owned("vni_a_nang"), method: InputMethod::Vni, events: ev, expected_commits: expected });
        proof {
            assert(session_view(v@[8]) == fixture_table()[8]);
        }
    }
    {
        let mut ev: Vec<InputEvent> = Vec::new();
        ev.push(key_press('o'));
        ev.push(key_press('6'));
        ev.push(press(Key::Return));
        let mut expected: Vec<String> = Vec::new();
        expected.push(owned("ô"));
        proof {
            reveal_strlit("vni_o_circ");
            reveal_strlit("ô");
            assert(ev@ =~= fixture_table()[9].2);
            assert(seq_of_strings(expected@) =~~= fixture_table()[9].3);
        }
        v.push(ReplaySession { name: owned("vni_o_circ"), method: InputMethod::Vni, events: ev, expected_commits: expected });
        proof {
            assert(session_view(v@[9]) == fixture_table()[9]);
        }
    }
    {
        let mut ev: Vec<InputEvent> = Vec::new();
        ev.push(key_press('t'));
        ev.push(key_press('o'));
        ev.push(key_press('^'));
        ev.push(key_press('i'));
        ev.push(press(Key::Return));
        let mut expected: Vec<String> = Vec::new();
        expected.push(owned("tôi"));
        proof {
            reveal_strlit("viqr_toi");
            reveal_strlit("tôi");
            assert(ev@ =~= fixture_table()[10].2);
            assert(seq_of_strings(expected@) =~~= fixture_table()[10].3);
        }
        v.push(ReplaySession { name: owned("viqr_toi"), method: InputMethod::Viqr, events: ev, expected_commits: expected });
        proof {
            assert(session_view(v@[10]) == fixture_table()[10]);
        }
    }
    {
        let mut ev: Vec<InputEvent> = Vec::new();
        ev.push(key_press('a'));
        ev.push(key_press('\''));
        ev.push(press(Key::Return));
        let mut expected: Vec<String> = Vec::new();
        expected.push(owned("á"));
        proof {
            reveal_strlit("viqr_a_sac");
            reveal_strlit("á");
            assert(ev@ =~= fixture_table()[11].2);
            assert(seq_of_strings(expected@) =~~= fixture_table()[11].3);
        }
        v.push(ReplaySession { name: owned("viqr_a_sac"), method: InputMethod::Viqr, events: ev, expected_commits: expected });
        proof {
            assert(session_view(v@[11]) == fixture_table()[11]);
        }
    }
    {
        let mut ev: Vec<InputEvent> = Vec::new();
        ev.push(key_press('a'));
        ev.push(key_press('`'));
        ev.push(press(Key::Return));
        let mut expected: Vec<String> = Vec::new();
        expected.push(owned("à"));
        proof {
            reveal_strlit("viqr_a_huyen");
            reveal_strlit("à");
            assert(ev@ =~= fixture_table()[12].2);
            assert(seq_of_strings(expected@) =~~= fixture_table()[12].3);
        }
        v.push(ReplaySession { name: owned("viqr_a_huyen"), method: InputMethod::Viqr, events: ev, expected_commits: expected });
        proof {
            assert(session_view(v@[12]) == fixture_table()[12]);
        }
    }
    {
        let mut ev: Vec<InputEvent> = Vec::new();
        ev.push(key_press('a'));
        ev.push(key_press('?'));
        ev.push(press(Key::Return));
        let mut expected: Vec<String> = Vec::new();
        expected.push(owned("ả"));
        proof {
            reveal_strlit("viqr_a_hoi");
            reveal_strlit("ả");
            assert(ev@ =~= fixture_table()[13].2);
            assert(seq_of_strings(expected@) =~~= fixture_table()[13].3);
        }
        v.push(ReplaySession { name: owned("viqr_a_hoi"), method: InputMethod::Viqr, events: ev, expected_commits: expected });
        proof {
            assert(session_view(v@[13]) == fixture_table()[13]);
        }
    }
    {
        let mut ev: Vec<InputEvent> = Vec::new();
        ev.push(key_press('a'));
        ev.push(key_press('~'));
        ev.push(press(Key::Return));
        let mut expected: Vec<String> = Vec::new();
        expected.push(owned("ã"));
        proof {
            reveal_strlit("viqr_a_nga");
            reveal_strlit("ã");
            assert(ev@ =~= fixture_table()[14].2);
            assert(seq_of_strings(expected@) =~~= fixture_table()[14].3);
        }
        v.push(ReplaySession { name: owned("viqr_a_nga"), method: InputMethod::Viqr, events: ev, expected_commits: expected });
        proof {
            assert(session_view(v@[14]) == fixture_table()[14]);
        }
    }
    {
        let mut ev: Vec<InputEvent> = Vec::new();
        ev.push(key_press('a'));
        ev.push(key_press('.'));
        ev.push(press(Key::Return));
        let mut expected: Vec<String> = Vec::new();
        expected.push(owned("ạ"));
        proof {
            reveal_strlit("viqr_a_nang");
            reveal_strlit("ạ");
            assert(ev@ =~= fixture_table()[15].2);
            assert(seq_of_strings(expected@) =~~= fixture_table()[15].3);
        }
        v.push(ReplaySession { name: owned("viqr_a_nang"), method: InputMethod::Viqr, events: ev, expected_commits: expected });
        proof {
            assert(session_view(v@[15]) == fixture_table()[15]);
        }
    }
    {
        let mut ev: Vec<InputEvent> = Vec::new();
        ev.push(key_press('a'));
        ev.push(key_press('a'));
        ev.push(InputEvent::FocusOut);
        let mut expected: Vec<String> = Vec::new();
        expected.push(owned("â"));
        proof {
            reveal_strlit("telex_focus_out_commits");
            reveal_strlit("â");
            assert(ev@ =~= fixture_table()[16].2);
            assert(seq_of_strings(expected@) =~~= fixture_table()[16].3);
        }
        v.push(ReplaySession { name: owned("telex_focus_out_commits"), method: InputMethod::Telex, events: ev, expected_commits: expected });
        proof {
            assert(session_view(v@[16]) == fixture_table()[16]);
        }
    }
    {
        let mut ev: Vec<InputEvent> = Vec::new();
        ev.push(key_press('a'));
        ev.push(key_press('s'));
        ev.push(press(Key::Return));
        ev.push(key_press('o'));
        ev.push(key_press('o'));
        ev.push(press(Key::Return));
        let mut expected: Vec<String> = Vec::new();
        expected.push(owned("á"));
        expected.push(owned("ô"));
        proof {
            reveal_strlit("telex_two_words");
            reveal_strlit("á");
            reveal_strlit("ô");
            assert(ev@ =~= fixture_table()[17].2);
            assert(seq_of_strings(expected@) =~~= fixture_table()[17].3);
        }
        v.push(ReplaySession { name: owned("telex_two_words"), method: InputMethod::Telex, events: ev, expected_commits: expected });
        proof {
            assert(session_view(v@[17]) == fixture_table()[17]);
        }
    }
    {
        let mut ev: Vec<InputEvent> = Vec::new();
        ev.push(key_press('d'));
        ev.push(key_press('d'));
        ev.push(press(Key::Return));
        let mut expected: Vec<String> = Vec::new();
        expected.push(owned("đ"));
        proof {
            reveal_strlit("telex_d_stroke");
            reveal_strlit("đ");
            assert(ev@ =~= fixture_table()[18].2);
            assert(seq_of_strings(expected@) =~~= fixture_table()[18].3);
        }
        v.push(ReplaySession { name: owned("telex_d_stroke"), method: InputMethod::Telex, events: ev, expected_commits: expected });
        proof {
            assert(session_view(v@[18]) == fixture_table()[18]);
        }
    }
    {
        let mut ev: Vec<InputEvent> = Vec::new();
        ev.push(key_press('a'));
        ev.push(key_press('a'));
        ev.push(InputEvent::Reset);
        let mut expected: Vec<String> = Vec::new();
        proof {
            reveal_strlit("telex_reset_no_commit");
            assert(ev@ =~= fixture_table()[19].2);
            assert(seq_of_strings(expected@) =~~= fixture_table()[19].3);
        }
        v.push(ReplaySession { name: owned("telex_reset_no_commit"), method: InputMethod::Telex, events: ev, expected_commits: expected });
        proof {
            assert(session_view(v@[19]) == fixture_table()[19]);
        }
    }
    v
}

} // verus!
