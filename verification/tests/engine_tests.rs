use vi_ime::compositor_matrix::{drive_engine, CompositorQuirks, MockCompositor, HYPRLAND_BUFFERING, QUIRKS_NONE};
use vi_ime::engine::{assert_replay, compose_one, focus_stress_run, replay_session, type_and_commit, CompositionEngine, LoggedEngine};
use vi_ime::integration::{IntegrationHarness, MockDispatchError};
use vi_ime::replay::ReplaySession;
use vi_ime::stress::{pick_syllable, stress_seed, stress_verdict, syllable, Lcg, SYLLABLE_COUNT};
use vi_ime::types::{
    CompositionError, InputEvent, InputMethod, Key, Modifiers, PreeditText, StateTransition, TransitionResult,
};

/// A stand-in engine: characters accumulate in the preedit, Return and focus
/// loss commit it (a sticky engine keeps it on focus loss), `!` fails,
/// releases are consumed.
#[derive(Clone, Default)]
struct EchoEngine {
    preedit: String,
    events: Vec<InputEvent>,
    sticky: bool,
}

impl CompositionEngine for EchoEngine {
    fn answers(&self, event: InputEvent, t: TransitionResult) -> bool {
        let mut copy = self.clone();
        format!("{:?}", copy.process(&event)) == format!("{:?}", t)
    }

    fn preedit_view(&self) -> String {
        self.preedit.clone()
    }

    fn process(&mut self, event: &InputEvent) -> TransitionResult {
        self.events.push(*event);
        if self.sticky && matches!(event, InputEvent::FocusOut) {
            return Ok(StateTransition::Consumed);
        }
        match event {
            InputEvent::KeyDown(Key::Char('!'), _) => {
                Err(CompositionError { message: "bang".to_string() })
            }
            InputEvent::KeyDown(Key::Char(c), _) => {
                self.preedit.push(*c);
                Ok(StateTransition::PreeditUpdated(PreeditText {
                    text: self.preedit.clone(),
                    cursor_byte_offset: self.preedit.len(),
                }))
            }
            InputEvent::KeyDown(Key::Return, _) | InputEvent::FocusOut => {
                if self.preedit.is_empty() {
                    if matches!(event, InputEvent::FocusOut) {
                        Ok(StateTransition::Consumed)
                    } else {
                        Ok(StateTransition::PassThrough)
                    }
                } else {
                    Ok(StateTransition::CommitAndClear(std::mem::take(&mut self.preedit)))
                }
            }
            _ => Ok(StateTransition::Consumed),
        }
    }

    fn reset(&mut self) {
        self.preedit.clear();
    }

    fn preedit(&self) -> String {
        self.preedit.clone()
    }
}

fn down(c: char) -> InputEvent {
    InputEvent::KeyDown(Key::Char(c), Modifiers::none())
}

fn ret() -> InputEvent {
    InputEvent::KeyDown(Key::Return, Modifiers::none())
}

fn session(events: Vec<InputEvent>, expected: &[&str]) -> ReplaySession {
    ReplaySession {
        name: "s".to_string(),
        method: InputMethod::Telex,
        events,
        expected_commits: expected.iter().map(|s| s.to_string()).collect(),
    }
}

#[test]
fn replay_records_commits_and_sends_releases() {
    let mut e = LoggedEngine::new(EchoEngine::default());
    let s = session(vec![down('a'), down('b'), ret(), down('c'), ret()], &["ab", "c"]);
    assert_eq!(replay_session(&mut e, &s).unwrap(), vec!["ab".to_string(), "c".to_string()]);
    assert_eq!(e.engine().events[1], InputEvent::KeyUp(Key::Char('a')));
    assert_eq!(e.engine().events.len(), 8);
    let mut e2 = LoggedEngine::new(EchoEngine::default());
    assert!(assert_replay(&mut e2, &s));
    let mut e3 = LoggedEngine::new(EchoEngine::default());
    assert!(!assert_replay(&mut e3, &session(vec![down('a'), ret()], &["b"])));
}

#[test]
fn replay_stops_on_engine_failure() {
    let mut e = LoggedEngine::new(EchoEngine::default());
    let s = session(vec![down('a'), down('!'), ret()], &[]);
    assert_eq!(replay_session(&mut e, &s).unwrap_err().message, "bang");
}

#[test]
fn focus_stress_counts_one_commit_per_cycle() {
    let mut e = LoggedEngine::new(EchoEngine::default());
    assert_eq!(focus_stress_run(&mut e, 1_000), 1_000);
    assert_eq!(e.engine().events.len(), 3_000);
}

#[test]
fn focus_stress_stops_at_a_preedit_left_after_focus_loss() {
    let sticky = EchoEngine { sticky: true, ..EchoEngine::default() };
    let mut e = LoggedEngine::new(sticky);
    assert_eq!(focus_stress_run(&mut e, 10), 0);
    assert_eq!(e.engine().events.len(), 3);
    assert_eq!(e.preedit(), "a");
}

#[test]
fn typing_and_composing_commit_the_preedit() {
    let mut e = LoggedEngine::new(EchoEngine::default());
    assert_eq!(type_and_commit(&mut e, "viet").as_deref(), Some("viet"));
    assert_eq!(type_and_commit(&mut e, "").as_deref(), Some(""));
    assert_eq!(type_and_commit(&mut e, "a!"), None);
    let mut stale = EchoEngine::default();
    stale.preedit = "stale".to_string();
    let mut e2 = LoggedEngine::new(stale);
    assert_eq!(compose_one(&mut e2, "toi").as_deref(), Some("toi"));
    assert_eq!(compose_one(&mut e2, ""), None);
}

#[test]
fn drive_engine_applies_each_answer() {
    let mut e = LoggedEngine::new(EchoEngine::default());
    let mut c = MockCompositor::new(CompositorQuirks(QUIRKS_NONE));
    drive_engine(&mut e, &mut c, &[down('a'), ret()]);
    assert_eq!(c.committed, vec!["a".to_string()]);
    assert_eq!(c.preedit_history, vec!["a".to_string(), String::new()]);
    let mut e2 = LoggedEngine::new(EchoEngine::default());
    let mut h = MockCompositor::new(CompositorQuirks(HYPRLAND_BUFFERING));
    drive_engine(&mut e2, &mut h, &[down('x'), ret()]);
    assert_eq!(h.committed, vec!["x".to_string()]);
    assert_eq!(h.preedit_history, vec!["x".to_string()]);
}

#[test]
fn harness_records_answers_and_reports_preedit() {
    let mut h = IntegrationHarness::new(EchoEngine::default());
    h.send_event(&down('n')).unwrap();
    assert_eq!(h.preedit(), "n");
    h.send_event(&ret()).unwrap();
    assert_eq!(h.committed(), vec!["n".to_string()]);
    assert_eq!(h.backend.clears, 1);
    assert!(matches!(h.send_event(&down('!')), Err(MockDispatchError::Composition(m)) if m == "bang"));
}

#[test]
fn stress_helpers() {
    assert_eq!(SYLLABLE_COUNT, 26);
    assert_eq!(syllable(0), "toi");
    assert_eq!(syllable(25), "ddi");
    assert_eq!(stress_seed(0), 0xDEAD_BEEF);
    assert_eq!(stress_seed(1), 0xDEAD_BEEFu64.wrapping_add(0x9E37_79B9_7F4A_7C15));
    let mut rng = Lcg(stress_seed(0));
    let mut copy = Lcg(stress_seed(0));
    let expected = syllable(copy.next_usize(SYLLABLE_COUNT));
    assert_eq!(pick_syllable(&mut rng), expected);
    assert_eq!(rng.0, copy.0);
    let all = vec!["việt".to_string(), "a".to_string()];
    assert_eq!(stress_verdict(&all, true), Ok(None));
    assert_eq!(stress_verdict(&all, false), Ok(Some(2)));
    let bad = vec!["a".to_string(), "a\u{0300}".to_string()];
    assert_eq!(stress_verdict(&bad, false), Err(1));
}

#[test]
fn empty_session_replays_without_the_engine_deciding() {
    let mut e = LoggedEngine::new(EchoEngine::default());
    assert_eq!(replay_session(&mut e, &session(vec![], &[])).unwrap(), Vec::<String>::new());
    assert!(e.engine().events.is_empty());
    assert!(assert_replay(&mut e, &session(vec![], &[])));
    assert!(!assert_replay(&mut e, &session(vec![], &["a"])));
}
