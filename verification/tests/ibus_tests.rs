use vi_ime::ibus::{
    compute_forward_key_ops, give_up_message, is_modifier_keysym, map_ibus_state, map_keyval_to_key,
    ConnectBackoff, IBUS_CAP_PREEDIT_TEXT, IBUS_CAP_SURROUNDING_TEXT, IBUS_ENGINE_PREEDIT_COMMIT,
    MAX_CONNECT_ATTEMPTS,
};
use vi_ime::ibus_engine::{IbusCommitMode, IbusSignal, SharedState};
use vi_ime::types::{Key, PreeditText, StateTransition, TransitionResult};

/// The mode `set_capabilities` selects for `caps` on a fresh engine state.
fn mode_for_caps(caps: u32) -> &'static str {
    let mut s = SharedState::default_state();
    s.set_capabilities(caps);
    s.mode().as_str()
}

fn mode_for_config(force_preedit_mode: bool, force_chrome_direct: bool, caps: u32) -> &'static str {
    let mut s = SharedState::new(force_preedit_mode, force_chrome_direct, IbusCommitMode::Preedit);
    s.set_capabilities(caps);
    s.mode().as_str()
}

fn preedit(text: &str) -> TransitionResult {
    Ok(StateTransition::PreeditUpdated(PreeditText { text: text.to_string(), cursor_byte_offset: text.len() }))
}

// ── Constants and key mapping ─────────────────────────────────────────────────

#[test]
fn ibus_engine_preedit_commit_matches_system_header() {
    // `/usr/include/ibus-1.0/ibustypes.h`: IBUS_ENGINE_PREEDIT_COMMIT = 1
    assert_eq!(IBUS_ENGINE_PREEDIT_COMMIT, 1);
}

#[test]
fn map_keyval_special_keys() {
    assert_eq!(map_keyval_to_key(0xff08), Key::Backspace);
    assert_eq!(map_keyval_to_key(0xff0d), Key::Return);
    assert_eq!(map_keyval_to_key(0xff1b), Key::Escape);
    assert_eq!(map_keyval_to_key(0xff09), Key::Tab);
    assert_eq!(map_keyval_to_key(0x0100_1ED5), Key::Char('ổ'));
    assert_eq!(map_keyval_to_key(0x0100_D800), Key::Char('\0'));
    assert_eq!(map_keyval_to_key(0xfe52), Key::Keysym(0xfe52));
}

#[test]
fn map_ibus_state_ctrl_flag() {
    let mods = map_ibus_state(4);
    assert!(mods.ctrl);
    assert!(!mods.shift);
    assert!(!mods.alt);
}

#[test]
fn modifier_keysyms_are_detected() {
    assert!(is_modifier_keysym(0xffe3)); // Control_L
    assert!(is_modifier_keysym(0xffe1)); // Shift_L
    assert!(is_modifier_keysym(0xffe9)); // Alt_L
    assert!(!is_modifier_keysym(b'a' as u32));
    assert!(!is_modifier_keysym(0xff0d)); // Return is not a modifier
}

#[test]
fn backoff_delay_sequence_stays_within_bounds() {
    let max_delay = std::time::Duration::from_secs(30);
    let mut backoff = ConnectBackoff::new();
    for attempt in 1u32..MAX_CONNECT_ATTEMPTS {
        let delay = std::time::Duration::from_millis(backoff.delay_ms);
        let jittered = std::time::Duration::from_micros(backoff.record_failure().expect("not the last attempt"));
        assert_eq!(backoff.failures, attempt);
        assert!(jittered <= max_delay, "attempt {attempt}: jittered {jittered:?} exceeds cap");
        assert!(jittered >= delay, "attempt {attempt}: jittered {jittered:?} less than base {delay:?}");
    }
    assert!(backoff.record_failure().is_none(), "the last attempt gives up");
}

#[test]
fn connect_gives_up_with_message() {
    assert_eq!(give_up_message("no bus"), "ibus-daemon unreachable after 10 attempts: no bus");
}

// ── compute_forward_key_ops ───────────────────────────────────────────────────

#[test]
fn fk_simple_first_char() {
    assert_eq!(compute_forward_key_ops("", "a"), (0, "a".to_owned()));
}

#[test]
fn fk_append_char() {
    assert_eq!(compute_forward_key_ops("a", "ab"), (0, "b".to_owned()));
}

#[test]
fn fk_rule_fires_oo_to_o_circ() {
    assert_eq!(compute_forward_key_ops("to", "tô"), (1, "ô".to_owned()));
}

#[test]
fn fk_backspace_shrinks_preedit() {
    assert_eq!(compute_forward_key_ops("ab", "a"), (1, String::new()));
}

#[test]
fn fk_escape_clears_all() {
    assert_eq!(compute_forward_key_ops("tôi", ""), (3, String::new()));
}

#[test]
fn fk_no_change() {
    assert_eq!(compute_forward_key_ops("a", "a"), (0, String::new()));
}

#[test]
fn fk_complete_replacement() {
    assert_eq!(compute_forward_key_ops("ow", "ơ"), (2, "ơ".to_owned()));
}

// ── set_capabilities ──────────────────────────────────────────────────────────

#[test]
fn use_forward_key_defaults_to_false() {
    let s = SharedState::default_state();
    assert!(!s.use_forward_key, "forward-key must not be the default");
    assert!(!s.use_surrounding_commit);
}

#[test]
fn surrounding_only_caps_policy_never_auto_surrounding_commit() {
    let caps_surrounding_only: u32 = IBUS_CAP_SURROUNDING_TEXT;
    let has_preedit = (caps_surrounding_only & IBUS_CAP_PREEDIT_TEXT) != 0;
    let has_surrounding = (caps_surrounding_only & IBUS_CAP_SURROUNDING_TEXT) != 0;
    let naive_would_select = !has_preedit && has_surrounding;
    assert!(naive_would_select, "sanity check of naive formula");
    assert!(!has_preedit);
    let mut s = SharedState::default_state();
    s.set_capabilities(caps_surrounding_only);
    assert!(!s.use_surrounding_commit);
}

#[test]
fn preedit_app_uses_pure_preedit_mode() {
    let mut s = SharedState::default_state();
    s.set_capabilities(IBUS_CAP_PREEDIT_TEXT);
    assert!(!s.use_surrounding_commit, "preedit app must not use surrounding-commit");
    assert!(!s.use_forward_key, "preedit app must not use forward-key");
    assert!(!s.chrome_direct_mode, "preedit app must use pure preedit mode");
}

#[test]
fn preedit_and_surrounding_app_uses_preedit_mode() {
    let mut s = SharedState::default_state();
    s.set_capabilities(IBUS_CAP_PREEDIT_TEXT | IBUS_CAP_SURROUNDING_TEXT);
    assert!(!s.use_surrounding_commit, "app with preedit must NOT use surrounding-commit");
    assert!(!s.use_forward_key);
}

#[test]
fn chrome_direct_mode_preedit_cursor_pos() {
    let mut s = SharedState::new(false, true, IbusCommitMode::Preedit);
    s.set_capabilities(IBUS_CAP_PREEDIT_TEXT);
    for (text, expected) in [("vi", 2u32), ("việt", 4), ("tô", 2)] {
        let start = s.begin_dispatch(&preedit(text), &Key::Char('x'));
        let last = start.step.signals.last().unwrap();
        assert!(matches!(last, IbusSignal::UpdatePreeditText { cursor_pos, .. } if *cursor_pos == expected),
            "{text:?}: cursor_pos must be the char count");
        assert_eq!(s.shadow_buf, text);
    }
}

#[test]
fn set_capabilities_never_selects_forward_key_or_surrounding_commit() {
    for caps in [
        0u32,
        IBUS_CAP_PREEDIT_TEXT,
        IBUS_CAP_SURROUNDING_TEXT,
        IBUS_CAP_PREEDIT_TEXT | IBUS_CAP_SURROUNDING_TEXT,
    ] {
        let mut s = SharedState::default_state();
        s.set_capabilities(caps);
        assert!(!s.use_surrounding_commit, "caps={caps:#x}");
        assert!(!s.use_forward_key, "caps={caps:#x}");
    }
}

#[test]
fn cursor_pos_is_char_count_not_byte_count() {
    let text = "ổ";
    let mut s = SharedState::default_state();
    let start = s.begin_dispatch(&preedit(text), &Key::Char('o'));
    assert!(matches!(&start.step.signals[0], IbusSignal::UpdatePreeditText { cursor_pos: 1, .. }),
        "Vietnamese NFC char must count as 1 for cursor_pos");
    assert!(text.len() > 1, "NFC Vietnamese char is multi-byte in UTF-8");
    let start = s.begin_dispatch(&preedit("việt"), &Key::Char('t'));
    assert!(matches!(&start.step.signals[0], IbusSignal::UpdatePreeditText { cursor_pos: 4, .. }));
}

#[test]
fn surrounding_commit_full_replace_sequence() {
    let mut s = SharedState::default_state();
    s.use_surrounding_commit = true;
    s.shadow_buf = "ao".to_string();
    let start = s.begin_dispatch(&preedit("aô"), &Key::Char('o'));
    // Signal 1: DeleteSurroundingText(-2, 2)
    assert_eq!(start.step.signals.len(), 1);
    assert!(matches!(start.step.signals[0], IbusSignal::DeleteSurroundingText { offset: -2, n_chars: 2 }),
        "delete offset must be -(shadow char count)");
    // Signal 2: CommitText("aô") once the delete went through.
    let step = s.resume_dispatch(start.step.next, true);
    assert_eq!(step.signals.len(), 1);
    assert!(matches!(&step.signals[0], IbusSignal::CommitText(t) if t == "aô"),
        "committed text must be the full new_preedit");
    let done = s.resume_dispatch(step.next, true);
    assert!(done.signals.is_empty());
    assert_eq!(s.shadow_buf, "aô", "shadow_buf must become new_preedit on success");
}

#[test]
fn chrome_direct_mode_sequence() {
    let cases = [("tô", 2u32), ("tôi", 3), ("t", 1), ("", 0)];
    let mut s = SharedState::new(false, true, IbusCommitMode::Preedit);
    s.set_capabilities(IBUS_CAP_PREEDIT_TEXT);
    for (new_preedit, expected_cursor_pos) in cases {
        let start = s.begin_dispatch(&preedit(new_preedit), &Key::Char('x'));
        assert!(!start.step.signals.iter().any(|x| matches!(x, IbusSignal::ForwardKeyEvent { .. })),
            "no BackSpace is sent in chrome-direct mode");
        let last = start.step.signals.last().unwrap();
        assert!(matches!(last, IbusSignal::UpdatePreeditText { text, cursor_pos, visible: true, .. }
            if text == new_preedit && *cursor_pos == expected_cursor_pos),
            "new_preedit={new_preedit:?}: cursor_pos must be Unicode char count");
    }
}

// ── Integration: capability flags and backoff ────────────────────────────────

#[test]
fn test_ibus_capability_surrounding_text_flag() {
    let caps: u32 = IBUS_CAP_SURROUNDING_TEXT | 0x07;
    assert!(caps & IBUS_CAP_SURROUNDING_TEXT != 0);
    let caps_no_surrounding: u32 = 0x07;
    assert!(caps_no_surrounding & IBUS_CAP_SURROUNDING_TEXT == 0);
    assert_eq!(IBUS_CAP_SURROUNDING_TEXT, 1 << 5);
}

#[test]
fn test_ibus_preedit_commit_mode_constant() {
    assert_eq!(IBUS_ENGINE_PREEDIT_COMMIT, 1, "must match ibustypes.h IBUS_ENGINE_PREEDIT_COMMIT");
}

#[test]
fn test_preedit_caps_never_auto_enable_chrome_direct() {
    for caps in [IBUS_CAP_PREEDIT_TEXT, IBUS_CAP_PREEDIT_TEXT | IBUS_CAP_SURROUNDING_TEXT] {
        let mut s = SharedState::default_state();
        s.set_capabilities(caps);
        assert!(!s.chrome_direct_mode, "caps={caps:#x}: chrome_direct must be off unless force_chrome_direct");
        assert!(!s.use_surrounding_commit, "caps={caps:#x}");
        assert!(!s.use_forward_key, "caps={caps:#x}");
    }
}

#[test]
fn test_ibus_reconnect_backoff_caps_at_30s() {
    let mut b = vi_ime::daemon::ReconnectBackoff::new();
    for _ in 0..20 {
        b.record(false);
    }
    assert_eq!(std::time::Duration::from_millis(b.delay_ms), std::time::Duration::from_secs(30), "delay must cap at 30 s");
}

// ── chrome_direct shadow buffer on Backspace pass-through ────────────────────

fn chrome_state(shadow: &str) -> SharedState {
    let mut s = SharedState::new(false, true, IbusCommitMode::Preedit);
    s.set_capabilities(IBUS_CAP_PREEDIT_TEXT);
    s.shadow_buf = shadow.to_string();
    s
}

#[test]
fn test_chrome_direct_shadow_buf_backspace_passthrough_desync() {
    let mut s = chrome_state("nữa");
    assert_eq!(s.shadow_buf.chars().count(), 3, "initial: 3 chars");
    let start = s.begin_dispatch(&Ok(StateTransition::PassThrough), &Key::Backspace);
    assert!(!start.consumed);
    assert_eq!(s.shadow_buf, "nữ", "after Backspace PassThrough: last char removed");
    assert_eq!(s.shadow_buf.chars().count(), 2);
    let next_preedit = "nữab";
    let backspaces_needed = s.shadow_buf.chars().count();
    assert_eq!(backspaces_needed, 2, "must send exactly 2 BackSpaces (shadow_buf len after trim), not 3");
    s.begin_dispatch(&preedit(next_preedit), &Key::Char('b'));
    assert_eq!(s.shadow_buf, "nữab");
}

#[test]
fn test_chrome_direct_shadow_buf_trim_ascii() {
    let mut s = chrome_state("abc");
    s.begin_dispatch(&Ok(StateTransition::PassThrough), &Key::Backspace);
    assert_eq!(s.shadow_buf, "ab");
}

#[test]
fn test_chrome_direct_shadow_buf_trim_single_char() {
    let mut s = chrome_state("ữ");
    s.begin_dispatch(&Ok(StateTransition::PassThrough), &Key::Backspace);
    assert!(s.shadow_buf.is_empty());
}

// ── Mode selection ───────────────────────────────────────────────────────────

#[test]
fn test_force_preedit_mode_suppresses_force_chrome_direct() {
    assert_eq!(mode_for_config(false, false, 1), "preedit");
    assert_eq!(mode_for_config(false, true, 1), "chrome_direct");
    assert_eq!(mode_for_config(true, true, 1), "preedit");
    assert_eq!(mode_for_config(true, false, 1), "preedit");
}

#[test]
fn test_set_capabilities_preedit_text_only_selects_preedit_mode() {
    let caps = IBUS_CAP_PREEDIT_TEXT;
    let mut s = SharedState::default_state();
    s.set_capabilities(caps);
    assert!(!s.use_surrounding_commit);
    assert!(!s.use_forward_key);
    assert!(!s.chrome_direct_mode);
    assert!(caps & IBUS_CAP_PREEDIT_TEXT != 0);
}

#[test]
fn test_set_capabilities_surrounding_only_stays_on_plain_preedit() {
    let caps = IBUS_CAP_SURROUNDING_TEXT;
    let naive_surrounding_commit = {
        let has_preedit = (caps & IBUS_CAP_PREEDIT_TEXT) != 0;
        let has_surrounding = (caps & IBUS_CAP_SURROUNDING_TEXT) != 0;
        !has_preedit && has_surrounding
    };
    assert!(naive_surrounding_commit, "naive formula would pick surrounding-commit");
    let mut s = SharedState::default_state();
    s.set_capabilities(caps);
    assert!(!s.use_surrounding_commit);
    assert!(!s.use_forward_key);
    assert!(!s.chrome_direct_mode);
}

#[test]
fn test_set_capabilities_force_chrome_direct_override() {
    for caps in [
        0u32,
        IBUS_CAP_PREEDIT_TEXT,
        IBUS_CAP_SURROUNDING_TEXT,
        IBUS_CAP_PREEDIT_TEXT | IBUS_CAP_SURROUNDING_TEXT,
        0x02,
    ] {
        let mut s = SharedState::new(false, true, IbusCommitMode::Preedit);
        s.set_capabilities(caps);
        assert!(s.chrome_direct_mode, "caps={caps:#x}: force_chrome_direct must win");
        assert!(!s.use_surrounding_commit, "caps={caps:#x}");
        assert!(!s.use_forward_key, "caps={caps:#x}");
    }
}

#[test]
fn chrome_direct_hide_only_on_clear() {
    // Chrome-direct dispatch with an empty preedit.
    let mut s = chrome_state("tôi");
    let start = s.begin_dispatch(&preedit(""), &Key::Escape);
    let signals = start.step.signals;
    let hide_pos = signals.iter().position(|x| matches!(x, IbusSignal::HidePreeditText))
        .expect("empty preedit must emit HidePreeditText");
    let update_pos = signals.iter().position(|x| matches!(x, IbusSignal::UpdatePreeditText { .. })).unwrap();
    assert!(hide_pos < update_pos, "HidePreeditText must precede UpdatePreeditText on empty preedit");
    assert_eq!(s.shadow_buf, "", "shadow_buf must be cleared after empty-preedit dispatch");

    // Non-empty preedit: no hide.
    let start = s.begin_dispatch(&preedit("t"), &Key::Char('t'));
    assert!(!start.step.signals.iter().any(|x| matches!(x, IbusSignal::HidePreeditText)));

    // Cleared in preedit/chrome_direct mode emits exactly HidePreeditText.
    let start = s.begin_dispatch(&Ok(StateTransition::Cleared), &Key::Escape);
    assert_eq!(start.step.signals.len(), 1);
    assert!(matches!(start.step.signals[0], IbusSignal::HidePreeditText),
        "Cleared in preedit/chrome_direct mode must emit HidePreeditText");
}

// ── Preedit per keystroke: every client gets preedit ─────────────────────────

#[test]
fn preedit_selected_for_caps_zero() {
    assert_eq!(mode_for_caps(0x00), "preedit", "caps=0x00 must select preedit mode");
}

#[test]
fn preedit_selected_for_caps_preedit_only() {
    assert_eq!(mode_for_caps(IBUS_CAP_PREEDIT_TEXT), "preedit", "caps=IBUS_CAP_PREEDIT_TEXT must select preedit mode");
}

#[test]
fn preedit_selected_for_caps_gnome_x11() {
    let caps = IBUS_CAP_PREEDIT_TEXT | 0x08; // 9 = PREEDIT | FOCUS
    assert_eq!(mode_for_caps(caps), "preedit", "caps=0x09 (GNOME X11 / Telegram) must select preedit mode");
}

#[test]
fn caps_surrounding_selects_preedit_mode() {
    for caps in [IBUS_CAP_SURROUNDING_TEXT, IBUS_CAP_PREEDIT_TEXT | IBUS_CAP_SURROUNDING_TEXT] {
        assert_eq!(mode_for_caps(caps), "preedit", "caps={caps:#x} (has SURROUNDING_TEXT) must select preedit mode");
    }
}

#[test]
fn caps_chrome_vscode_selects_preedit() {
    let caps = IBUS_CAP_PREEDIT_TEXT | IBUS_CAP_SURROUNDING_TEXT; // 0x21
    let mode = mode_for_caps(caps);
    assert_ne!(mode, "surrounding_commit", "caps={caps:#x} must NOT select surrounding_commit");
    assert_ne!(mode, "forward_key", "caps={caps:#x} must NOT select forward_key");
    assert_eq!(mode, "preedit", "caps={caps:#x} must select preedit mode");
}

#[test]
fn caps_zero_selects_preedit() {
    let mode = mode_for_caps(0x00);
    assert_ne!(mode, "forward_key", "caps=0x00 must NOT select forward_key");
    assert_ne!(mode, "surrounding_commit", "caps=0x00 must NOT select surrounding_commit");
    assert_eq!(mode, "preedit");
}

#[test]
fn backspace_commit_mode_from_config() {
    let mut s = SharedState::new(false, false, IbusCommitMode::BackspaceCommit);
    s.set_capabilities(IBUS_CAP_PREEDIT_TEXT);
    assert_eq!(s.mode().as_str(), "backspace_commit");
    s.shadow_buf = "to".to_string();
    let start = s.begin_dispatch(&preedit("tô"), &Key::Char('o'));
    assert_eq!(start.step.signals.len(), 3);
    assert!(matches!(start.step.signals[0], IbusSignal::ForwardKeyEvent { keyval: 0xff08, .. }));
    assert!(matches!(&start.step.signals[2], IbusSignal::CommitText(t) if t == "tô"));
    assert_eq!(s.shadow_buf, "tô");
}

// ── Key mapping shared with the Fcitx5 addon, and engine registration ───────

#[test]
fn special_keys_map_correctly() {
    assert_eq!(map_keyval_to_key(0xff08), Key::Backspace);
    assert_eq!(map_keyval_to_key(0xff0d), Key::Return);
    assert_eq!(map_keyval_to_key(0xff1b), Key::Escape);
    assert_eq!(map_keyval_to_key(0xff09), Key::Tab);
}

#[test]
fn ctrl_keyval_passes_through() {
    let mods = map_ibus_state(4);
    assert!(mods.ctrl);
}

#[test]
fn test_fcitx5_input_event_passthrough() {
    fn to_fcitx(event: &vi_ime::types::InputEvent) -> (u32, u32, u32, bool) {
        match event {
            vi_ime::types::InputEvent::KeyDown(_, _) | vi_ime::types::InputEvent::KeyRepeat(_, _) => {
                ('a' as u32, 0, 0, false)
            }
            vi_ime::types::InputEvent::KeyUp(_) => (0, 0, 0, true),
            _ => (0, 0, 0, false),
        }
    }
    let up = vi_ime::types::InputEvent::KeyUp(Key::Char('a'));
    let (_, _, _, is_release) = to_fcitx(&up);
    assert!(is_release);
    let down = vi_ime::types::InputEvent::KeyDown(Key::Char('a'), vi_ime::types::Modifiers::none());
    let (_, _, _, is_release) = to_fcitx(&down);
    assert!(!is_release);
}

#[test]
fn test_no_duplicate_engine_on_reconnect() {
    let engine_path: &str = vi_ime::ibus::ENGINE_PATH;
    let mut registered: Vec<&str> = Vec::new();
    let connect = |registered: &mut Vec<&str>| {
        registered.retain(|p| *p != engine_path);
        registered.push(engine_path);
    };
    for _ in 0..5 {
        connect(&mut registered);
    }
    let count = registered.iter().filter(|p| **p == engine_path).count();
    assert_eq!(count, 1, "reconnect must not produce duplicate engine registrations");
    assert_eq!(engine_path, "/org/freedesktop/IBus/Engine/Vi");
}

// ── Dispatch per mode ─────────────────────────────────────────────────────────

#[test]
fn forward_key_mode_retypes_after_common_prefix() {
    let mut s = SharedState::default_state();
    s.use_forward_key = true;
    s.shadow_buf = "to".to_string();
    let start = s.begin_dispatch(&preedit("tô"), &Key::Char('o'));
    assert!(start.consumed);
    assert_eq!(start.step.signals.len(), 2);
    assert!(matches!(start.step.signals[0], IbusSignal::ForwardKeyEvent { keyval: 0xff08, keycode: 0, modifiers: 0 }));
    assert!(matches!(start.step.signals[1], IbusSignal::ForwardKeyEvent { keyval: 0xf4, keycode: 0, modifiers: 0 }));
    let done = s.resume_dispatch(start.step.next, true);
    assert!(done.signals.is_empty());
    assert_eq!(s.shadow_buf, "tô");
    let mut failed = SharedState::default_state();
    failed.use_forward_key = true;
    failed.shadow_buf = "to".to_string();
    let start = failed.begin_dispatch(&preedit("tô"), &Key::Char('o'));
    failed.resume_dispatch(start.step.next, false);
    assert_eq!(failed.shadow_buf, "to");
}

#[test]
fn preedit_mode_emits_one_update_per_keystroke() {
    let mut s = SharedState::default_state();
    s.set_capabilities(IBUS_CAP_PREEDIT_TEXT | IBUS_CAP_SURROUNDING_TEXT);
    for (p, n) in [("t", 1u32), ("to", 2), ("tô", 2), ("tôi", 3)] {
        let start = s.begin_dispatch(&preedit(p), &Key::Char('x'));
        assert!(start.consumed);
        assert_eq!(start.step.signals.len(), 1);
        assert!(matches!(&start.step.signals[0],
            IbusSignal::UpdatePreeditText { text, cursor_pos, visible: true, mode } if text == p && *cursor_pos == n && *mode == IBUS_ENGINE_PREEDIT_COMMIT));
    }
    let commit = s.begin_dispatch(&Ok(StateTransition::CommitAndClear("tôi".to_string())), &Key::Char(' '));
    assert!(matches!(&commit.step.signals[0], IbusSignal::CommitText(t) if t == "tôi"));
    assert!(matches!(commit.step.signals[1], IbusSignal::HidePreeditText));
}
