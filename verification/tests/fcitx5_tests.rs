use vi_ime::fcitx5::{
    compute_preedit_delta, engine_socket_path, event_to_xkb, format_response, hex_encode,
    key_to_xkb, map_fcitx5_key, mods_to_xkb, parse_shim_request, parse_u32, shim_capabilities,
    shim_engine_event, shim_response, soft_preedit_diff, split_ascii_words,
    state_transition_to_ops, DeltaOp, ShimRequest,
};
use std::sync::{Arc, Mutex};
use vi_ime::daemon::ReconnectBackoff;
use vi_ime::platform::SurroundingText;
use vi_ime::types::{
    CompositionError, InputEvent, Key, Modifiers, PreeditText, StateTransition,
};

// ── compute_preedit_delta ────────────────────────────────────────────────────

#[test]
fn test_update_preedit_delta_append() {
    let ops = compute_preedit_delta("nh", "nha");
    assert_eq!(ops, vec![DeltaOp::Insert('a')]);
}

#[test]
fn test_update_preedit_delta_rule_fired() {
    // Telex "oo" → "ô": 2 backspaces + insert 'ô'.
    let ops = compute_preedit_delta("oo", "ô");
    assert_eq!(
        ops,
        vec![DeltaOp::Backspace, DeltaOp::Backspace, DeltaOp::Insert('ô')]
    );
}

#[test]
fn test_update_preedit_delta_backspace() {
    let ops = compute_preedit_delta("nha", "nh");
    assert_eq!(ops, vec![DeltaOp::Backspace]);
}

#[test]
fn preedit_delta_identical_is_empty() {
    assert!(compute_preedit_delta("việt", "việt").is_empty());
    assert_eq!(compute_preedit_delta("", "ab"), vec![DeltaOp::Insert('a'), DeltaOp::Insert('b')]);
}

// ── soft_preedit_diff ────────────────────────────────────────────────────────

#[test]
fn soft_preedit_diff_same() {
    assert_eq!(soft_preedit_diff("abc", "abc"), (0, String::new()));
}

#[test]
fn soft_preedit_diff_insert_only() {
    assert_eq!(soft_preedit_diff("nh", "nha"), (0, "a".to_string()));
}

#[test]
fn soft_preedit_diff_backspace_only() {
    assert_eq!(soft_preedit_diff("nha", "nh"), (1, String::new()));
}

#[test]
fn soft_preedit_diff_middle_changed() {
    assert_eq!(soft_preedit_diff("abc", "abd"), (1, "d".to_string()));
}

#[test]
fn soft_preedit_diff_multibyte() {
    assert_eq!(soft_preedit_diff("to", "tô"), (1, "ô".to_string()));
}

// ── Key mapping ──────────────────────────────────────────────────────────────

#[test]
fn ctrl_c_is_not_consumed() {
    assert!(map_fcitx5_key(0x63, 4, false).is_none());
}

#[test]
fn key_release_is_not_consumed() {
    assert!(map_fcitx5_key(b'a' as u32, 0, true).is_none());
}

#[test]
fn modifier_keysym_is_not_consumed() {
    assert!(map_fcitx5_key(0xffe3, 0, false).is_none()); // Control_L
}

#[test]
fn plain_char_produces_key_down() {
    let event = map_fcitx5_key(b'a' as u32, 0, false).unwrap();
    assert_eq!(event, InputEvent::KeyDown(Key::Char('a'), Modifiers::none()));
}

#[test]
fn test_fcitx5_forward_key_maps_to_input_event() {
    let event = map_fcitx5_key(b'a' as u32, 0, false).expect("'a' must produce event");
    assert_eq!(event, InputEvent::KeyDown(Key::Char('a'), Modifiers::none()));
    assert!(map_fcitx5_key(b'a' as u32, 0, true).is_none(), "key-up must be None");
    assert!(map_fcitx5_key(b'c' as u32, 4, false).is_none(), "ctrl+c must be None");
}

#[test]
fn test_fcitx5_key_to_xkb_basic() {
    assert_eq!(key_to_xkb(&Key::Backspace), 0xff08);
    assert_eq!(key_to_xkb(&Key::Return), 0xff0d);
    assert_eq!(key_to_xkb(&Key::Char('a')), 'a' as u32);
    assert_eq!(key_to_xkb(&Key::Keysym(0x1234)), 0x1234);
    assert_eq!(key_to_xkb(&Key::DeadKey('^')), 0);
    assert_eq!(key_to_xkb(&Key::Char('ô')), 0xf4);
}

#[test]
fn test_fcitx5_mods_to_xkb() {
    let ctrl_shift = Modifiers { shift: true, ctrl: true, ..Modifiers::none() };
    assert_eq!(mods_to_xkb(&ctrl_shift), 1 | 4);
    let alt = Modifiers { alt: true, ..Modifiers::none() };
    assert_eq!(mods_to_xkb(&alt), 8);
    assert_eq!(mods_to_xkb(&Modifiers::none()), 0);
    let sup = Modifiers { super_key: true, altgr: true, ..Modifiers::none() };
    assert_eq!(mods_to_xkb(&sup), 1 << 26);
}

#[test]
fn event_to_xkb_variants() {
    assert_eq!(event_to_xkb(&InputEvent::KeyDown(Key::Char(' '), Modifiers::none())), (32, 0, 0));
    assert_eq!(event_to_xkb(&InputEvent::KeyUp(Key::Return)), (0xff0d, 0, 0));
    assert_eq!(event_to_xkb(&InputEvent::FocusIn), (0, 0, 0));
}

// ── Capabilities ─────────────────────────────────────────────────────────────

#[test]
fn test_fcitx5_capability_flags() {
    const FCITX5_CAP_SURROUNDING_TEXT: u64 = 1 << 2;
    const FCITX5_CAP_PREEDIT: u64 = 1 << 6;

    let caps = FCITX5_CAP_SURROUNDING_TEXT | FCITX5_CAP_PREEDIT;
    assert!(caps & FCITX5_CAP_SURROUNDING_TEXT != 0);
    assert!(caps & FCITX5_CAP_PREEDIT != 0);
}

#[test]
fn test_fcitx5_capability_flag_values() {
    const CAP_SURROUNDING_TEXT: u64 = 1 << 2;
    const CAP_PREEDIT: u64 = 1 << 6;
    let full = CAP_SURROUNDING_TEXT | CAP_PREEDIT;
    assert_eq!(full & CAP_SURROUNDING_TEXT, CAP_SURROUNDING_TEXT);
    assert_eq!(full & CAP_PREEDIT, CAP_PREEDIT);
    assert_eq!(CAP_PREEDIT & CAP_SURROUNDING_TEXT, 0);
}

#[test]
fn shim_backend_capabilities() {
    let c = shim_capabilities();
    assert!(c.preedit && !c.surrounding_text && c.lookup_table);
}

/// InputContextDeactivated must commit buffered text so the user does not lose
/// a mid-word composition when focus leaves the application.
#[test]
fn test_fcitx5_deactivate_commits_nonempty_buffer() {
    let mut preedit_cache = "nước".to_string();
    let mut committed: Vec<String> = Vec::new();

    let on_deactivate = |cache: &mut String, committed: &mut Vec<String>| {
        if !cache.is_empty() {
            committed.push(cache.clone());
            cache.clear();
        }
    };

    on_deactivate(&mut preedit_cache, &mut committed);

    assert!(preedit_cache.is_empty(), "preedit cache must be cleared");
    assert_eq!(committed, vec!["nước"], "non-empty preedit must be committed on deactivation");
}

/// InputContextDeactivated with an empty buffer must be a no-op.
#[test]
fn test_fcitx5_deactivate_discards_empty_buffer() {
    let mut preedit_cache = String::new();
    let mut committed: Vec<String> = Vec::new();

    let on_deactivate = |cache: &mut String, committed: &mut Vec<String>| {
        if !cache.is_empty() {
            committed.push(cache.clone());
            cache.clear();
        }
    };

    on_deactivate(&mut preedit_cache, &mut committed);

    assert!(preedit_cache.is_empty());
    assert!(committed.is_empty(), "empty buffer must not produce a commit");
}

/// DeleteSurroundingText signal handling: surrounding text cache must be cleared.
#[test]
fn test_fcitx5_delete_surrounding_clears_cache() {

    #[derive(Default)]
    struct State {
        surrounding: Option<SurroundingText>,
    }

    let state = Arc::new(Mutex::new(State {
        surrounding: Some(SurroundingText {
            text: "hello world".into(),
            cursor_pos: 5,
            anchor_pos: 5,
        }),
    }));

    let on_delete = |state: &Arc<Mutex<State>>| {
        state.lock().unwrap().surrounding = None;
    };

    on_delete(&state);
    assert!(
        state.lock().unwrap().surrounding.is_none(),
        "DeleteSurroundingText must clear surrounding text cache"
    );
}

/// UpdateFormattedPreedit signal handling: concatenate all text segments.
#[test]
fn test_fcitx5_update_formatted_preedit_extracts_text() {
    let preedit_items: Vec<(String, u32)> = vec![
        ("vi".to_owned(), 0),
        ("ệ".to_owned(), 1),
        ("t".to_owned(), 0),
    ];
    let combined: String = preedit_items.iter().map(|(s, _)| s.as_str()).collect();
    assert_eq!(combined, "việt");
}

/// Reconnect backoff: delay doubles each attempt, caps at 30 s.
#[test]
fn test_fcitx5_reconnect_backoff_sequence() {
    let mut backoff = ReconnectBackoff::new();
    let steps: Vec<u64> = (0..10)
        .map(|_| {
            let ms = backoff.delay_ms;
            backoff.record(false);
            ms
        })
        .collect();
    assert_eq!(steps[0], 100);
    assert_eq!(steps[1], 200);
    assert_eq!(steps[9], 30_000);
}

// ── Protocol ─────────────────────────────────────────────────────────────────

#[test]
fn hex_encoding_of_utf8() {
    assert_eq!(hex_encode("t"), "74");
    assert_eq!(hex_encode("tô"), "74c3b4");
    assert_eq!(hex_encode(""), "");
}

#[test]
fn format_response_lines() {
    assert_eq!(format_response(true, vec![]), "RESULT 1 0");
    assert_eq!(format_response(false, vec![]), "RESULT 0 0");
    assert_eq!(
        format_response(true, vec!["OP CLEAR".to_string(), "OP COMMIT 61".to_string()]),
        "RESULT 1 2\nOP CLEAR\nOP COMMIT 61"
    );
}

#[test]
fn transition_ops() {
    let p = PreeditText { text: "tô".to_string(), cursor_byte_offset: 3 };
    assert_eq!(
        state_transition_to_ops(&StateTransition::PreeditUpdated(p.clone()), None),
        vec![format!("OP PREEDIT 2 {}", hex_encode("tô"))]
    );
    let space = InputEvent::KeyDown(Key::Char(' '), Modifiers::none());
    assert_eq!(
        state_transition_to_ops(&StateTransition::CommitThenPassThrough("tôi".to_string()), Some(&space)),
        vec![format!("OP COMMIT {}", hex_encode("tôi")), "OP FWDKEY 32 0 0".to_string()]
    );
    assert_eq!(
        state_transition_to_ops(&StateTransition::CommitThenPassThrough("tôi".to_string()), None),
        vec![format!("OP COMMIT {}", hex_encode("tôi"))]
    );
    assert_eq!(state_transition_to_ops(&StateTransition::Cleared, None), vec!["OP CLEAR".to_string()]);
    assert!(state_transition_to_ops(&StateTransition::Consumed, None).is_empty());
}

#[test]
fn words_and_numbers() {
    assert_eq!(split_ascii_words("  KEY 116\t0  0 \n"), vec!["KEY", "116", "0", "0"]);
    assert!(split_ascii_words(" \t ").is_empty());
    assert_eq!(parse_u32("116"), Some(116));
    assert_eq!(parse_u32("+7"), Some(7));
    assert_eq!(parse_u32("007"), Some(7));
    assert_eq!(parse_u32("4294967295"), Some(u32::MAX));
    assert_eq!(parse_u32("4294967296"), None);
    assert_eq!(parse_u32("-1"), None);
    assert_eq!(parse_u32("+"), None);
    assert_eq!(parse_u32(""), None);
    assert_eq!(parse_u32("1a"), None);
}

#[test]
fn request_parsing() {
    assert_eq!(parse_shim_request("ACTIVATE 3"), ShimRequest::Activate);
    assert_eq!(parse_shim_request("DEACTIVATE 3"), ShimRequest::Deactivate);
    assert_eq!(parse_shim_request("KEYUP 111"), ShimRequest::KeyUp { keyval: 111 });
    assert_eq!(
        parse_shim_request("KEY 116 28 1 0"),
        ShimRequest::Key { keyval: 116, keycode: 28, state: 1 }
    );
    assert_eq!(parse_shim_request("KEY x"), ShimRequest::Key { keyval: 0, keycode: 0, state: 0 });
    assert_eq!(parse_shim_request("HELLO"), ShimRequest::Unknown);
    assert_eq!(parse_shim_request(""), ShimRequest::Unknown);
    assert_eq!(parse_shim_request("key 1"), ShimRequest::Unknown);
}

#[test]
fn shim_round_trip_for_keys() {
    let req = parse_shim_request("KEY 116 0 0 0");
    let ev = shim_engine_event(&req).unwrap();
    assert_eq!(ev, InputEvent::KeyDown(Key::Char('t'), Modifiers::none()));
    let outcome = Ok(StateTransition::PreeditUpdated(PreeditText { text: "t".to_string(), cursor_byte_offset: 1 }));
    let reply = shim_response(&req, Some(outcome));
    assert_eq!(reply.text, format!("RESULT 1 1\nOP PREEDIT 1 {}", hex_encode("t")));
    assert!(!reply.reset_engine);

    let req = parse_shim_request("KEY 32 0 0 4");
    let reply = shim_response(&req, Some(Ok(StateTransition::CommitThenPassThrough("tôi".to_string()))));
    assert_eq!(reply.text, format!("RESULT 1 2\nOP COMMIT {}\nOP FWDKEY 32 0 0", hex_encode("tôi")));

    let reply = shim_response(&req, Some(Ok(StateTransition::PassThrough)));
    assert_eq!(reply.text, "RESULT 0 0");

    let reply = shim_response(&req, Some(Err(CompositionError { message: "bad".to_string() })));
    assert_eq!(reply.text, "RESULT 0 0");
    assert!(reply.reset_engine);

    let ctrl = parse_shim_request("KEY 99 0 4 0");
    assert!(shim_engine_event(&ctrl).is_none());
    assert_eq!(shim_response(&ctrl, None).text, "RESULT 0 0");
}

#[test]
fn shim_focus_requests() {
    let act = parse_shim_request("ACTIVATE 1");
    assert_eq!(shim_engine_event(&act), Some(InputEvent::FocusIn));
    assert_eq!(shim_response(&act, Some(Ok(StateTransition::Consumed))).text, "RESULT 1 0");
    let deact = parse_shim_request("DEACTIVATE 1");
    assert_eq!(shim_engine_event(&deact), Some(InputEvent::FocusOut));
    assert_eq!(
        shim_response(&deact, Some(Ok(StateTransition::CommitAndClear("nước".to_string())))).text,
        format!("RESULT 1 1\nOP COMMIT {}", hex_encode("nước"))
    );
    assert_eq!(shim_response(&deact, None).text, "RESULT 1 0");
    let up = parse_shim_request("KEYUP 111");
    assert_eq!(shim_engine_event(&up), Some(InputEvent::KeyUp(Key::Char('o'))));
    assert_eq!(shim_response(&up, Some(Ok(StateTransition::Consumed))).text, "RESULT 0 0");
}

#[test]
fn socket_path_choices() {
    assert_eq!(engine_socket_path(Some("/data"), Some("/home/u")), "/data/vi-ime/engine.sock");
    assert_eq!(engine_socket_path(None, Some("/home/u")), "/home/u/.local/share/vi-ime/engine.sock");
    assert_eq!(engine_socket_path(None, None), "/tmp/.local/share/vi-ime/engine.sock");
    assert_eq!(engine_socket_path(Some("/data/"), None), "/data/vi-ime/engine.sock");
}

fn replay_ops(old: &str, ops: &[DeltaOp]) -> String {
    let mut s = old.to_string();
    for op in ops {
        match op {
            DeltaOp::Backspace => {
                s.pop();
            }
            DeltaOp::Insert(c) => s.push(*c),
        }
    }
    s
}

#[test]
fn preedit_delta_replays_to_the_new_preedit() {
    for (old, new) in [("oo", "ô"), ("nh", "nha"), ("nha", "nh"), ("việt", "viet"), ("", "tôi"), ("tôi", "")] {
        assert_eq!(replay_ops(old, &compute_preedit_delta(old, new)), new);
    }
}

#[test]
fn hex_text_decodes_back_to_the_bytes() {
    for s in ["tôi", "", "việt nam", "\u{1F1FB}\u{1F1F3}"] {
        let h = hex_encode(s);
        assert_eq!(h.len(), 2 * s.len());
        assert!(h.chars().all(|c| c.is_ascii_digit() || ('a'..='f').contains(&c)));
        let back: Vec<u8> = (0..s.len()).map(|i| u8::from_str_radix(&h[2 * i..2 * i + 2], 16).unwrap()).collect();
        assert_eq!(back, s.as_bytes());
    }
}
