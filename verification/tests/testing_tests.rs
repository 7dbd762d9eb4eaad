use vi_ime::compositor_matrix::{
    drive_transition, CompositorQuirks, ImeBackend, MockCompositor, GNOME_EMPTY_PREEDIT,
    HYPRLAND_BUFFERING, KDE_BYTE_OFFSETS, QUIRKS_NONE, SWAY_TIMING, WESTON_LIFECYCLE,
};
use vi_ime::golden::all_216;
use vi_ime::integration::{MockBackend, MockDispatchError};
use vi_ime::mock_compositor::{mock_socket_name, CompositorProfile, PreeditUpdate};
use vi_ime::mock_compositor::MockCompositor as WaylandMock;
use vi_ime::mock_ibus::{IbusCall, MockEngineServer};
use vi_ime::replay::{
    all_fixtures, implicit_key_up, is_focus_out_commit, replay_commit, return_commit, typing_events,
};
use vi_ime::stress::Lcg;
use vi_ime::types::{
    CompositionError, InputEvent, InputMethod, Key, Modifiers, PreeditText, StateTransition,
};
use vi_ime::unicode_torture::cases;

// ── Compositor quirks ────────────────────────────────────────────────────────

#[test]
fn quirks_contains() {
    let q = CompositorQuirks(GNOME_EMPTY_PREEDIT | HYPRLAND_BUFFERING);
    assert!(q.contains(CompositorQuirks(GNOME_EMPTY_PREEDIT)));
    assert!(q.contains(CompositorQuirks(HYPRLAND_BUFFERING)));
    assert!(!q.contains(CompositorQuirks(KDE_BYTE_OFFSETS)));
    assert!(q.contains(CompositorQuirks(QUIRKS_NONE)));
    assert!(!q.contains(CompositorQuirks(SWAY_TIMING | WESTON_LIFECYCLE)));
    assert!(q.contains(q));
}

fn commit(text: &str) -> Result<StateTransition, CompositionError> {
    Ok(StateTransition::CommitAndClear(text.to_string()))
}

fn pre(text: &str) -> Result<StateTransition, CompositionError> {
    Ok(StateTransition::PreeditUpdated(PreeditText { text: text.to_string(), cursor_byte_offset: text.len() }))
}

#[test]
fn commit_fires_exactly_once_per_syllable() {
    for quirk_bits in 0u32..32 {
        let mut c = MockCompositor::new(CompositorQuirks(quirk_bits));
        for t in [pre("a"), pre("á"), commit("á")] {
            drive_transition(&mut c, &t);
        }
        assert_eq!(c.committed, vec!["á".to_string()], "quirks={quirk_bits:#07b}");
    }
}

#[test]
fn gnome_drops_empty_preedit() {
    let mut c = MockCompositor::new(CompositorQuirks(GNOME_EMPTY_PREEDIT));
    drive_transition(&mut c, &pre("a"));
    drive_transition(&mut c, &Ok(StateTransition::Cleared));
    assert_eq!(c.preedit_history, vec!["a".to_string()]);
    let mut plain = MockCompositor::new(CompositorQuirks(QUIRKS_NONE));
    drive_transition(&mut plain, &pre("a"));
    drive_transition(&mut plain, &Ok(StateTransition::Cleared));
    assert_eq!(plain.preedit_history, vec!["a".to_string(), String::new()]);
}

#[test]
fn hyprland_buffering_flushes_on_commit() {
    let mut c = MockCompositor::new(CompositorQuirks(HYPRLAND_BUFFERING));
    drive_transition(&mut c, &pre("o"));
    drive_transition(&mut c, &pre("ô"));
    assert!(c.preedit_history.is_empty());
    drive_transition(&mut c, &commit("ố"));
    assert_eq!(c.committed, vec!["ố".to_string()]);
    assert_eq!(c.preedit_history, vec!["ô".to_string()]);
    assert_eq!(c.buffered_preedit.as_deref(), Some(""));
}

#[test]
fn backend_trait_records() {
    let mut c = MockCompositor::new(CompositorQuirks(QUIRKS_NONE));
    c.preedit_update("vi", 0, 2);
    c.commit_string("việt");
    assert_eq!(c.preedit_history, vec!["vi".to_string()]);
    assert_eq!(c.committed, vec!["việt".to_string()]);
}

// ── Mock Wayland compositor ──────────────────────────────────────────────────

#[test]
fn profiles_advertise_globals() {
    assert_eq!(CompositorProfile::Gnome.advertised_globals(), vec!["zwp_text_input_manager_v3", "gtk_shell_v1"]);
    assert!(CompositorProfile::Minimal.advertised_globals().is_empty());
    assert!(CompositorProfile::Hyprland.advertises("hyprland_global_shortcuts_manager_v1"));
    assert!(CompositorProfile::Niri.advertises("niri_ipc"));
    assert!(!CompositorProfile::Sway.advertises("niri_ipc"));
    let m = WaylandMock::new(CompositorProfile::KdeWayland, "/tmp".to_string(), mock_socket_name(42));
    assert!(CompositorProfile::KdeWayland.advertises("org_kde_plasma_shell"));
    m.assert_advertises_global("org_kde_plasma_shell");
    assert_eq!(m.socket_path(), "/tmp/wayland-mock-42");
}

#[test]
fn every_profile_advertises_what_it_lists() {
    for p in [CompositorProfile::Gnome, CompositorProfile::KdeWayland, CompositorProfile::Sway,
              CompositorProfile::Hyprland, CompositorProfile::Niri, CompositorProfile::Minimal] {
        for g in p.advertised_globals() {
            assert!(p.advertises(g));
        }
        assert!(!p.advertises("no_such_global_v1"));
    }
}

#[test]
fn mock_compositor_records_and_checks_nfc() {
    let mut m = WaylandMock::new(CompositorProfile::Sway, "/tmp".to_string(), "w".to_string());
    m.receive_commit("tôi");
    m.receive_preedit(PreeditUpdate { text: "t".to_string(), cursor_begin: 0, cursor_end: 1 });
    assert_eq!(m.received_commits(), vec!["tôi".to_string()]);
    let ups = m.received_preedit_updates();
    assert_eq!(ups.len(), 1);
    assert_eq!(ups[0].text, "t");
    assert_eq!(ups[0].cursor_end, 1);
    assert_eq!(m.assert_all_commits_nfc(), Ok(()));
    m.receive_commit("to\u{0302}i");
    assert_eq!(m.assert_all_commits_nfc(), Err(1));
}

// ── Mock IBus daemon record ──────────────────────────────────────────────────

#[test]
fn mock_ibus_records_calls() {
    let mut s = MockEngineServer::new();
    s.commit_text("việt".to_string());
    s.update_preedit_text("vi".to_string(), 2, true);
    assert_eq!(s.calls.len(), 2);
    assert!(matches!(&s.calls[0], IbusCall::CommitText(t) if t == "việt"));
    assert!(matches!(&s.calls[1], IbusCall::UpdatePreedit { text, cursor: 2, visible: true } if text == "vi"));
    s.clear_calls();
    assert!(s.calls.is_empty());
}

// ── Integration mock backend ─────────────────────────────────────────────────

#[test]
fn mock_backend_dispatch() {
    let mut b = MockBackend::new();
    b.dispatch(&pre("t")).unwrap();
    b.dispatch(&commit("tôi")).unwrap();
    b.dispatch(&Ok(StateTransition::Cleared)).unwrap();
    assert_eq!(b.committed, vec!["tôi".to_string()]);
    assert_eq!(b.preedit_history, vec!["t".to_string()]);
    assert_eq!(b.clears, 2);
    assert!(matches!(b.dispatch(&commit("to\u{0302}i")), Err(MockDispatchError::NotNfc(ref s)) if s == "to\u{0302}i"));
    assert_eq!(b.committed.len(), 1);
    let err = Err(CompositionError { message: "boom".to_string() });
    assert!(matches!(b.dispatch(&err), Err(MockDispatchError::Composition(ref m)) if m == "boom"));
}

// ── Replay helpers and fixtures ──────────────────────────────────────────────

#[test]
fn replay_helpers() {
    let down = InputEvent::KeyDown(Key::Char('o'), Modifiers::none());
    assert_eq!(implicit_key_up(&down), Some(InputEvent::KeyUp(Key::Char('o'))));
    assert_eq!(implicit_key_up(&InputEvent::FocusOut), None);
    assert_eq!(replay_commit(&StateTransition::Commit("á".to_string())).as_deref(), Some("á"));
    assert_eq!(replay_commit(&StateTransition::CommitThenPassThrough("á".to_string())), None);
    assert_eq!(return_commit(&StateTransition::PassThrough).as_deref(), Some(""));
    assert_eq!(return_commit(&StateTransition::Cleared), None);
    assert!(is_focus_out_commit(&commit("a")));
    assert!(!is_focus_out_commit(&Ok(StateTransition::Consumed)));
}

#[test]
fn typing_events_press_release_then_return() {
    let ev = typing_events("ab");
    assert_eq!(ev, vec![
        InputEvent::KeyDown(Key::Char('a'), Modifiers::none()),
        InputEvent::KeyUp(Key::Char('a')),
        InputEvent::KeyDown(Key::Char('b'), Modifiers::none()),
        InputEvent::KeyUp(Key::Char('b')),
        InputEvent::KeyDown(Key::Return, Modifiers::none()),
    ]);
}

#[test]
fn fixtures_are_complete() {
    let f = all_fixtures();
    assert_eq!(f.len(), 20);
    assert_eq!(f[0].name, "telex_toi");
    assert_eq!(f[0].method, InputMethod::Telex);
    assert_eq!(f[0].expected_commits, vec!["tôi".to_string()]);
    let names: std::collections::HashSet<_> = f.iter().map(|s| s.name.clone()).collect();
    assert_eq!(names.len(), 20, "fixture names are unique");
}

// ── Golden matrix ────────────────────────────────────────────────────────────

#[test]
fn golden_matrix_shape() {
    let cases = all_216();
    assert_eq!(cases.len(), 216);
    assert_eq!(cases[0].method, InputMethod::Telex);
    assert_eq!(cases[0].input, "a");
    assert_eq!(cases[0].expected, "a");
    assert_eq!(cases[0].description, "Telex a-flat");
    // vowel ă (index 1), tone sắc (index 2), VNI (index 1)
    let c = &cases[(1 * 6 + 2) * 3 + 1];
    assert_eq!(c.method, InputMethod::Vni);
    assert_eq!(c.input, "a81");
    assert_eq!(c.expected, "ắ");
    assert_eq!(c.description, "VNI ă-sắc");
    let last = &cases[215];
    assert_eq!(last.method, InputMethod::Viqr);
    assert_eq!(last.input, "y.");
    assert_eq!(last.expected, "ỵ");
}

// ── Stress generator and torture cases ───────────────────────────────────────

#[test]
fn lcg_is_deterministic() {
    let mut a = Lcg(1);
    let x = a.next();
    assert_eq!(x, 1u64.wrapping_mul(6_364_136_223_846_793_005).wrapping_add(1_442_695_040_888_963_407));
    let mut b = Lcg(1);
    assert_eq!(b.next(), x);
    let mut c = Lcg(0xDEAD_BEEF);
    for _ in 0..100 {
        assert!(c.next_usize(25) < 25);
    }
}

#[test]
fn torture_cases_listed() {
    let all = cases();
    assert_eq!(all.len(), 40);
    assert_eq!(all[0].raw_input, "to\u{0302}i");
    assert_eq!(all[0].expected_nfc, Some("tôi"));
    assert!(all.iter().any(|c| c.expected_nfc.is_none()));
}

#[test]
fn torture_case_descriptions_are_distinct() {
    let all = cases();
    assert_eq!(all[0].description, "NFD tôi normalizes to NFC tôi");
    assert_eq!(all[38].description, "U+00A0 (NBSP) is above C1 range — passes through");
    for i in 0..all.len() {
        for j in (i + 1)..all.len() {
            assert_ne!(all[i].description, all[j].description);
        }
    }
}
