use vi_ime::daemon::{
    dictionary_override_path, heartbeat_period_us, notify_ready, sd_notify_plan,
    spell_options_from_config, HeartbeatMonitor, NotifyTarget, PreeditSnapshot,
    ReconnectBackoff, SpellCheckSettings,
};
use vi_ime::detect::{
    advertises_input_method, classify_process, detect_sandboxed_apps, detection_order,
    ibus_available, introspection_has_input_method, select_backend, BackendKind, BackendProbes,
    ProcEntry, SandboxedApp,
};
use vi_ime::diagnostics::ImeDiagnostics;
use vi_ime::event_loop::{plan_dispatch, BackendCall};
use vi_ime::ipc::{
    apply_key_bindings, handle_request, method_name_from_u8, method_to_u8, parse_method,
    socket_path, startup_config_path, DaemonConfig, IpcEffect, IpcState, Request, Response,
};
use vi_ime::types::{
    CompositionError, InputEvent, InputMethod, Key, Modifiers, PreeditText, StateTransition,
};

// ── Watchdog ──────────────────────────────────────────────────────────────────

#[test]
fn test_watchdog_heartbeat_period_is_half_timeout() {
    let watchdog_usec: u64 = 1_000_000; // 1 second
    let period = std::time::Duration::from_micros(heartbeat_period_us(watchdog_usec));
    assert_eq!(
        period.as_millis(),
        500,
        "heartbeat must fire every 500 ms for a 1 s watchdog"
    );
}

#[test]
fn heartbeat_period_never_zero() {
    assert_eq!(heartbeat_period_us(0), 1);
    assert_eq!(heartbeat_period_us(1), 1);
    assert_eq!(heartbeat_period_us(3), 1);
    assert_eq!(heartbeat_period_us(10), 5);
}

#[test]
fn heartbeat_stops_after_three_failures() {
    let mut m = HeartbeatMonitor::new();
    assert!(m.record(false));
    assert!(m.record(true));
    assert_eq!(m.consecutive_failures, 0);
    assert!(m.record(false));
    assert!(m.record(false));
    assert!(!m.record(false));
    assert_eq!(m.consecutive_failures, 3);
}

#[test]
fn reconnect_backoff_doubles_caps_and_resets() {
    let mut b = ReconnectBackoff::new();
    let mut seen = vec![b.delay_ms];
    for _ in 0..10 {
        b.record(false);
        seen.push(b.delay_ms);
    }
    assert_eq!(&seen[..4], &[100, 200, 400, 800]);
    assert_eq!(seen[9], 30_000);
    assert_eq!(seen[10], 30_000);
    b.record(true);
    assert_eq!(b.delay_ms, 100);
}

#[test]
fn notify_targets() {
    assert!(notify_ready(None).is_none());
    let n = notify_ready(Some("/run/systemd/notify")).unwrap();
    assert_eq!(n.message, "READY=1");
    assert!(matches!(n.target, NotifyTarget::Path(ref p) if p == "/run/systemd/notify"));
    let a = sd_notify_plan(Some("@/org/systemd/notify"), "WATCHDOG=1").unwrap();
    assert_eq!(a.message, "WATCHDOG=1");
    assert!(matches!(a.target, NotifyTarget::Abstract(ref p) if p == "/org/systemd/notify"));
}

// ── Snapshot ──────────────────────────────────────────────────────────────────

#[test]
fn test_preedit_snapshot_round_trip() {
    let snap = PreeditSnapshot {
        preedit: "việt".into(),
        cursor: 4,
        method: "telex".into(),
    };
    let loaded = snap.clone().validated().expect("cursor within the preedit");
    assert_eq!(loaded.preedit, "việt");
    assert_eq!(loaded.cursor, 4);
    assert_eq!(loaded.method, "telex");
}

#[test]
fn snapshot_with_out_of_range_cursor_is_discarded() {
    let snap = PreeditSnapshot { preedit: "việt".into(), cursor: 5, method: "telex".into() };
    assert!(snap.validated().is_none());
}

#[test]
fn snapshot_at_shutdown_counts_chars() {
    let s = PreeditSnapshot::at_shutdown("được".to_string(), "vni".to_string());
    assert_eq!(s.cursor, 4);
    assert_eq!(s.method, "vni");
}

#[test]
fn snapshot_paths() {
    assert_eq!(PreeditSnapshot::snapshot_path(1000), "/tmp/vi-daemon-1000-preedit.json");
    assert_eq!(PreeditSnapshot::lock_path(7), "/tmp/vi-daemon-7-preedit.json.lock");
    assert_eq!(PreeditSnapshot::temp_path(0), "/tmp/vi-daemon-0-preedit.json.tmp");
}

// ── IPC ───────────────────────────────────────────────────────────────────────

#[test]
fn test_socket_path_under_xdg_runtime() {
    let path = socket_path(Some("/tmp/vi-test-runtime"), 1000);
    assert_eq!(path, "/tmp/vi-test-runtime/vi-daemon.sock");
}

#[test]
fn socket_path_without_runtime_dir() {
    assert_eq!(socket_path(None, 1000), "/tmp/vi-daemon-1000.sock");
    assert_eq!(socket_path(Some("/run/user/1000/"), 1000), "/run/user/1000/vi-daemon.sock");
}

#[test]
fn config_path_lookup() {
    assert_eq!(
        startup_config_path(Some("/home/u/.cfg"), Some("/home/u")).as_deref(),
        Some("/home/u/.cfg/vime/config.toml")
    );
    assert_eq!(
        startup_config_path(None, Some("/home/u")).as_deref(),
        Some("/home/u/.config/vime/config.toml")
    );
    assert_eq!(startup_config_path(None, None), None);
}

#[test]
fn set_key_bindings_ok() {
    let mut config = DaemonConfig { key_bindings: vec![] };
    let bindings = vec![("Toggle IME".to_string(), "ctrl+space".to_string())];
    let resp = apply_key_bindings(&mut config, bindings.clone());
    assert!(matches!(resp, Response::Success));
    assert_eq!(config.key_bindings, bindings);
}

#[test]
fn set_key_bindings_rejects_empty_action() {
    let mut config = DaemonConfig { key_bindings: vec![] };
    let bindings = vec![("".to_string(), "ctrl+space".to_string())];
    let resp = apply_key_bindings(&mut config, bindings);
    assert!(matches!(resp, Response::Error { .. }));
    assert!(config.key_bindings.is_empty());
}

#[test]
fn set_key_bindings_rejects_empty_binding() {
    let mut config = DaemonConfig { key_bindings: vec![] };
    let bindings = vec![("Toggle IME".to_string(), "".to_string())];
    let resp = apply_key_bindings(&mut config, bindings);
    assert!(matches!(resp, Response::Error { ref message } if message == "empty action or key"));
    assert!(config.key_bindings.is_empty());
}

#[test]
fn set_key_bindings_rejects_whitespace_only() {
    let mut config = DaemonConfig { key_bindings: vec![("a".to_string(), "b".to_string())] };
    let resp = apply_key_bindings(&mut config, vec![("x".to_string(), " \t\u{3000}".to_string())]);
    assert!(matches!(resp, Response::Error { .. }));
    assert_eq!(config.key_bindings, vec![("a".to_string(), "b".to_string())]);
}

#[test]
fn method_names_round_trip() {
    for name in ["telex", "vni", "viqr"] {
        let m = parse_method(name).unwrap();
        assert_eq!(method_name_from_u8(method_to_u8(m)), name);
    }
    assert!(parse_method("Telex").is_none());
    assert_eq!(method_name_from_u8(9), "telex");
}

#[test]
fn ipc_requests() {
    let mut state = IpcState {
        backend: "ibus".to_string(),
        method: 0,
        config: DaemonConfig { key_bindings: vec![] },
    };
    let (r, e) = handle_request(Request::Status, &mut state, "vi");
    assert_eq!(e, IpcEffect::Nothing);
    assert!(matches!(r, Response::Status { ref backend, ref method, ref preedit }
        if backend == "ibus" && method == "telex" && preedit == "vi"));
    let (r, e) = handle_request(Request::SetMethod { method: "vni".to_string() }, &mut state, "");
    assert!(matches!(r, Response::Success));
    assert_eq!(e, IpcEffect::SetMethod(InputMethod::Vni));
    assert_eq!(state.method, 1);
    let (r, _) = handle_request(Request::SetMethod { method: "foo".to_string() }, &mut state, "");
    assert!(matches!(r, Response::Error { ref message } if message == "Unknown method: foo"));
    assert_eq!(state.method, 1);
    let (_, e) = handle_request(Request::Shutdown, &mut state, "");
    assert_eq!(e, IpcEffect::Shutdown);
}

// ── Engine switching mid-word ─────────────────────────────────────────────────

#[test]
fn test_engine_switch_commits_preedit() {
    // When the active backend changes mid-composition, the current preedit
    // must be committed before the switch.
    let mut preedit = "tooi".to_string();
    let mut committed: Vec<String> = Vec::new();

    let switch_backend = |preedit: &mut String, committed: &mut Vec<String>| {
        if !preedit.is_empty() {
            committed.push(preedit.clone());
            preedit.clear();
        }
    };

    switch_backend(&mut preedit, &mut committed);
    assert!(preedit.is_empty());
    assert_eq!(committed, vec!["tooi"]);
}

// ── Backend detection ─────────────────────────────────────────────────────────

#[test]
fn test_backend_detection_order_logic() {
    // Outside a sandbox, IBus is the highest-priority backend.
    let order = detection_order();
    let detected = order.iter().find(|k| **k != BackendKind::Portal).unwrap().name();
    assert_eq!(detected, "ibus");
}

#[test]
fn backend_selection_priority() {
    let none = BackendProbes { sandboxed: false, ibus: false, wayland_input_method: false, fcitx5: false, x11_display: false };
    assert_eq!(select_backend(&none), None);
    let all = BackendProbes { sandboxed: true, ibus: true, wayland_input_method: true, fcitx5: true, x11_display: true };
    assert_eq!(select_backend(&all), Some(BackendKind::Portal));
    let p = BackendProbes { sandboxed: false, ..all };
    assert_eq!(select_backend(&p), Some(BackendKind::IBus));
    let p = BackendProbes { ibus: false, ..p };
    assert_eq!(select_backend(&p), Some(BackendKind::Wayland));
    let p = BackendProbes { wayland_input_method: false, ..p };
    assert_eq!(select_backend(&p), Some(BackendKind::Fcitx5));
    let p = BackendProbes { fcitx5: false, ..p };
    assert_eq!(select_backend(&p), Some(BackendKind::X11));
    assert_eq!(BackendKind::Fcitx5.name(), "fcitx5");
}

#[test]
fn bus_name_probes() {
    let names = vec!["org.freedesktop.DBus".to_string(), "org.freedesktop.IBus".to_string()];
    assert!(ibus_available(false, &names));
    assert!(ibus_available(true, &vec![]));
    assert!(!ibus_available(false, &vec!["org.fcitx.Fcitx5".to_string()]));
    assert!(advertises_input_method(&vec!["wl_seat".to_string(), "zwp_input_method_manager_v2".to_string()]));
    assert!(!advertises_input_method(&vec!["wl_seat".to_string()]));
    assert!(introspection_has_input_method("<node><interface name=\"org.freedesktop.portal.InputMethod\"/></node>"));
    assert!(!introspection_has_input_method("<node/>"));
}

fn cmdline(args: &[&str]) -> Vec<u8> {
    args.iter().flat_map(|a| {
        let mut b = a.as_bytes().to_vec();
        b.push(0);
        b
    }).collect()
}

fn environ(vars: &[(&str, &str)]) -> Vec<u8> {
    vars.iter().flat_map(|(k, v)| {
        let mut b = format!("{k}={v}").into_bytes();
        b.push(0);
        b
    }).collect()
}

fn cmd_entry(pid: u32, args: &[&str]) -> ProcEntry {
    ProcEntry { name: pid.to_string(), environ: Some(vec![]), cmdline: Some(cmdline(args)) }
}

fn env_entry(pid: u32, vars: &[(&str, &str)]) -> ProcEntry {
    ProcEntry { name: pid.to_string(), environ: Some(environ(vars)), cmdline: Some(vec![]) }
}

fn same_app(a: &SandboxedApp, b: &SandboxedApp) -> bool {
    match (a, b) {
        (SandboxedApp::Electron(x), SandboxedApp::Electron(y)) => x == y,
        (SandboxedApp::Flatpak { pid: p, app_id: a }, SandboxedApp::Flatpak { pid: q, app_id: b }) => p == q && a == b,
        (SandboxedApp::Snap { pid: p, snap_name: a }, SandboxedApp::Snap { pid: q, snap_name: b }) => p == q && a == b,
        _ => false,
    }
}

#[test]
fn test_detect_electron_renderer_by_flag() {
    let apps = detect_sandboxed_apps(&vec![cmd_entry(1234, &["/usr/lib/electron/electron", "--type=renderer", "--no-sandbox"])]);
    assert_eq!(apps.len(), 1);
    assert!(same_app(&apps[0], &SandboxedApp::Electron(1234)));
}

#[test]
fn renderer_flag_alone_marks_electron() {
    let apps = detect_sandboxed_apps(&vec![cmd_entry(77, &["/opt/app/bin/thing", "--type=renderer"])]);
    assert_eq!(apps.len(), 1);
    assert!(same_app(&apps[0], &SandboxedApp::Electron(77)));
}

#[test]
fn test_detect_electron_by_known_exe_name() {
    let apps = detect_sandboxed_apps(&vec![cmd_entry(5678, &["/usr/bin/code", "--new-window"])]);
    assert_eq!(apps.len(), 1);
    assert!(same_app(&apps[0], &SandboxedApp::Electron(5678)));
}

#[test]
fn test_detect_flatpak_by_environ() {
    let apps = detect_sandboxed_apps(&vec![env_entry(9012, &[("FLATPAK_ID", "org.example.App"), ("PATH", "/usr/bin")])]);
    assert_eq!(apps.len(), 1);
    assert!(same_app(&apps[0], &SandboxedApp::Flatpak { pid: 9012, app_id: "org.example.App".to_string() }));
}

#[test]
fn test_detect_snap_by_environ() {
    let apps = detect_sandboxed_apps(&vec![env_entry(3456, &[("SNAP", "/snap/firefox/current"), ("SNAP_NAME", "firefox")])]);
    assert_eq!(apps.len(), 1);
    assert!(same_app(&apps[0], &SandboxedApp::Snap { pid: 3456, snap_name: "firefox".to_string() }));
}

#[test]
fn snap_name_from_snap_path() {
    let app = classify_process(11, &environ(&[("SNAP", "/snap/chromium/2345")]), None).unwrap();
    assert!(same_app(&app, &SandboxedApp::Snap { pid: 11, snap_name: "chromium".to_string() }));
    assert!(classify_process(12, &environ(&[("SNAP", "nopath")]), None).is_none());
}

#[test]
fn test_detect_ignores_non_pid_entries() {
    let entries = vec![
        ProcEntry { name: "self".to_string(), environ: Some(vec![]), cmdline: Some(vec![]) },
        ProcEntry { name: "net".to_string(), environ: None, cmdline: None },
        cmd_entry(42, &["/usr/bin/slack"]),
    ];
    let apps = detect_sandboxed_apps(&entries);
    assert_eq!(apps.len(), 1);
    assert!(same_app(&apps[0], &SandboxedApp::Electron(42)));
}

#[test]
fn test_detect_mixed_sandboxed_processes() {
    let apps = detect_sandboxed_apps(&vec![
        cmd_entry(100, &["/usr/bin/discord"]),
        env_entry(200, &[("FLATPAK_ID", "org.gnome.Gedit")]),
        env_entry(300, &[("SNAP_NAME", "chromium")]),
    ]);
    assert_eq!(apps.len(), 3);
    assert!(apps.iter().any(|a| same_app(a, &SandboxedApp::Electron(100))));
    assert!(apps.iter().any(|a| same_app(a, &SandboxedApp::Flatpak { pid: 200, app_id: "org.gnome.Gedit".to_string() })));
    assert!(apps.iter().any(|a| same_app(a, &SandboxedApp::Snap { pid: 300, snap_name: "chromium".to_string() })));
}

#[test]
fn test_detect_empty_proc_returns_empty() {
    assert!(detect_sandboxed_apps(&vec![]).is_empty());
}

// ── Diagnostics ───────────────────────────────────────────────────────────────

#[test]
fn diagnostics_flags_and_status() {
    let d = ImeDiagnostics { electron_pids: vec![], input_method: "Telex".into(), backend: "ibus".into() };
    assert!(d.suggest_electron_flags().is_empty());
    let st = d.get_status();
    assert_eq!(st[0], ("input_method".to_string(), "Telex".to_string()));
    assert_eq!(st[1], ("backend".to_string(), "ibus".to_string()));
    assert_eq!(st[2], ("electron_pids".to_string(), String::new()));
    let d = ImeDiagnostics { electron_pids: vec![12, 345], input_method: "VNI".into(), backend: "wayland".into() };
    assert_eq!(d.suggest_electron_flags(), vec!["--ozone-platform=wayland", "--enable-features=UseOzonePlatform"]);
    assert_eq!(d.get_status()[2].1, "12,345");
}

// ── Spell options and dictionary path ─────────────────────────────────────────

#[test]
fn spell_options_need_both_flags_and_a_dictionary() {
    let on = SpellCheckSettings { enabled: true, commit_with_dictionary: true, dd_freestyle: true };
    let o = spell_options_from_config(Some(on), true);
    assert!(o.use_dictionary && o.commit_spell_check_dict && o.dd_freestyle);
    let o = spell_options_from_config(Some(on), false);
    assert!(!o.use_dictionary && !o.commit_spell_check_dict && o.dd_freestyle);
    let off = SpellCheckSettings { enabled: false, ..on };
    assert!(!spell_options_from_config(Some(off), true).use_dictionary);
    assert!(!spell_options_from_config(None, true).use_dictionary);
}

#[test]
fn dictionary_override_is_trimmed() {
    assert_eq!(dictionary_override_path(None), None);
    assert_eq!(dictionary_override_path(Some("  /tmp/x.dict \n")).as_deref(), Some("/tmp/x.dict"));
    assert_eq!(dictionary_override_path(Some("   ")).as_deref(), Some(""));
}

// ── Event loop dispatch plans ─────────────────────────────────────────────────

fn key(c: char) -> InputEvent {
    InputEvent::KeyDown(Key::Char(c), Modifiers::none())
}

#[test]
fn preedit_updated_calls_update_preedit_only() {
    let t = Ok(StateTransition::PreeditUpdated(PreeditText { text: "a".to_string(), cursor_byte_offset: 1 }));
    let plan = plan_dispatch(&t, &key('a'));
    assert_eq!(plan.calls.len(), 1);
    assert!(matches!(plan.calls[0].call, BackendCall::UpdatePreedit { ref text, cursor: 1 } if text == "a"));
    assert!(plan.calls[0].error_is_fatal);
    assert!(!plan.reset_engine && plan.error.is_none());
}

#[test]
fn passthrough_calls_forward_key_only() {
    let plan = plan_dispatch(&Ok(StateTransition::PassThrough), &key('q'));
    assert_eq!(plan.calls.len(), 1);
    assert!(matches!(plan.calls[0].call, BackendCall::ForwardKey));
}

#[test]
fn commit_then_passthrough_calls_commit_replacing_preedit_then_forward_key() {
    let plan = plan_dispatch(&Ok(StateTransition::CommitThenPassThrough("a".to_string())), &key(' '));
    assert_eq!(plan.calls.len(), 2);
    assert!(matches!(plan.calls[0].call, BackendCall::CommitReplacingPreedit { ref text } if text == "a"));
    assert!(matches!(plan.calls[1].call, BackendCall::ForwardKey));
    assert!(plan.calls[1].error_is_fatal);
}

#[test]
fn commit_on_return_forwards_return_best_effort() {
    let ret = InputEvent::KeyDown(Key::Return, Modifiers::none());
    let plan = plan_dispatch(&Ok(StateTransition::CommitAndClear("tôi".to_string())), &ret);
    assert_eq!(plan.calls.len(), 2);
    assert!(matches!(plan.calls[1].call, BackendCall::ForwardKey));
    assert!(!plan.calls[1].error_is_fatal);
    let plan = plan_dispatch(&Ok(StateTransition::Commit("tôi".to_string())), &key('x'));
    assert_eq!(plan.calls.len(), 1);
}

#[test]
fn commit_then_preedit_dispatches_commit_then_update_preedit() {
    let t = Ok(StateTransition::CommitThenPreedit(
        "a".to_string(),
        PreeditText { text: "b".to_string(), cursor_byte_offset: 1 },
    ));
    let plan = plan_dispatch(&t, &key('a'));
    assert_eq!(plan.calls.len(), 1);
    assert!(matches!(plan.calls[0].call, BackendCall::CommitThenUpdatePreedit { ref text, ref preedit, cursor: 1 }
        if text == "a" && preedit == "b"));
}

#[test]
fn composition_error_propagates_as_err() {
    let t = Err(CompositionError { message: "orphaned combining mark".to_string() });
    let plan = plan_dispatch(&t, &key('a'));
    assert!(plan.calls.is_empty());
    assert!(plan.reset_engine);
    assert_eq!(plan.error.as_deref(), Some("composition error: orphaned combining mark"));
}

#[test]
fn consumed_and_cleared() {
    assert!(plan_dispatch(&Ok(StateTransition::Consumed), &key('a')).calls.is_empty());
    let plan = plan_dispatch(&Ok(StateTransition::Cleared), &key('a'));
    assert!(matches!(plan.calls[0].call, BackendCall::ClearPreedit));
}

#[test]
fn preedit_cursor_is_handed_on_as_a_character_count() {
    let t = Ok(StateTransition::PreeditUpdated(PreeditText { text: "tô".to_string(), cursor_byte_offset: 3 }));
    let plan = plan_dispatch(&t, &key('o'));
    assert!(matches!(plan.calls[0].call, BackendCall::UpdatePreedit { ref text, cursor: 2 } if text == "tô"));
    let t = Ok(StateTransition::CommitThenPreedit(
        "việt".to_string(),
        PreeditText { text: "ươ".to_string(), cursor_byte_offset: 3 },
    ));
    let plan = plan_dispatch(&t, &key('w'));
    assert!(matches!(plan.calls[0].call, BackendCall::CommitThenUpdatePreedit { ref preedit, cursor: 1, .. }
        if preedit == "ươ"));
}
