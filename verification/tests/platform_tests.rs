use vi_ime::platform::{char_cursor, Capabilities, PlatformError, SurroundingText};
use vi_ime::portal::{
    detect_sandbox, is_electron, is_sandboxed, portal_capabilities, portal_preedit_cursor,
    should_use_portal, SandboxKind, SandboxMode, SandboxProbe,
};

fn probe() -> SandboxProbe {
    SandboxProbe {
        flatpak_info: false,
        flatpak_host_os_release: false,
        snap: false,
        appimage: false,
        electron_run_as_node: false,
        exe_path: None,
    }
}

// ── Cursor regression ─────────────────────────────────────────────────────────

/// "được" is 4 Unicode scalar values but 8 UTF-8 bytes.
#[test]
fn char_cursor_duoc_is_4_not_byte_length() {
    let s = "được";
    let cursor = char_cursor(s);
    assert_eq!(cursor.0, 4, "char_cursor must return char count (4), not byte length ({})", s.len());
    assert_ne!(s.len(), cursor.0, "sanity: byte length must differ from char count");
}

#[test]
fn char_cursor_ascii_matches_len() {
    let s = "hello";
    assert_eq!(char_cursor(s).0, s.len());
}

#[test]
fn char_cursor_empty() {
    assert_eq!(char_cursor("").0, 0);
}

// ── Surrounding text validation ──────────────────────────────────────────────

#[test]
fn surrounding_text_validation() {
    let ok = SurroundingText { text: "việt".to_string(), cursor_pos: 6, anchor_pos: 0 };
    assert!(ok.validate().is_ok());
    let past = SurroundingText { text: "abc".to_string(), cursor_pos: 4, anchor_pos: 0 };
    assert!(matches!(past.validate(), Err(PlatformError::InvalidSurroundingText(ref m))
        if m == "cursor_pos 4 exceeds text length 3"));
    let inside = SurroundingText { text: "việt".to_string(), cursor_pos: 0, anchor_pos: 3 };
    assert!(matches!(inside.validate(), Err(PlatformError::InvalidSurroundingText(ref m))
        if m == "anchor_pos 3 is not a UTF-8 character boundary"));
    let both = SurroundingText { text: "ô".to_string(), cursor_pos: 1, anchor_pos: 9 };
    assert!(matches!(both.validate(), Err(PlatformError::InvalidSurroundingText(ref m))
        if m == "cursor_pos 1 is not a UTF-8 character boundary"));
}

// ── Portal / sandbox detection ───────────────────────────────────────────────

#[test]
fn test_sandbox_kind_debug_formatting() {
    for kind in [
        SandboxKind::Flatpak,
        SandboxKind::Snap,
        SandboxKind::AppImage,
        SandboxKind::Electron,
        SandboxKind::NoSandbox,
    ] {
        let _ = format!("{kind:?}");
    }
}

#[test]
fn test_sandbox_kind_none_not_sandboxed() {
    assert_ne!(SandboxKind::Flatpak, SandboxKind::NoSandbox);
    assert_ne!(SandboxKind::Snap, SandboxKind::NoSandbox);
    assert_ne!(SandboxKind::AppImage, SandboxKind::NoSandbox);
    assert_ne!(SandboxKind::Electron, SandboxKind::NoSandbox);
}

#[test]
fn test_sandbox_kind_is_sandboxed_consistent() {
    for p in [
        probe(),
        SandboxProbe { snap: true, ..probe() },
        SandboxProbe { exe_path: Some("/opt/Electron/app".to_string()), ..probe() },
    ] {
        assert_eq!(is_sandboxed(&p), detect_sandbox(&p) != SandboxKind::NoSandbox);
    }
}

#[test]
fn sandbox_detection_order() {
    assert_eq!(detect_sandbox(&probe()), SandboxKind::NoSandbox);
    let all = SandboxProbe {
        flatpak_info: false,
        flatpak_host_os_release: true,
        snap: true,
        appimage: true,
        electron_run_as_node: true,
        exe_path: None,
    };
    assert_eq!(detect_sandbox(&all), SandboxKind::Flatpak);
    assert_eq!(detect_sandbox(&SandboxProbe { flatpak_host_os_release: false, ..all.clone() }), SandboxKind::Snap);
    assert_eq!(detect_sandbox(&SandboxProbe { appimage: true, ..probe() }), SandboxKind::AppImage);
    assert_eq!(detect_sandbox(&SandboxProbe { electron_run_as_node: true, ..probe() }), SandboxKind::Electron);
}

#[test]
fn electron_by_executable_path() {
    assert!(is_electron(&SandboxProbe { exe_path: Some("/usr/lib/ELECTRON25/electron".to_string()), ..probe() }));
    assert!(!is_electron(&SandboxProbe { exe_path: Some("/usr/bin/gedit".to_string()), ..probe() }));
    assert!(!is_electron(&probe()));
}

#[test]
fn portal_mode_choice() {
    let sandboxed = SandboxProbe { snap: true, ..probe() };
    assert!(should_use_portal(SandboxMode::XdgPortal, &probe()));
    assert!(!should_use_portal(SandboxMode::Direct, &sandboxed));
    assert!(should_use_portal(SandboxMode::Auto, &sandboxed));
    assert!(!should_use_portal(SandboxMode::Auto, &probe()));
}

#[test]
fn portal_cursor_and_capabilities() {
    assert_eq!(portal_preedit_cursor("việt", 2), 2);
    assert_eq!(portal_preedit_cursor("việt", 9), 4);
    let c: Capabilities = portal_capabilities();
    assert!(c.preedit && !c.surrounding_text && !c.lookup_table);
}
