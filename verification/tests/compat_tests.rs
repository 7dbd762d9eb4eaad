use vi_ime::compat::{
    focus_is_candidate, has_fullscreen_state, matches_glob, matches_glob_lower, wm_class_name,
    FullscreenGuard, RemoteDesktopMode, X11Focus,
};

#[test]
fn glob_exact() {
    assert!(matches_glob("Steam", "Steam"));
    assert!(matches_glob("Steam", "steam")); // case-insensitive matching
    assert!(!matches_glob("Steam", "other"));
}

#[test]
fn glob_wildcard_suffix() {
    assert!(matches_glob("steam*", "steam"));
    assert!(matches_glob("steam*", "steam_native"));
    assert!(!matches_glob("steam*", "xsteam"));
}

#[test]
fn glob_wildcard_prefix() {
    assert!(matches_glob("*game", "mygame"));
    assert!(matches_glob("*game", "game"));
    assert!(!matches_glob("*game", "games"));
}

#[test]
fn glob_wildcard_both() {
    assert!(matches_glob("*steam*", "com.valvesoftware.Steam"));
    assert!(matches_glob("*steam*", "steam"));
    assert!(!matches_glob("*steam*", "valve"));
}

#[test]
fn glob_star_only() {
    assert!(matches_glob("*", "anything"));
    assert!(matches_glob("*", ""));
}

#[test]
fn glob_lower_is_case_sensitive() {
    assert!(!matches_glob_lower("steam", "Steam"));
    assert!(matches_glob_lower("st*m", "steam"));
    assert!(matches_glob_lower("a*b*c", "axxbyyc"));
    assert!(!matches_glob_lower("a*b*c", "axxbyy"));
    assert!(matches_glob_lower("**", ""));
}

#[test]
fn glob_multibyte_text() {
    assert!(matches_glob("*việt*", "tiếng Việt"));
    assert!(matches_glob("ti*t", "tiếng việt"));
}

#[test]
fn wm_class_takes_second_field() {
    assert_eq!(wm_class_name(b"steam_app_1\0Steam\0"), "Steam");
    assert_eq!(wm_class_name(b"onlyone"), "onlyone");
    assert_eq!(wm_class_name(b"inst\0"), "");
    assert_eq!(wm_class_name(b""), "");
}

#[test]
fn x11_focus_and_state_helpers() {
    assert!(!focus_is_candidate(0, 1));
    assert!(!focus_is_candidate(5, 5));
    assert!(focus_is_candidate(7, 5));
    assert!(has_fullscreen_state(&[3, 9, 12], 9));
    assert!(!has_fullscreen_state(&[3, 12], 9));
    assert!(!has_fullscreen_state(&[], 9));
}

#[test]
fn guard_without_patterns_never_passes_through() {
    let mut g = FullscreenGuard::new(vec![]);
    g.set_wayland_fullscreen(true, "steam");
    assert!(!g.should_passthrough(&X11Focus::Fullscreen(b"x\0steam\0".to_vec())));
}

#[test]
fn guard_wayland_fullscreen_game() {
    let mut g = FullscreenGuard::new(vec!["steam*".to_string()]);
    assert!(!g.should_passthrough(&X11Focus::Unavailable));
    g.set_wayland_fullscreen(true, "Steam_Native");
    assert!(g.should_passthrough(&X11Focus::Unavailable));
    g.set_wayland_fullscreen(false, "Steam_Native");
    assert!(!g.should_passthrough(&X11Focus::NotFullscreen));
}

#[test]
fn guard_x11_fullscreen_game() {
    let g = FullscreenGuard::new(vec!["*game".to_string(), "steam".to_string()]);
    assert!(g.should_passthrough(&X11Focus::Fullscreen(b"inst\0MyGame\0".to_vec())));
    assert!(!g.should_passthrough(&X11Focus::Fullscreen(b"inst\0Editor\0".to_vec())));
    assert!(!g.should_passthrough(&X11Focus::NotFullscreen));
}

#[test]
fn remote_desktop_detection() {
    let none: Vec<String> = Vec::new();
    let rd = vec!["wl_compositor".to_string(), "remote-desktop-unstable-v1".to_string()];
    assert!(RemoteDesktopMode::is_active(true, false, false, &none));
    assert!(RemoteDesktopMode::is_active(false, true, false, &none));
    assert!(!RemoteDesktopMode::is_active(false, false, false, &none));
    assert!(RemoteDesktopMode::is_active(false, false, true, &rd));
    assert!(!RemoteDesktopMode::is_active(false, false, false, &rd));
    assert!(!RemoteDesktopMode::is_active(false, false, true, &none));
}

#[test]
fn wm_class_decodes_ill_formed_bytes_with_replacement() {
    assert_eq!(wm_class_name(b"inst\0St\xffeam\0"), "St\u{FFFD}eam");
}

#[test]
fn glob_pieces_with_any_text_between() {
    assert!(matches_glob_lower("*", ""));
    assert!(matches_glob_lower("a*b*c", "abc"));
    assert!(matches_glob_lower("a*b*c", "axxbyc"));
    assert!(!matches_glob_lower("a*b*c", "axxcyb"));
    assert!(matches_glob_lower("**", "anything"));
    assert!(!matches_glob_lower("", "x"));
}
