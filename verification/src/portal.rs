//! Sandbox detection and the decisions of the XDG portal backend.
//!
//! The probes themselves (files that exist, environment variables that are
//! set, the executable's path) are gathered by the caller; which sandbox they
//! indicate, and whether the portal should carry input, is decided here.
use vstd::prelude::*;
use crate::platform::Capabilities;
use crate::compat::lowercase;
use crate::text::{chars_of, char_len};

verus! {

/// The sandbox or managed-runtime environment detected for the current process.
#[derive(Clone, Copy, Debug, PartialEq, Eq, Structural)]
pub enum SandboxKind {
    /// Running inside a Flatpak sandbox.
    Flatpak,
    /// Running inside a Snap package (`$SNAP` is set).
    Snap,
    /// Running inside an AppImage bundle (`$APPIMAGE` is set).
    AppImage,
    /// Running inside an Electron/Chromium renderer process.
    Electron,
    /// No recognised sandbox environment detected.
    NoSandbox,
}

/// What the environment shows about the current process.
#[derive(Clone, Debug)]
pub struct SandboxProbe {
    /// `/.flatpak-info` exists.
    pub flatpak_info: bool,
    /// `/run/host/etc/os-release` exists (bind-mounted by the Flatpak runtime).
    pub flatpak_host_os_release: bool,
    /// `$SNAP` is set.
    pub snap: bool,
    /// `$APPIMAGE` is set.
    pub appimage: bool,
    /// `$ELECTRON_RUN_AS_NODE` is set.
    pub electron_run_as_node: bool,
    /// The path `/proc/self/exe` points to, if it could be read.
    pub exe_path: Option<String>,
}

/// `needle` occurs in `hay` as a contiguous run.
pub open spec fn contains_seq(hay: Seq<char>, needle: Seq<char>) -> bool {
    exists|i: int| 0 <= i && i + needle.len() <= hay.len() && #[trigger] hay.subrange(i, i + needle.len()) == needle
}

/// Whether `needle` occurs in `hay`.
pub fn contains_text(hay: &str, needle: &str) -> (b: bool)
    ensures
        b == contains_seq(hay@, needle@),
{
    let h = chars_of(hay);
    let n = chars_of(needle);
    if n.len() > h.len() {
        return false;
    }
    let last = h.len() - n.len();
    let mut i: usize = 0;
    loop
        invariant
            n.len() <= h.len(),
            last == h.len() - n.len(),
            i <= last,
            h@ == hay@,
            n@ == needle@,
            forall|k: int| 0 <= k < i ==> #[trigger] h@.subrange(k, k + n.len()) != n@,
        ensures
            forall|k: int| 0 <= k <= last ==> #[trigger] h@.subrange(k, k + n.len()) != n@,
        decreases last - i,
    {
        let mut j: usize = 0;
        while j < n.len() && h[i + j] == n[j]
            invariant
                i + n.len() <= h.len(),
                j <= n.len(),
                forall|m: int| 0 <= m < j ==> h@[i + m] == n@[m],
            decreases n.len() - j,
        {
            j = j + 1;
        }
        if j == n.len() {
            assert(h@.subrange(i as int, i + n.len()) == n@);
            return true;
        }
        assert(h@.subrange(i as int, i + n.len())[j as int] != n@[j as int]);
        if i == last {
            break;
        }
        i = i + 1;
    }
    false
}

/// The process is an Electron app: `$ELECTRON_RUN_AS_NODE` is set, or its
/// executable path contains "electron" in any letter case.
pub open spec fn spec_is_electron(probe: SandboxProbe) -> bool {
    probe.electron_run_as_node || match probe.exe_path {
        Some(p) => contains_seq(lowercase(p@), "electron"@),
        None => false,
    }
}

/// Returns `true` when the current process appears to be an Electron app.
pub fn is_electron(probe: &SandboxProbe) -> (b: bool)
    ensures
        b == spec_is_electron(*probe),
{
    if probe.electron_run_as_node {
        return true;
    }
    match &probe.exe_path {
        Some(p) => {
            let lower = crate::compat::to_lowercase(p.as_str());
            contains_text(lower.as_str(), "electron")
        },
        None => false,
    }
}

/// The sandbox the probe indicates, checked in order: Flatpak, Snap,
/// AppImage, Electron.
pub open spec fn spec_detect_sandbox(probe: SandboxProbe) -> SandboxKind {
    if probe.flatpak_info || probe.flatpak_host_os_release {
        SandboxKind::Flatpak
    } else if probe.snap {
        SandboxKind::Snap
    } else if probe.appimage {
        SandboxKind::AppImage
    } else if spec_is_electron(probe) {
        SandboxKind::Electron
    } else {
        SandboxKind::NoSandbox
    }
}

/// What each marker of the probe means: `/.flatpak-info` or the host's
/// `os-release` bind mount makes a Flatpak whatever else is set; otherwise
/// `$SNAP` a Snap, otherwise `$APPIMAGE` an AppImage, otherwise an Electron
/// sign an Electron app; and the process counts as sandboxed exactly when
/// one of the markers is present.
pub proof fn lemma_sandbox_markers(probe: SandboxProbe)
    ensures
        probe.flatpak_info ==> spec_detect_sandbox(probe) == SandboxKind::Flatpak,
        probe.flatpak_host_os_release ==> spec_detect_sandbox(probe) == SandboxKind::Flatpak,
        spec_detect_sandbox(probe) == SandboxKind::Flatpak ==> probe.flatpak_info || probe.flatpak_host_os_release,
        !probe.flatpak_info && !probe.flatpak_host_os_release && probe.snap
            ==> spec_detect_sandbox(probe) == SandboxKind::Snap,
        spec_detect_sandbox(probe) == SandboxKind::Snap ==> probe.snap,
        !probe.flatpak_info && !probe.flatpak_host_os_release && !probe.snap && probe.appimage
            ==> spec_detect_sandbox(probe) == SandboxKind::AppImage,
        spec_detect_sandbox(probe) == SandboxKind::AppImage ==> probe.appimage,
        spec_detect_sandbox(probe) == SandboxKind::Electron ==> spec_is_electron(probe),
        (spec_detect_sandbox(probe) != SandboxKind::NoSandbox) == (probe.flatpak_info || probe.flatpak_host_os_release
            || probe.snap || probe.appimage || spec_is_electron(probe)),
{
}

/// Detect the sandbox or managed-runtime environment of the process.
pub fn detect_sandbox(probe: &SandboxProbe) -> (k: SandboxKind)
    ensures
        k == spec_detect_sandbox(*probe),
{
    if probe.flatpak_info || probe.flatpak_host_os_release {
        return SandboxKind::Flatpak;
    }
    if probe.snap {
        return SandboxKind::Snap;
    }
    if probe.appimage {
        return SandboxKind::AppImage;
    }
    if is_electron(probe) {
        return SandboxKind::Electron;
    }
    SandboxKind::NoSandbox
}

/// Returns `true` when the process runs inside a known sandbox or managed
/// runtime that restricts direct compositor socket access.
pub fn is_sandboxed(probe: &SandboxProbe) -> (b: bool)
    ensures
        b == (spec_detect_sandbox(*probe) != SandboxKind::NoSandbox),
{
    let k = detect_sandbox(probe);
    !matches!(k, SandboxKind::NoSandbox)
}

/// How input reaches sandboxed applications, as configured.
#[derive(Clone, Copy, Debug, PartialEq, Eq, Structural)]
pub enum SandboxMode {
    /// Use the portal when a sandbox is detected.
    Auto,
    /// Never use the portal.
    Direct,
    /// Always use the portal.
    XdgPortal,
}

/// Whether the portal backend should be used: always for `XdgPortal`, never
/// for `Direct`, and for `Auto` when a sandbox is detected.
pub fn should_use_portal(mode: SandboxMode, probe: &SandboxProbe) -> (b: bool)
    ensures
        b == match mode {
            SandboxMode::XdgPortal => true,
            SandboxMode::Direct => false,
            SandboxMode::Auto => spec_detect_sandbox(*probe) != SandboxKind::NoSandbox,
        },
{
    match mode {
        SandboxMode::XdgPortal => true,
        SandboxMode::Direct => false,
        SandboxMode::Auto => is_sandboxed(probe),
    }
}

/// The cursor the portal is given for a preedit: the requested cursor,
/// clamped to the preedit's character count (as a `u32`, truncating).
pub fn portal_preedit_cursor(text: &str, cursor: usize) -> (c: u32)
    ensures
        c == (if cursor <= text@.len() { cursor } else { text@.len() as usize }) as u32,
{
    let n = char_len(text);
    let m = if cursor <= n { cursor } else { n };
    m as u32
}

/// What the portal backend supports: preedit only.
pub fn portal_capabilities() -> (c: Capabilities)
    ensures
        c.preedit && !c.surrounding_text && !c.lookup_table,
{
    Capabilities { surrounding_text: false, preedit: true, lookup_table: false }
}

} // verus!
