//! Backend selection and detection of sandboxed applications.
//!
//! Detection order:
//! 1. XDG Portal: a sandbox is detected (Flatpak, Snap, AppImage, Electron).
//! 2. IBus: `$IBUS_ADDRESS` is set or ibus-daemon is on the session bus.
//! 3. Wayland: the compositor advertises `zwp_input_method_manager_v2`.
//! 4. Fcitx5: `org.fcitx.Fcitx5` is on the session bus.
//! 5. X11: `$DISPLAY` is set (fallback).
//!
//! The probes, and the reading of `/proc`, are done by the caller; what they
//! mean is decided here.
use vstd::prelude::*;
use vstd::utf8::*;
use vstd::string::StringSliceAdditionalSpecFns;
use crate::compat::{decode_lossy, lemma_position_of, position_in, position_of, utf8_lossy};
use crate::fcitx5::{parse_u32, spec_parse_u32};
use crate::portal::contains_text;
use crate::text::{chars_of, owned};

verus! {

/// The IME backends the daemon can drive.
#[derive(Clone, Copy, Debug, PartialEq, Eq, Structural)]
pub enum BackendKind {
    Portal,
    IBus,
    Fcitx5,
    Wayland,
    X11,
}

impl BackendKind {
    /// The backend's display name.
    pub open spec fn spec_name(self) -> Seq<char> {
        match self {
            BackendKind::Portal => "portal"@,
            BackendKind::IBus => "ibus"@,
            BackendKind::Fcitx5 => "fcitx5"@,
            BackendKind::Wayland => "wayland"@,
            BackendKind::X11 => "x11"@,
        }
    }

    /// The backend's display name.
    pub fn name(&self) -> (s: &'static str)
        ensures
            s@ == self.spec_name(),
    {
        match self {
            BackendKind::Portal => "portal",
            BackendKind::IBus => "ibus",
            BackendKind::Fcitx5 => "fcitx5",
            BackendKind::Wayland => "wayland",
            BackendKind::X11 => "x11",
        }
    }
}

/// The backends in the order they are tried.
pub open spec fn spec_detection_order() -> Seq<BackendKind> {
    seq![BackendKind::Portal, BackendKind::IBus, BackendKind::Wayland, BackendKind::Fcitx5, BackendKind::X11]
}

/// The backends in the order they are tried.
pub fn detection_order() -> (v: Vec<BackendKind>)
    ensures
        v@ == spec_detection_order(),
{
    let v = vec![BackendKind::Portal, BackendKind::IBus, BackendKind::Wayland, BackendKind::Fcitx5, BackendKind::X11];
    assert(v@ == spec_detection_order());
    v
}

/// Which backends the environment offers.
#[derive(Clone, Copy, Debug)]
pub struct BackendProbes {
    /// The process runs in a sandbox.
    pub sandboxed: bool,
    /// IBus is reachable.
    pub ibus: bool,
    /// The Wayland compositor offers the input-method protocol.
    pub wayland_input_method: bool,
    /// Fcitx5 is on the session bus.
    pub fcitx5: bool,
    /// `$DISPLAY` is set.
    pub x11_display: bool,
}

/// The backend offered by the probes that comes first in the detection order.
pub open spec fn spec_select_backend(p: BackendProbes) -> Option<BackendKind> {
    if p.sandboxed {
        Some(BackendKind::Portal)
    } else if p.ibus {
        Some(BackendKind::IBus)
    } else if p.wayland_input_method {
        Some(BackendKind::Wayland)
    } else if p.fcitx5 {
        Some(BackendKind::Fcitx5)
    } else if p.x11_display {
        Some(BackendKind::X11)
    } else {
        None
    }
}

/// Pick the backend; `None` when nothing is available (not supported).
pub fn select_backend(p: &BackendProbes) -> (k: Option<BackendKind>)
    ensures
        k == spec_select_backend(*p),
{
    if p.sandboxed {
        Some(BackendKind::Portal)
    } else if p.ibus {
        Some(BackendKind::IBus)
    } else if p.wayland_input_method {
        Some(BackendKind::Wayland)
    } else if p.fcitx5 {
        Some(BackendKind::Fcitx5)
    } else if p.x11_display {
        Some(BackendKind::X11)
    } else {
        None
    }
}

/// IBus counts as reachable when `$IBUS_ADDRESS` is set, else when its name
/// is on the session bus.
pub fn ibus_available(ibus_address_set: bool, bus_names: &Vec<String>) -> (b: bool)
    ensures
        b == (ibus_address_set || exists|i: int|
            0 <= i < bus_names.len() && #[trigger] bus_names@[i]@ == "org.freedesktop.IBus"@),
{
    if ibus_address_set {
        return true;
    }
    name_listed(bus_names, "org.freedesktop.IBus")
}

/// `name` is one of `names`.
pub fn name_listed(names: &Vec<String>, name: &str) -> (b: bool)
    ensures
        b == exists|i: int| 0 <= i < names.len() && #[trigger] names@[i]@ == name@,
{
    let mut i: usize = 0;
    while i < names.len()
        invariant
            i <= names.len(),
            forall|k: int| 0 <= k < i ==> #[trigger] names@[k]@ != name@,
        decreases names.len() - i,
    {
        if crate::text::same_text(names[i].as_str(), name) {
            return true;
        }
        i = i + 1;
    }
    false
}

/// The compositor offers the input-method protocol: one of its globals is
/// `zwp_input_method_manager_v2`.
pub fn advertises_input_method(interfaces: &Vec<String>) -> (b: bool)
    ensures
        b == exists|i: int|
            0 <= i < interfaces.len() && #[trigger] interfaces@[i]@ == "zwp_input_method_manager_v2"@,
{
    name_listed(interfaces, "zwp_input_method_manager_v2")
}

/// The portal's introspection data names the `InputMethod` interface.
pub fn introspection_has_input_method(xml: &str) -> (b: bool)
    ensures
        b == crate::portal::contains_seq(xml@, "org.freedesktop.portal.InputMethod"@),
{
    contains_text(xml, "org.freedesktop.portal.InputMethod")
}

// ── Sandboxed application detection ──────────────────────────────────────────

/// A sandboxed application process detected on the running system.
#[derive(Clone, Debug)]
pub enum SandboxedApp {
    /// Electron/Chromium renderer or a known Electron-based executable.
    Electron(u32),
    /// Application running inside a Flatpak sandbox.
    Flatpak { pid: u32, app_id: String },
    /// Application running inside a Snap sandbox.
    Snap { pid: u32, snap_name: String },
}

/// The index of the first NUL byte of `s`, or `s.len()` when there is none.
pub open spec fn first_nul(s: Seq<u8>) -> int
    decreases s.len(),
{
    if s.len() == 0 {
        0
    } else if s[0] == 0 {
        0
    } else {
        1 + first_nul(s.drop_first())
    }
}

/// `k` is the index of the first NUL byte (or `s.len()`).
pub proof fn lemma_first_nul(s: Seq<u8>, k: int)
    requires
        0 <= k <= s.len(),
        k == s.len() || s[k] == 0,
        forall|j: int| 0 <= j < k ==> s[j] != 0,
    ensures
        first_nul(s) == k,
    decreases s.len(),
{
    if s.len() > 0 && k > 0 {
        lemma_first_nul(s.drop_first(), k - 1);
    }
}

/// The first NUL byte lies within `s`, or there is none.
pub proof fn lemma_first_nul_bounds(s: Seq<u8>)
    ensures
        0 <= first_nul(s) <= s.len(),
    decreases s.len(),
{
    if s.len() > 0 && s[0] != 0 {
        lemma_first_nul_bounds(s.drop_first());
    }
}

/// The fields of `s` separated by NUL bytes (`<[u8]>::split` on 0): always at
/// least one, possibly empty.
pub open spec fn nul_fields(s: Seq<u8>) -> Seq<Seq<u8>>
    decreases s.len(),
{
    proof {
        lemma_first_nul_bounds(s);
    }
    let i = first_nul(s);
    if i < s.len() {
        seq![s.take(i)] + nul_fields(s.skip(i + 1))
    } else {
        seq![s]
    }
}

/// Split `s` at every NUL byte.
pub fn split_nul(s: &[u8]) -> (fields: Vec<Vec<u8>>)
    ensures
        fields@.len() == nul_fields(s@).len(),
        forall|k: int| 0 <= k < fields@.len() ==> #[trigger] fields@[k]@ == nul_fields(s@)[k],
{
    let mut fields: Vec<Vec<u8>> = Vec::new();
    let ghost mut acc: Seq<Seq<u8>> = Seq::empty();
    let mut cur: Vec<u8> = Vec::new();
    let mut start: usize = 0;
    let mut i: usize = 0;
    assert(s@.skip(0) == s@);
    while i < s.len()
        invariant
            start <= i <= s.len(),
            fields@.len() == acc.len(),
            forall|k: int| 0 <= k < acc.len() ==> #[trigger] fields@[k]@ == acc[k],
            cur@ == s@.subrange(start as int, i as int),
            forall|j: int| start <= j < i ==> s@[j] != 0,
            acc + nul_fields(s@.skip(start as int)) == nul_fields(s@),
        decreases s.len() - i,
    {
        if s[i] == 0 {
            proof {
                let rest = s@.skip(start as int);
                assert(rest[i - start] == 0);
                assert forall|j: int| 0 <= j < i - start implies rest[j] != 0 by {
                    assert(s@[start + j] != 0);
                }
                lemma_first_nul(rest, i - start);
                assert(rest.take(i - start) == cur@);
                assert(rest.skip(i - start + 1) == s@.skip(i + 1));
                assert(acc.push(cur@) + nul_fields(s@.skip(i + 1)) =~= acc + (seq![cur@]
                    + nul_fields(s@.skip(i + 1))));
                acc = acc.push(cur@);
            }
            fields.push(cur);
            cur = Vec::new();
            start = i + 1;
        } else {
            cur.push(s[i]);
        }
        i = i + 1;
    }
    proof {
        let rest = s@.skip(start as int);
        assert(rest == cur@);
        assert forall|j: int| 0 <= j < rest.len() implies rest[j] != 0 by {
            assert(s@[start + j] != 0);
        }
        lemma_first_nul(rest, rest.len() as int);
        assert(nul_fields(rest) == seq![rest]);
        acc = acc.push(cur@);
    }
    fields.push(cur);
    proof {
        assert(acc =~= nul_fields(s@));
    }
    fields
}

/// `p` starts `s`.
pub open spec fn has_prefix(s: Seq<u8>, p: Seq<u8>) -> bool {
    p.len() <= s.len() && s.take(p.len() as int) == p
}

fn strip_prefix(s: &Vec<u8>, p: &[u8]) -> (r: Option<Vec<u8>>)
    ensures
        has_prefix(s@, p@) ==> (r matches Some(rest) && rest@ == s@.skip(p@.len() as int)),
        !has_prefix(s@, p@) ==> r is None,
{
    if p.len() > s.len() {
        return None;
    }
    let mut i: usize = 0;
    while i < p.len()
        invariant
            i <= p.len() <= s.len(),
            forall|k: int| 0 <= k < i ==> s@[k] == p@[k],
        decreases p.len() - i,
    {
        if s[i] != p[i] {
            assert(s@.take(p.len() as int)[i as int] != p@[i as int]);
            return None;
        }
        i = i + 1;
    }
    assert(s@.take(p.len() as int) == p@);
    let mut rest: Vec<u8> = Vec::new();
    let mut j: usize = p.len();
    while j < s.len()
        invariant
            p.len() <= j <= s.len(),
            rest@ == s@.subrange(p.len() as int, j as int),
        decreases s.len() - j,
    {
        rest.push(s[j]);
        j = j + 1;
    }
    assert(rest@ == s@.skip(p.len() as int));
    Some(rest)
}

/// The byte sequence of an ASCII prefix such as `FLATPAK_ID=`.
pub open spec fn key_bytes(key: Seq<char>) -> Seq<u8> {
    encode_utf8(key)
}

/// What the environment block says: the value of the last `FLATPAK_ID=`, of
/// the last `SNAP_NAME=`, and of the first `SNAP=` entry, as raw bytes.
pub open spec fn scan_environ(vars: Seq<Seq<u8>>) -> (Option<Seq<u8>>, Option<Seq<u8>>, Option<Seq<u8>>)
    decreases vars.len(),
{
    if vars.len() == 0 {
        (None, None, None)
    } else {
        let (f, n, p) = scan_environ(vars.drop_last());
        let v = vars.last();
        let flatpak = key_bytes("FLATPAK_ID="@);
        let snap_name = key_bytes("SNAP_NAME="@);
        let snap = key_bytes("SNAP="@);
        if has_prefix(v, flatpak) {
            (Some(v.skip(flatpak.len() as int)), n, p)
        } else if has_prefix(v, snap_name) {
            (f, Some(v.skip(snap_name.len() as int)), p)
        } else if p is None && has_prefix(v, snap) {
            (f, n, Some(v.skip(snap.len() as int)))
        } else {
            (f, n, p)
        }
    }
}

/// The third `/`-separated field of a path (`split('/').nth(2)`), such as
/// the name in a `$SNAP` path `/snap/<name>/<revision>`; none when the path
/// has fewer than two `/`.
pub open spec fn snap_name_from_path(path: Seq<char>) -> Option<Seq<char>> {
    let i1 = position_of(path, '/');
    if i1 == path.len() {
        None
    } else {
        let r1 = path.skip(i1 + 1);
        let i2 = position_of(r1, '/');
        if i2 == r1.len() {
            None
        } else {
            let r2 = r1.skip(i2 + 1);
            Some(r2.take(position_of(r2, '/')))
        }
    }
}

/// The part of a path after its last `/` (the whole path when it has none).
pub open spec fn base_name(path: Seq<char>) -> Seq<char>
    decreases path.len(),
{
    let i = position_of(path, '/');
    if 0 <= i < path.len() {
        base_name(path.skip(i + 1))
    } else {
        path
    }
}

/// The executable names of well-known Electron applications.
pub open spec fn is_known_electron_exe(name: Seq<char>) -> bool {
    name == "electron"@ || name == "code"@ || name == "slack"@ || name == "discord"@
}

/// An Electron process: its executable is a known Electron application, or
/// one of its arguments is `--type=renderer`.
pub open spec fn is_electron_cmdline(cmdline: Seq<u8>) -> bool {
    let args = nul_fields(cmdline);
    is_known_electron_exe(base_name(utf8_lossy(args[0]))) || exists|i: int|
        0 <= i < args.len() && #[trigger] args[i] == key_bytes("--type=renderer"@)
}

/// How a process with this environment block and command line is classified:
/// a Flatpak app when it has `FLATPAK_ID`; else a Snap app when it has
/// `SNAP_NAME` or a `$SNAP` path with a name in it; else an Electron app when
/// its command line says so; else not sandboxed.
pub open spec fn spec_classify(pid: u32, environ: Seq<u8>, cmdline: Option<Seq<u8>>) -> Option<
    (u8, Seq<char>),
> {
    let (f, n, p) = scan_environ(nul_fields(environ));
    let snap = match n {
        Some(name) => Some(utf8_lossy(name)),
        None => match p {
            Some(path) => snap_name_from_path(utf8_lossy(path)),
            None => None,
        },
    };
    match f {
        Some(id) => Some((0u8, utf8_lossy(id))),
        None => match snap {
            Some(name) => Some((1u8, name)),
            None => match cmdline {
                Some(c) => if is_electron_cmdline(c) {
                    Some((2u8, Seq::empty()))
                } else {
                    None
                },
                None => None,
            },
        },
    }
}

/// A detected app as `(kind, name)` with kind 0 for Flatpak, 1 for Snap,
/// 2 for Electron (whose name is empty).
pub open spec fn app_view(a: SandboxedApp) -> (u8, Seq<char>) {
    match a {
        SandboxedApp::Flatpak { app_id, .. } => (0u8, app_id@),
        SandboxedApp::Snap { snap_name, .. } => (1u8, snap_name@),
        SandboxedApp::Electron(_) => (2u8, Seq::empty()),
    }
}

/// The process id of a detected app.
pub open spec fn app_pid(a: SandboxedApp) -> u32 {
    match a {
        SandboxedApp::Flatpak { pid, .. } => pid,
        SandboxedApp::Snap { pid, .. } => pid,
        SandboxedApp::Electron(pid) => pid,
    }
}


/// The bytes held by an optional buffer.
pub open spec fn opt_bytes(o: Option<Vec<u8>>) -> Option<Seq<u8>> {
    match o {
        Some(v) => Some(v@),
        None => None,
    }
}

/// The characters held by an optional string.
pub open spec fn opt_text(o: Option<String>) -> Option<Seq<char>> {
    match o {
        Some(v) => Some(v@),
        None => None,
    }
}

fn key_of(key: &str) -> (b: &[u8])
    ensures
        b@ == key_bytes(key@),
{
    let b = key.as_bytes();
    proof {
        assert(key.spec_bytes() == encode_utf8(key@));
    }
    b
}

fn copy_bytes(v: &Vec<u8>) -> (r: Vec<u8>)
    ensures
        r@ == v@,
{
    let mut r: Vec<u8> = Vec::new();
    let mut i: usize = 0;
    while i < v.len()
        invariant
            i <= v.len(),
            r@ == v@.take(i as int),
        decreases v.len() - i,
    {
        r.push(v[i]);
        assert(v@.take(i + 1) == v@.take(i as int).push(v@[i as int]));
        i = i + 1;
    }
    assert(v@.take(v.len() as int) == v@);
    r
}

/// Read the environment block: the last `FLATPAK_ID`, the last `SNAP_NAME`
/// and the first `SNAP` value.
pub fn scan_environ_block(environ: &[u8]) -> (r: (Option<Vec<u8>>, Option<Vec<u8>>, Option<Vec<u8>>))
    ensures
        (opt_bytes(r.0), opt_bytes(r.1), opt_bytes(r.2)) == scan_environ(nul_fields(environ@)),
{
    let vars = split_nul(environ);
    let ghost fields = nul_fields(environ@);
    let flatpak = key_of("FLATPAK_ID=");
    let snap_name = key_of("SNAP_NAME=");
    let snap = key_of("SNAP=");
    let mut f: Option<Vec<u8>> = None;
    let mut n: Option<Vec<u8>> = None;
    let mut p: Option<Vec<u8>> = None;
    let mut i: usize = 0;
    assert(fields.take(0) =~= Seq::<Seq<u8>>::empty());
    while i < vars.len()
        invariant
            i <= vars.len() == fields.len(),
            forall|k: int| 0 <= k < vars@.len() ==> #[trigger] vars@[k]@ == fields[k],
            flatpak@ == key_bytes("FLATPAK_ID="@),
            snap_name@ == key_bytes("SNAP_NAME="@),
            snap@ == key_bytes("SNAP="@),
            (opt_bytes(f), opt_bytes(n), opt_bytes(p)) == scan_environ(fields.take(i as int)),
        decreases vars.len() - i,
    {
        assert(fields.take(i + 1).drop_last() == fields.take(i as int));
        assert(fields.take(i + 1).last() == vars@[i as int]@);
        let v = &vars[i];
        match strip_prefix(v, flatpak) {
            Some(rest) => {
                f = Some(rest);
            },
            None => match strip_prefix(v, snap_name) {
                Some(rest) => {
                    n = Some(rest);
                },
                None => {
                    if p.is_none() {
                        match strip_prefix(v, snap) {
                            Some(rest) => {
                                p = Some(rest);
                            },
                            None => {},
                        }
                    }
                },
            },
        }
        i = i + 1;
    }
    assert(fields.take(vars.len() as int) == fields);
    (f, n, p)
}

/// The third `/`-separated field of a path.
pub fn snap_name_of_path(path: &str) -> (r: Option<String>)
    ensures
        opt_text(r) == snap_name_from_path(path@),
{
    let cs = chars_of(path);
    assert(cs@.skip(0) == cs@);
    let i1 = position_in(&cs, 0, '/');
    if i1 == cs.len() {
        return None;
    }
    let i2 = position_in(&cs, i1 + 1, '/');
    assert(cs@.skip(i1 + 1).len() == cs.len() - (i1 + 1));
    if i2 == cs.len() {
        return None;
    }
    let i3 = position_in(&cs, i2 + 1, '/');
    assert(cs@.skip(i1 + 1).skip(i2 - i1) == cs@.skip(i2 + 1));
    let mut out: Vec<char> = Vec::new();
    let mut m: usize = i2 + 1;
    while m < i3
        invariant
            i2 + 1 <= m <= i3 <= cs.len(),
            out@ == cs@.subrange(i2 + 1, m as int),
        decreases i3 - m,
    {
        out.push(cs[m]);
        m = m + 1;
    }
    assert(out@ == cs@.skip(i2 + 1).take(i3 - (i2 + 1)));
    Some(crate::text::string_from_chars(out.as_slice()))
}

/// The part of a path after its last `/`.
pub fn base_name_of(path: &str) -> (r: String)
    ensures
        r@ == base_name(path@),
{
    let cs = chars_of(path);
    let mut start: usize = 0;
    assert(cs@.skip(0) == cs@);
    loop
        invariant
            start <= cs.len(),
            cs@ == path@,
            base_name(cs@.skip(start as int)) == base_name(path@),
        decreases cs.len() - start,
    {
        let k = position_in(&cs, start, '/');
        if k == cs.len() {
            return crate::text::string_from_chars_from(cs.as_slice(), start);
        }
        assert(cs@.skip(start as int).skip(k - start + 1) == cs@.skip(k + 1));
        start = k + 1;
    }
}

fn bytes_equal(a: &Vec<u8>, b: &[u8]) -> (r: bool)
    ensures
        r == (a@ == b@),
{
    if a.len() != b.len() {
        return false;
    }
    let mut i: usize = 0;
    while i < a.len()
        invariant
            i <= a.len() == b.len(),
            forall|k: int| 0 <= k < i ==> a@[k] == b@[k],
        decreases a.len() - i,
    {
        if a[i] != b[i] {
            assert(a@[i as int] != b@[i as int]);
            return false;
        }
        i = i + 1;
    }
    assert(a@ == b@);
    true
}

/// Splitting always gives at least one field.
pub proof fn lemma_nul_fields_nonempty(s: Seq<u8>)
    ensures
        nul_fields(s).len() >= 1,
{
    lemma_first_nul_bounds(s);
}

/// Whether a command line belongs to an Electron process.
pub fn electron_cmdline(cmdline: &[u8]) -> (b: bool)
    ensures
        b == is_electron_cmdline(cmdline@),
{
    let args = split_nul(cmdline);
    proof {
        lemma_nul_fields_nonempty(cmdline@);
    }
    let first = decode_lossy(args[0].as_slice());
    let base = base_name_of(first.as_str());
    let b = base.as_str();
    if crate::text::same_text(b, "electron") || crate::text::same_text(b, "code")
        || crate::text::same_text(b, "slack") || crate::text::same_text(b, "discord") {
        return true;
    }
    let renderer = key_of("--type=renderer");
    let mut i: usize = 0;
    while i < args.len()
        invariant
            i <= args.len() == nul_fields(cmdline@).len(),
            forall|k: int| 0 <= k < args@.len() ==> #[trigger] args@[k]@ == nul_fields(cmdline@)[k],
            renderer@ == key_bytes("--type=renderer"@),
            forall|k: int| 0 <= k < i ==> #[trigger] nul_fields(cmdline@)[k] != renderer@,
        decreases args.len() - i,
    {
        if bytes_equal(&args[i], renderer) {
            return true;
        }
        i = i + 1;
    }
    false
}

/// Classify one process from its environment block and (if it could be
/// read) its command line.
pub fn classify_process(pid: u32, environ: &[u8], cmdline: Option<&[u8]>) -> (r: Option<SandboxedApp>)
    ensures
        r is None ==> spec_classify(
            pid,
            environ@,
            match cmdline {
                Some(c) => Some(c@),
                None => None,
            },
        ) is None,
        r matches Some(a) ==> app_pid(a) == pid && spec_classify(
            pid,
            environ@,
            match cmdline {
                Some(c) => Some(c@),
                None => None,
            },
        ) == Some(app_view(a)),
{
    let (f, n, p) = scan_environ_block(environ);
    match f {
        Some(id) => {
            return Some(SandboxedApp::Flatpak { pid, app_id: decode_lossy(id.as_slice()) });
        },
        None => {},
    }
    let snap: Option<String> = match n {
        Some(name) => Some(decode_lossy(name.as_slice())),
        None => match p {
            Some(path) => {
                let text = decode_lossy(path.as_slice());
                snap_name_of_path(text.as_str())
            },
            None => None,
        },
    };
    match snap {
        Some(name) => {
            return Some(SandboxedApp::Snap { pid, snap_name: name });
        },
        None => {},
    }
    match cmdline {
        Some(c) => if electron_cmdline(c) {
            Some(SandboxedApp::Electron(pid))
        } else {
            None
        },
        None => None,
    }
}

/// One entry of the process directory, as read by the caller.
#[derive(Clone, Debug)]
pub struct ProcEntry {
    /// The entry's file name (a process id for process directories).
    pub name: String,
    /// The `environ` file, if it could be read.
    pub environ: Option<Vec<u8>>,
    /// The `cmdline` file, if it could be read.
    pub cmdline: Option<Vec<u8>>,
}

/// What the scan finds for one entry: nothing for a name that is not a
/// process id or an unreadable environment, else the classification.
pub open spec fn spec_entry_result(e: ProcEntry) -> Option<(u32, (u8, Seq<char>))> {
    match spec_parse_u32(e.name@) {
        None => None,
        Some(pid) => match e.environ {
            None => None,
            Some(env) => match spec_classify(pid, env@, opt_bytes(e.cmdline)) {
                Some(app) => Some((pid, app)),
                None => None,
            },
        },
    }
}

/// The apps found in the entries, in order.
pub open spec fn spec_detected(entries: Seq<ProcEntry>) -> Seq<(u32, (u8, Seq<char>))>
    decreases entries.len(),
{
    if entries.len() == 0 {
        Seq::empty()
    } else {
        let before = spec_detected(entries.drop_last());
        match spec_entry_result(entries.last()) {
            Some(x) => before.push(x),
            None => before,
        }
    }
}

/// The detected apps as `(pid, (kind, name))`.
pub open spec fn apps_view(v: Seq<SandboxedApp>) -> Seq<(u32, (u8, Seq<char>))> {
    Seq::new(v.len(), |i: int| (app_pid(v[i]), app_view(v[i])))
}

/// Scan the process directory for running sandboxed application processes,
/// skipping entries that are not process ids or whose environment cannot be
/// read.
pub fn detect_sandboxed_apps(entries: &Vec<ProcEntry>) -> (apps: Vec<SandboxedApp>)
    ensures
        apps_view(apps@) == spec_detected(entries@),
{
    let mut apps: Vec<SandboxedApp> = Vec::new();
    let mut i: usize = 0;
    while i < entries.len()
        invariant
            i <= entries.len(),
            apps_view(apps@) == spec_detected(entries@.take(i as int)),
        decreases entries.len() - i,
    {
        let e = &entries[i];
        assert(entries@.take(i + 1).drop_last() == entries@.take(i as int));
        assert(entries@.take(i + 1).last() == entries@[i as int]);
        match parse_u32(e.name.as_str()) {
            None => {},
            Some(pid) => match &e.environ {
                None => {},
                Some(env) => {
                    let cmd: Option<&[u8]> = match &e.cmdline {
                        Some(c) => Some(c.as_slice()),
                        None => None,
                    };
                    match classify_process(pid, env.as_slice(), cmd) {
                        Some(app) => {
                            apps.push(app);
                            assert(apps_view(apps@) =~= spec_detected(entries@.take(i + 1)));
                        },
                        None => {},
                    }
                },
            },
        }
        i = i + 1;
    }
    assert(entries@.take(entries.len() as int) == entries@);
    apps
}

} // verus!
