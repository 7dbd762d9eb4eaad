//! The control protocol between the daemon and the UI / helper tools.
//!
//! Clients send one request per line over a Unix socket at
//! `$XDG_RUNTIME_DIR/vi-daemon.sock` (or `/tmp/vi-daemon-{uid}.sock`) and get
//! one response per line. The socket and the JSON framing are handled by the
//! caller; what each request does to the daemon's state and what is answered
//! is decided here.
use vstd::prelude::*;
use crate::types::InputMethod;
use crate::text::{chars_of, decimal, owned, push_decimal, push_str, spec_decimal};
use crate::fcitx5::{join_path, path_join};

verus! {

/// A request of a control client.
#[derive(Clone, Debug)]
pub enum Request {
    /// Query daemon status.
    Status,
    /// Switch the active input method.
    SetMethod { method: String },
    /// Update the global key bindings (action name, key).
    SetKeyBindings { bindings: Vec<(String, String)> },
    /// Gracefully shut down the daemon.
    Shutdown,
}

/// The daemon's answer to a request.
#[derive(Clone, Debug)]
pub enum Response {
    /// The request was carried out.
    Success,
    Status { backend: String, method: String, preedit: String },
    Error { message: String },
}

/// A response with its texts as character sequences.
pub enum ResponseV {
    Success,
    Status(Seq<char>, Seq<char>, Seq<char>),
    Error(Seq<char>),
}

/// The response as a [`ResponseV`].
pub open spec fn response_view(r: Response) -> ResponseV {
    match r {
        Response::Success => ResponseV::Success,
        Response::Status { backend, method, preedit } => ResponseV::Status(
            backend@,
            method@,
            preedit@,
        ),
        Response::Error { message } => ResponseV::Error(message@),
    }
}

// ── Input method names ───────────────────────────────────────────────────────

/// The input method a client names: `telex`, `vni` or `viqr`.
pub open spec fn spec_parse_method(s: Seq<char>) -> Option<InputMethod> {
    if s == "telex"@ {
        Some(InputMethod::Telex)
    } else if s == "vni"@ {
        Some(InputMethod::Vni)
    } else if s == "viqr"@ {
        Some(InputMethod::Viqr)
    } else {
        None
    }
}


/// The input method a client names.
pub fn parse_method(s: &str) -> (m: Option<InputMethod>)
    ensures
        m == spec_parse_method(s@),
{
    if crate::text::same_text(s, "telex") {
        Some(InputMethod::Telex)
    } else if crate::text::same_text(s, "vni") {
        Some(InputMethod::Vni)
    } else if crate::text::same_text(s, "viqr") {
        Some(InputMethod::Viqr)
    } else {
        None
    }
}

/// The number under which the current method is stored: 0, 1, 2 for Telex,
/// VNI, VIQR.
pub open spec fn spec_method_to_u8(method: InputMethod) -> u8 {
    match method {
        InputMethod::Telex => 0,
        InputMethod::Vni => 1,
        InputMethod::Viqr => 2,
    }
}

/// The number under which the current method is stored.
pub fn method_to_u8(method: InputMethod) -> (v: u8)
    ensures
        v == spec_method_to_u8(method),
{
    match method {
        InputMethod::Telex => 0,
        InputMethod::Vni => 1,
        InputMethod::Viqr => 2,
    }
}

/// The name of a stored method number; anything unknown reads as Telex.
pub open spec fn spec_method_name(v: u8) -> Seq<char> {
    if v == 1 {
        "vni"@
    } else if v == 2 {
        "viqr"@
    } else {
        "telex"@
    }
}

/// The name of a stored method number.
pub fn method_name_from_u8(v: u8) -> (s: &'static str)
    ensures
        s@ == spec_method_name(v),
{
    if v == 1 {
        "vni"
    } else if v == 2 {
        "viqr"
    } else {
        "telex"
    }
}

/// Naming a method and reading back its stored number gives the same name.
pub proof fn lemma_method_name_round_trip(s: Seq<char>)
    requires
        spec_parse_method(s) is Some,
    ensures
        spec_method_name(spec_method_to_u8(spec_parse_method(s)->0)) == s,
{
}

// ── Key bindings ─────────────────────────────────────────────────────────────

/// `c` has the Unicode `White_Space` property.
pub open spec fn is_white_space(c: char) -> bool {
    let v = c as u32;
    (0x09 <= v <= 0x0D) || v == 0x20 || v == 0x85 || v == 0xA0 || v == 0x1680 || (0x2000 <= v
        <= 0x200A) || v == 0x2028 || v == 0x2029 || v == 0x202F || v == 0x205F || v == 0x3000
}

/// Whether `c` is whitespace (`char::is_whitespace`: the Unicode
/// `White_Space` property).
pub(crate) fn char_is_whitespace(c: char) -> (b: bool)
    ensures
        b == is_white_space(c),
{
    let v = c as u32;
    (0x09 <= v && v <= 0x0D) || v == 0x20 || v == 0x85 || v == 0xA0 || v == 0x1680 || (0x2000 <= v
        && v <= 0x200A) || v == 0x2028 || v == 0x2029 || v == 0x202F || v == 0x205F || v == 0x3000
}

/// `s` is empty once surrounding whitespace is trimmed.
pub open spec fn is_blank(s: Seq<char>) -> bool {
    forall|i: int| 0 <= i < s.len() ==> is_white_space(#[trigger] s[i])
}

/// `s.trim().is_empty()`.
pub fn blank(s: &str) -> (b: bool)
    ensures
        b == is_blank(s@),
{
    let cs = chars_of(s);
    let mut i: usize = 0;
    while i < cs.len()
        invariant
            i <= cs.len(),
            cs@ == s@,
            forall|m: int| 0 <= m < i ==> is_white_space(#[trigger] cs@[m]),
        decreases cs.len() - i,
    {
        if !char_is_whitespace(cs[i]) {
            return false;
        }
        i = i + 1;
    }
    true
}

/// The daemon settings a control client can change.
#[derive(Clone, Debug)]
pub struct DaemonConfig {
    /// Action name and key of each global binding.
    pub key_bindings: Vec<(String, String)>,
}

/// The bindings as pairs of character sequences.
pub open spec fn bindings_view(b: Seq<(String, String)>) -> Seq<(Seq<char>, Seq<char>)> {
    Seq::new(b.len(), |i: int| (b[i].0@, b[i].1@))
}

/// Some binding has a blank action or a blank key.
pub open spec fn has_blank_binding(b: Seq<(Seq<char>, Seq<char>)>) -> bool {
    exists|i: int| #![trigger b[i]] 0 <= i < b.len() && (is_blank(b[i].0) || is_blank(b[i].1))
}

/// Storing `new` over `old`: a binding with a blank action or key is refused
/// with `empty action or key` and the old bindings stay; otherwise the new
/// bindings replace them.
pub open spec fn spec_apply_bindings(
    old: Seq<(Seq<char>, Seq<char>)>,
    new: Seq<(Seq<char>, Seq<char>)>,
) -> (ResponseV, Seq<(Seq<char>, Seq<char>)>) {
    if has_blank_binding(new) {
        (ResponseV::Error("empty action or key"@), old)
    } else {
        (ResponseV::Success, new)
    }
}

/// Validate `bindings` and store them in `config`.
pub fn apply_key_bindings(config: &mut DaemonConfig, bindings: Vec<(String, String)>) -> (r:
    Response)
    ensures
        (response_view(r), bindings_view(final(config).key_bindings@)) == spec_apply_bindings(
            bindings_view(old(config).key_bindings@),
            bindings_view(bindings@),
        ),
{
    let ghost bv = bindings_view(bindings@);
    let mut i: usize = 0;
    while i < bindings.len()
        invariant
            i <= bindings.len(),
            bv == bindings_view(bindings@),
            forall|m: int| #![trigger bv[m]] 0 <= m < i ==> !is_blank(bv[m].0) && !is_blank(bv[m].1),
        decreases bindings.len() - i,
    {
        assert(bv[i as int].0 == bindings@[i as int].0@);
        assert(bv[i as int].1 == bindings@[i as int].1@);
        if blank(bindings[i].0.as_str()) || blank(bindings[i].1.as_str()) {
            return Response::Error { message: owned("empty action or key") };
        }
        i = i + 1;
    }
    config.key_bindings = bindings;
    Response::Success
}

// ── Requests ─────────────────────────────────────────────────────────────────

/// What the daemon keeps that requests read and change.
pub struct IpcState {
    /// The backend's display name.
    pub backend: String,
    /// The stored number of the current input method.
    pub method: u8,
    pub config: DaemonConfig,
}

/// What a request leads to besides the response.
#[derive(Clone, Copy, Debug, PartialEq, Eq, Structural)]
pub enum IpcEffect {
    /// Nothing beyond the response.
    Nothing,
    /// The engine must switch to this method.
    SetMethod(InputMethod),
    /// The daemon must exit.
    Shutdown,
}

/// The message for a method name that is not known.
pub open spec fn unknown_method_message(name: Seq<char>) -> Seq<char> {
    "Unknown method: "@ + name
}

/// The request viewed with its texts as character sequences.
pub enum RequestV {
    Status,
    SetMethod(Seq<char>),
    SetKeyBindings(Seq<(Seq<char>, Seq<char>)>),
    Shutdown,
}

/// The request as a [`RequestV`].
pub open spec fn request_view(r: Request) -> RequestV {
    match r {
        Request::Status => RequestV::Status,
        Request::SetMethod { method } => RequestV::SetMethod(method@),
        Request::SetKeyBindings { bindings } => RequestV::SetKeyBindings(bindings_view(bindings@)),
        Request::Shutdown => RequestV::Shutdown,
    }
}

/// The answer to a request, its effect, and the method number and bindings
/// kept afterwards. Status reports the backend, the current method and the
/// preedit; a known method is stored and handed to the engine, an unknown
/// one is refused; bindings are validated and stored; shutdown is
/// acknowledged for the caller to carry out.
pub open spec fn spec_handle_request(
    req: RequestV,
    backend: Seq<char>,
    method: u8,
    bindings: Seq<(Seq<char>, Seq<char>)>,
    preedit: Seq<char>,
) -> (ResponseV, IpcEffect, u8, Seq<(Seq<char>, Seq<char>)>) {
    match req {
        RequestV::Status => (
            ResponseV::Status(backend, spec_method_name(method), preedit),
            IpcEffect::Nothing,
            method,
            bindings,
        ),
        RequestV::SetMethod(name) => match spec_parse_method(name) {
            Some(m) => (ResponseV::Success, IpcEffect::SetMethod(m), spec_method_to_u8(m), bindings),
            None => (ResponseV::Error(unknown_method_message(name)), IpcEffect::Nothing, method, bindings),
        },
        RequestV::SetKeyBindings(new) => {
            let (r, kept) = spec_apply_bindings(bindings, new);
            (r, IpcEffect::Nothing, method, kept)
        },
        RequestV::Shutdown => (ResponseV::Success, IpcEffect::Shutdown, method, bindings),
    }
}

/// Setting key bindings: when every requested binding has a non-blank action
/// and key, the request succeeds and exactly the requested bindings are kept;
/// when one of them is blank, it is refused with `empty action or key` and
/// the old bindings stay.  Either way the method and the effect are
/// untouched.
pub proof fn lemma_set_key_bindings(
    backend: Seq<char>,
    method: u8,
    old: Seq<(Seq<char>, Seq<char>)>,
    new: Seq<(Seq<char>, Seq<char>)>,
    preedit: Seq<char>,
)
    ensures
        ({
            let (r, effect, m, kept) = spec_handle_request(RequestV::SetKeyBindings(new), backend, method, old, preedit);
            &&& effect == IpcEffect::Nothing
            &&& m == method
            &&& (forall|i: int| 0 <= i < new.len() ==> !is_blank(#[trigger] new[i].0) && !is_blank(new[i].1))
                ==> r == ResponseV::Success && kept == new
            &&& (exists|i: int| 0 <= i < new.len() && (is_blank(#[trigger] new[i].0) || is_blank(new[i].1)))
                ==> r == ResponseV::Error("empty action or key"@) && kept == old
        }),
{
    if forall|i: int| 0 <= i < new.len() ==> !is_blank(#[trigger] new[i].0) && !is_blank(new[i].1) {
        assert(!has_blank_binding(new));
    }
}

/// Answer one request. `preedit` is the engine's current preedit text.
pub fn handle_request(req: Request, state: &mut IpcState, preedit: &str) -> (r: (Response, IpcEffect))
    ensures
        final(state).backend@ == old(state).backend@,
        (response_view(r.0), r.1, final(state).method, bindings_view(final(state).config.key_bindings@))
            == spec_handle_request(
            request_view(req),
            old(state).backend@,
            old(state).method,
            bindings_view(old(state).config.key_bindings@),
            preedit@,
        ),
{
    match req {
        Request::Status => {
            let method = owned(method_name_from_u8(state.method));
            (
                Response::Status {
                    backend: state.backend.clone(),
                    method,
                    preedit: owned(preedit),
                },
                IpcEffect::Nothing,
            )
        },
        Request::SetMethod { method } => match parse_method(method.as_str()) {
            Some(m) => {
                state.method = method_to_u8(m);
                (Response::Success, IpcEffect::SetMethod(m))
            },
            None => {
                let mut message = owned("Unknown method: ");
                push_str(&mut message, method.as_str());
                (Response::Error { message }, IpcEffect::Nothing)
            },
        },
        Request::SetKeyBindings { bindings } => {
            let r = apply_key_bindings(&mut state.config, bindings);
            (r, IpcEffect::Nothing)
        },
        Request::Shutdown => (Response::Success, IpcEffect::Shutdown),
    }
}

// ── Socket path ──────────────────────────────────────────────────────────────

/// The control socket: `vi-daemon.sock` in `$XDG_RUNTIME_DIR` when set, else
/// `/tmp/vi-daemon-{uid}.sock`.
pub open spec fn spec_socket_path(xdg_runtime_dir: Option<Seq<char>>, uid: u32) -> Seq<char> {
    match xdg_runtime_dir {
        Some(dir) => path_join(dir, "vi-daemon.sock"@),
        None => "/tmp/vi-daemon-"@ + spec_decimal(uid as nat) + ".sock"@,
    }
}

/// Compute the Unix socket path from `$XDG_RUNTIME_DIR` (`None` when unset)
/// and the user id.
pub fn socket_path(xdg_runtime_dir: Option<&str>, uid: u32) -> (p: String)
    ensures
        p@ == spec_socket_path(
            match xdg_runtime_dir {
                Some(d) => Some(d@),
                None => None,
            },
            uid,
        ),
{
    match xdg_runtime_dir {
        Some(dir) => join_path(dir, "vi-daemon.sock"),
        None => {
            let mut p = owned("/tmp/vi-daemon-");
            push_decimal(&mut p, uid as u64);
            push_str(&mut p, ".sock");
            p
        },
    }
}

/// Where the configuration file is looked for: `vime/config.toml` under
/// `$XDG_CONFIG_HOME`, else under `$HOME/.config`; none when both are unset.
pub open spec fn spec_config_path(xdg_config_home: Option<Seq<char>>, home: Option<Seq<char>>) -> Option<
    Seq<char>,
> {
    let base = match xdg_config_home {
        Some(x) => Some(x),
        None => match home {
            Some(h) => Some(path_join(h, ".config"@)),
            None => None,
        },
    };
    match base {
        Some(b) => Some(path_join(path_join(b, "vime"@), "config.toml"@)),
        None => None,
    }
}

/// The configuration file to load at startup, if any.
pub fn startup_config_path(xdg_config_home: Option<&str>, home: Option<&str>) -> (p: Option<String>)
    ensures
        p matches Some(s) ==> spec_config_path(
            match xdg_config_home {
                Some(d) => Some(d@),
                None => None,
            },
            match home {
                Some(d) => Some(d@),
                None => None,
            },
        ) == Some(s@),
        p is None <==> (xdg_config_home is None && home is None),
{
    let base = match xdg_config_home {
        Some(x) => owned(x),
        None => match home {
            Some(h) => join_path(h, ".config"),
            None => {
                return None;
            },
        },
    };
    let dir = join_path(base.as_str(), "vime");
    Some(join_path(dir.as_str(), "config.toml"))
}

} // verus!
