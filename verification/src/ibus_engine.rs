//! The IBus engine's per-application state and the signals it emits.
//!
//! A dispatch starts with [`SharedState::begin_dispatch`], which returns the
//! first batch of signals.  Where what happens next depends on whether the
//! signals were delivered, the returned [`Pending`] step says so, and
//! [`SharedState::resume_dispatch`] takes the delivery outcome and returns the
//! next batch, until the step is [`Pending::Done`].
use vstd::prelude::*;
use vstd::utf8::*;
use vstd::string::StringSliceAdditionalSpecFns;
use crate::types::{Key, StateTransition, TransitionResult, TransitionV, transition_view};
use crate::platform::{Capabilities, SurroundingText, utf8_bytes, is_boundary_offset};
use crate::ibus::{
    compute_forward_key_ops, char_to_x11_keysym, spec_char_keysym, IBUS_CAP_SURROUNDING_TEXT,
    IBUS_ENGINE_PREEDIT_COMMIT, KEYSYM_BACKSPACE,
};
use crate::text::{char_len, chars_of, common_prefix_len, owned, pop_char};

verus! {

/// The global commit mode from the `[ibus] commit_mode` setting.
#[derive(Clone, Copy, Debug, PartialEq, Eq, Structural)]
pub enum IbusCommitMode {
    /// Inline preedit, committed when the word ends.
    Preedit,
    /// `ForwardKeyEvent(BackSpace)` × N followed by `CommitText` per update.
    BackspaceCommit,
}

/// A signal the engine emits towards ibus-daemon.
#[derive(Clone, Debug)]
pub enum IbusSignal {
    CommitText(String),
    /// `UpdatePreeditText(text, cursor_pos, visible, mode)`; `cursor_pos` is a
    /// character count.
    UpdatePreeditText { text: String, cursor_pos: u32, visible: bool, mode: u32 },
    HidePreeditText,
    ForwardKeyEvent { keyval: u32, keycode: u32, modifiers: u32 },
    GetSurroundingText,
    /// Delete `n_chars` characters starting `offset` characters from the cursor.
    DeleteSurroundingText { offset: i32, n_chars: u32 },
}

/// An [`IbusSignal`] with its text as characters.
pub enum SignalV {
    CommitText(Seq<char>),
    UpdatePreeditText(Seq<char>, u32, bool, u32),
    HidePreeditText,
    ForwardKeyEvent(u32, u32, u32),
    GetSurroundingText,
    DeleteSurroundingText(i32, u32),
}

impl View for IbusSignal {
    type V = SignalV;

    open spec fn view(&self) -> SignalV {
        match self {
            IbusSignal::CommitText(t) => SignalV::CommitText(t@),
            IbusSignal::UpdatePreeditText { text, cursor_pos, visible, mode } =>
                SignalV::UpdatePreeditText(text@, *cursor_pos, *visible, *mode),
            IbusSignal::HidePreeditText => SignalV::HidePreeditText,
            IbusSignal::ForwardKeyEvent { keyval, keycode, modifiers } =>
                SignalV::ForwardKeyEvent(*keyval, *keycode, *modifiers),
            IbusSignal::GetSurroundingText => SignalV::GetSurroundingText,
            IbusSignal::DeleteSurroundingText { offset, n_chars } =>
                SignalV::DeleteSurroundingText(*offset, *n_chars),
        }
    }
}

/// A list of signals as [`SignalV`]s.
pub open spec fn signals_view(v: Seq<IbusSignal>) -> Seq<SignalV> {
    v.map_values(|s: IbusSignal| s@)
}

/// What remains to be done once a batch of signals has been emitted.
#[derive(Clone, Debug)]
pub enum Pending {
    Done,
    /// Forward-key mode: the application now shows the text if every signal
    /// was delivered.
    ShadowIfAllOk(String),
    /// Surrounding-commit mode: the old text was deleted; commit the new one.
    SurroundingDeleted(String),
    /// Surrounding-commit mode: remember the text if it was committed, forget
    /// everything otherwise.
    ShadowOkElseClear(String),
    /// Surrounding-commit mode, cleared preedit: a fresh surrounding text was
    /// requested; erase this many characters once it has arrived.
    ClearedRefresh(usize),
}

/// A [`Pending`] step with its text as characters.
pub enum PendingV {
    Done,
    ShadowIfAllOk(Seq<char>),
    SurroundingDeleted(Seq<char>),
    ShadowOkElseClear(Seq<char>),
    ClearedRefresh(nat),
}

impl View for Pending {
    type V = PendingV;

    open spec fn view(&self) -> PendingV {
        match self {
            Pending::Done => PendingV::Done,
            Pending::ShadowIfAllOk(s) => PendingV::ShadowIfAllOk(s@),
            Pending::SurroundingDeleted(s) => PendingV::SurroundingDeleted(s@),
            Pending::ShadowOkElseClear(s) => PendingV::ShadowOkElseClear(s@),
            Pending::ClearedRefresh(n) => PendingV::ClearedRefresh(*n as nat),
        }
    }
}

/// One batch of signals and what follows it.
pub struct DispatchStep {
    pub signals: Vec<IbusSignal>,
    pub next: Pending,
}

/// The start of a dispatch: the first batch, whether the key event is consumed
/// and whether the composition engine must be reset.
pub struct DispatchStart {
    pub step: DispatchStep,
    pub consumed: bool,
    pub reset_engine: bool,
}

/// How the engine serves the focused application.
#[derive(Clone, Copy, Debug, PartialEq, Eq, Structural)]
pub enum DispatchMode {
    ChromeDirect,
    BackspaceCommit,
    SurroundingCommit,
    ForwardKey,
    Preedit,
}

impl DispatchMode {
    /// The mode's name as written in the log.
    pub fn as_str(&self) -> (s: &'static str)
        ensures
            *self == DispatchMode::ChromeDirect ==> s@ == "chrome_direct"@,
            *self == DispatchMode::BackspaceCommit ==> s@ == "backspace_commit"@,
            *self == DispatchMode::SurroundingCommit ==> s@ == "surrounding_commit"@,
            *self == DispatchMode::ForwardKey ==> s@ == "forward_key"@,
            *self == DispatchMode::Preedit ==> s@ == "preedit"@,
    {
        match self {
            DispatchMode::ChromeDirect => "chrome_direct",
            DispatchMode::BackspaceCommit => "backspace_commit",
            DispatchMode::SurroundingCommit => "surrounding_commit",
            DispatchMode::ForwardKey => "forward_key",
            DispatchMode::Preedit => "preedit",
        }
    }
}

/// The engine's state for the focused application.
#[derive(Debug)]
pub struct SharedState {
    pub surrounding: Option<SurroundingText>,
    /// Raw `IBUS_CAP_*` bits received from the application.
    pub caps_raw: u32,
    /// Preedit cache used by the backend's own preedit calls.
    pub preedit: String,
    pub preedit_cursor: u32,
    /// Cursor position forwarded by the application via `SetCursorLocation`.
    pub cursor_x: i32,
    pub cursor_y: i32,
    /// Characters already forwarded/committed to the application in the
    /// non-preedit modes.
    pub shadow_buf: String,
    /// `DeleteSurroundingText` + `CommitText` per preedit update; never
    /// selected by [`SharedState::set_capabilities`].
    pub use_surrounding_commit: bool,
    /// Text typed via `ForwardKeyEvent`; never selected by
    /// [`SharedState::set_capabilities`].
    pub use_forward_key: bool,
    /// Always use plain preedit, whatever else is configured.
    pub force_preedit_mode: bool,
    /// Use the chrome-direct preedit path.
    pub force_chrome_direct: bool,
    pub chrome_direct_mode: bool,
    /// `ForwardKeyEvent(BackSpace)` × N + `CommitText` per update.
    pub use_backspace_commit: bool,
    pub default_commit_mode: IbusCommitMode,
}

/// `a` and `b` agree on everything but the text the application is known to show.
pub open spec fn same_but_shadow(a: SharedState, b: SharedState) -> bool {
    &&& a.surrounding == b.surrounding
    &&& a.caps_raw == b.caps_raw
    &&& a.preedit == b.preedit
    &&& a.preedit_cursor == b.preedit_cursor
    &&& a.cursor_x == b.cursor_x
    &&& a.cursor_y == b.cursor_y
    &&& a.use_surrounding_commit == b.use_surrounding_commit
    &&& a.use_forward_key == b.use_forward_key
    &&& a.force_preedit_mode == b.force_preedit_mode
    &&& a.force_chrome_direct == b.force_chrome_direct
    &&& a.chrome_direct_mode == b.chrome_direct_mode
    &&& a.use_backspace_commit == b.use_backspace_commit
    &&& a.default_commit_mode == b.default_commit_mode
}

/// The mode flags `set_capabilities` selects:
/// `(surrounding_commit, forward_key, chrome_direct, backspace_commit)`.
pub open spec fn selected_modes(s: SharedState) -> (bool, bool, bool, bool) {
    let chrome = s.force_chrome_direct && !s.force_preedit_mode;
    let backspace = s.default_commit_mode == IbusCommitMode::BackspaceCommit && !chrome
        && !s.force_preedit_mode;
    (false, false, chrome, backspace)
}

impl SharedState {
    /// A fresh state: plain preedit, nothing shown, no surrounding text.
    pub fn new(force_preedit_mode: bool, force_chrome_direct: bool, default_commit_mode: IbusCommitMode)
        -> (s: SharedState)
        ensures
            s.surrounding is None,
            s.caps_raw == 0,
            s.preedit@.len() == 0,
            s.preedit_cursor == 0,
            s.cursor_x == 0 && s.cursor_y == 0,
            s.shadow_buf@.len() == 0,
            !s.use_surrounding_commit && !s.use_forward_key,
            !s.chrome_direct_mode && !s.use_backspace_commit,
            s.force_preedit_mode == force_preedit_mode,
            s.force_chrome_direct == force_chrome_direct,
            s.default_commit_mode == default_commit_mode,
    {
        SharedState {
            surrounding: None,
            caps_raw: 0,
            preedit: String::new(),
            preedit_cursor: 0,
            cursor_x: 0,
            cursor_y: 0,
            shadow_buf: String::new(),
            use_surrounding_commit: false,
            use_forward_key: false,
            force_preedit_mode,
            force_chrome_direct,
            chrome_direct_mode: false,
            use_backspace_commit: false,
            default_commit_mode,
        }
    }

    /// The state with no configuration overrides.
    pub fn default_state() -> (s: SharedState)
        ensures
            s.surrounding is None,
            s.caps_raw == 0,
            s.shadow_buf@.len() == 0,
            !s.use_surrounding_commit && !s.use_forward_key,
            !s.chrome_direct_mode && !s.use_backspace_commit,
            !s.force_preedit_mode && !s.force_chrome_direct,
            s.default_commit_mode == IbusCommitMode::Preedit,
    {
        SharedState::new(false, false, IbusCommitMode::Preedit)
    }

    /// The mode in effect, as `set_capabilities` names it in the log.
    pub fn mode(&self) -> (m: DispatchMode)
        ensures
            m == (if self.chrome_direct_mode { DispatchMode::ChromeDirect }
                else if self.use_backspace_commit { DispatchMode::BackspaceCommit }
                else if self.use_surrounding_commit { DispatchMode::SurroundingCommit }
                else if self.use_forward_key { DispatchMode::ForwardKey }
                else { DispatchMode::Preedit }),
    {
        if self.chrome_direct_mode { DispatchMode::ChromeDirect }
        else if self.use_backspace_commit { DispatchMode::BackspaceCommit }
        else if self.use_surrounding_commit { DispatchMode::SurroundingCommit }
        else if self.use_forward_key { DispatchMode::ForwardKey }
        else { DispatchMode::Preedit }
    }

    /// The application announced its capabilities.  Every application gets
    /// plain preedit; chrome-direct only by configuration, backspace-commit
    /// from the commit-mode setting, and forced preedit overrides both.  The
    /// capability bits are recorded but select nothing.  When the mode changes
    /// the remembered application text is forgotten.
    pub fn set_capabilities(&mut self, caps: u32)
        ensures
            ({
                let (sc, fk, cd, bc) = selected_modes(*old(self));
                &&& final(self).use_surrounding_commit == sc
                &&& final(self).use_forward_key == fk
                &&& final(self).chrome_direct_mode == cd
                &&& final(self).use_backspace_commit == bc
                &&& final(self).shadow_buf@ == (if sc != old(self).use_surrounding_commit
                    || fk != old(self).use_forward_key || cd != old(self).chrome_direct_mode
                    || bc != old(self).use_backspace_commit { Seq::empty() } else { old(self).shadow_buf@ })
            }),
            final(self).caps_raw == caps,
            final(self).surrounding == old(self).surrounding,
            final(self).preedit == old(self).preedit,
            final(self).preedit_cursor == old(self).preedit_cursor,
            final(self).cursor_x == old(self).cursor_x,
            final(self).cursor_y == old(self).cursor_y,
            final(self).force_preedit_mode == old(self).force_preedit_mode,
            final(self).force_chrome_direct == old(self).force_chrome_direct,
            final(self).default_commit_mode == old(self).default_commit_mode,
    {
        let mut new_surrounding_commit = false;
        let mut new_forward_key = false;
        let mut new_chrome_direct = self.force_chrome_direct;
        if new_chrome_direct {
            new_surrounding_commit = false;
            new_forward_key = false;
        }
        if self.force_preedit_mode {
            new_surrounding_commit = false;
            new_forward_key = false;
            new_chrome_direct = false;
        }
        let mut new_backspace_commit = self.default_commit_mode == IbusCommitMode::BackspaceCommit;
        if new_chrome_direct || self.force_preedit_mode {
            new_backspace_commit = false;
        }
        let mode_changed = new_surrounding_commit != self.use_surrounding_commit
            || new_forward_key != self.use_forward_key
            || new_chrome_direct != self.chrome_direct_mode
            || new_backspace_commit != self.use_backspace_commit;
        if mode_changed {
            self.shadow_buf = String::new();
        }
        self.caps_raw = caps;
        self.use_surrounding_commit = new_surrounding_commit;
        self.use_forward_key = new_forward_key;
        self.chrome_direct_mode = new_chrome_direct;
        self.use_backspace_commit = new_backspace_commit;
    }

    /// Capabilities the backend reports: surrounding text when the application
    /// announced it, preedit and lookup tables always.
    pub fn backend_capabilities(&self) -> (c: Capabilities)
        ensures
            c.surrounding_text == (self.caps_raw & IBUS_CAP_SURROUNDING_TEXT != 0),
            c.preedit && c.lookup_table,
    {
        Capabilities {
            surrounding_text: self.caps_raw & IBUS_CAP_SURROUNDING_TEXT != 0,
            preedit: true,
            lookup_table: true,
        }
    }

    /// The most recently reported cursor location, `(0, 0)` until one arrives.
    pub fn cursor_position(&self) -> (p: (i32, i32))
        ensures
            p == (self.cursor_x, self.cursor_y),
    {
        (self.cursor_x, self.cursor_y)
    }

    /// Record the application's `SetCursorLocation`.
    pub fn set_cursor_location(&mut self, x: i32, y: i32)
        ensures
            final(self).cursor_x == x && final(self).cursor_y == y,
            final(self).shadow_buf == old(self).shadow_buf,
            final(self).surrounding == old(self).surrounding,
            final(self).caps_raw == old(self).caps_raw,
    {
        self.cursor_x = x;
        self.cursor_y = y;
    }

    /// Record the application's `SetSurroundingText`.
    pub fn set_surrounding_text(&mut self, text: String, cursor_pos: u32, anchor_pos: u32)
        ensures
            final(self).surrounding matches Some(st) && st.text@ == text@ && st.cursor_pos == cursor_pos
                && st.anchor_pos == anchor_pos,
            final(self).shadow_buf == old(self).shadow_buf,
            final(self).caps_raw == old(self).caps_raw,
            final(self).cursor_x == old(self).cursor_x && final(self).cursor_y == old(self).cursor_y,
    {
        self.surrounding = Some(SurroundingText { text, cursor_pos, anchor_pos });
    }

    /// The backend shows `text` as preedit: it is remembered with the cursor
    /// after its last character, and that cursor (the length in characters,
    /// modulo 2^32) is what the `UpdatePreeditText` signal carries.
    pub fn record_backend_preedit(&mut self, text: &str) -> (cursor: u32)
        ensures
            cursor == text@.len() as u32,
            final(self).preedit@ == text@,
            final(self).preedit_cursor == cursor,
            final(self).shadow_buf == old(self).shadow_buf,
            final(self).surrounding == old(self).surrounding,
            final(self).caps_raw == old(self).caps_raw,
            final(self).cursor_x == old(self).cursor_x && final(self).cursor_y == old(self).cursor_y,
    {
        let n = crate::text::char_len(text);
        let cursor: u32 = #[verifier::truncate] (n as u32);
        self.preedit = crate::text::owned(text);
        self.preedit_cursor = cursor;
        cursor
    }

    /// The backend hides its preedit: nothing is remembered, cursor at 0.
    pub fn clear_backend_preedit(&mut self)
        ensures
            final(self).preedit@.len() == 0,
            final(self).preedit_cursor == 0,
            final(self).shadow_buf == old(self).shadow_buf,
            final(self).surrounding == old(self).surrounding,
            final(self).caps_raw == old(self).caps_raw,
            final(self).cursor_x == old(self).cursor_x && final(self).cursor_y == old(self).cursor_y,
    {
        self.preedit = String::new();
        self.preedit_cursor = 0;
    }
}


/// The `UpdatePreeditText` signal for a preedit: cursor at the end, visible,
/// committed by IBus on focus loss.
pub open spec fn preedit_signal(p: Seq<char>) -> SignalV {
    SignalV::UpdatePreeditText(p, p.len() as u32, true, IBUS_ENGINE_PREEDIT_COMMIT)
}

/// Commit the text, then hide the preedit (commit first: some clients drop the
/// word when the hide arrives first).
pub open spec fn commit_then_hide(c: Seq<char>) -> Seq<SignalV> {
    seq![SignalV::CommitText(c), SignalV::HidePreeditText]
}

/// After a commit, Return and Tab are forwarded so the application acts on them.
pub open spec fn forward_after_commit(trigger: Key) -> Seq<SignalV> {
    match trigger {
        Key::Return => seq![SignalV::ForwardKeyEvent(0xff0d, 0, 0)],
        Key::Tab => seq![SignalV::ForwardKeyEvent(0xff09, 0, 0)],
        _ => Seq::empty(),
    }
}

/// `n` BackSpace key events.
pub open spec fn backspaces(n: nat) -> Seq<SignalV> {
    Seq::new(n, |i: int| SignalV::ForwardKeyEvent(KEYSYM_BACKSPACE, 0, 0))
}

/// One key event per character.
pub open spec fn typed_chars(s: Seq<char>) -> Seq<SignalV> {
    s.map_values(|c: char| SignalV::ForwardKeyEvent(spec_char_keysym(c), 0, 0))
}

/// The outcome of one batch: signals, what follows, and the application text
/// the engine remembers afterwards.
pub struct StepV {
    pub signals: Seq<SignalV>,
    pub pending: PendingV,
    pub shadow: Seq<char>,
}

/// The outcome of starting a dispatch.
pub struct StartV {
    pub step: StepV,
    pub consumed: bool,
    pub reset: bool,
}

/// Forward-key mode: erase what differs and type the rest; the application
/// text is updated once every key event was delivered.
pub open spec fn forward_key_step(shadow: Seq<char>, p: Seq<char>) -> StepV {
    let n = common_prefix_len(shadow, p);
    StepV {
        signals: backspaces((shadow.len() - n) as nat) + typed_chars(p.skip(n)),
        pending: PendingV::ShadowIfAllOk(p),
        shadow,
    }
}

/// Surrounding-commit mode: delete everything shown, then commit the new text.
pub open spec fn surrounding_step(shadow: Seq<char>, p: Seq<char>) -> StepV {
    let b = shadow.len();
    if b > 0 {
        StepV {
            signals: seq![SignalV::DeleteSurroundingText((-b) as i32, b as u32)],
            pending: PendingV::SurroundingDeleted(p),
            shadow,
        }
    } else if p.len() > 0 {
        StepV { signals: seq![SignalV::CommitText(p)], pending: PendingV::ShadowOkElseClear(p), shadow }
    } else {
        StepV { signals: Seq::empty(), pending: PendingV::Done, shadow: p }
    }
}

/// Backspace-commit mode: erase everything shown, commit the new text.
pub open spec fn backspace_step(shadow: Seq<char>, p: Seq<char>) -> StepV {
    StepV {
        signals: backspaces(shadow.len()) + (if p.len() > 0 { seq![SignalV::CommitText(p)] } else { Seq::empty() }),
        pending: PendingV::Done,
        shadow: p,
    }
}

/// Chrome-direct mode: a preedit update, preceded by a hide when it is empty.
pub open spec fn chrome_step(p: Seq<char>) -> StepV {
    StepV {
        signals: (if p.len() == 0 { seq![SignalV::HidePreeditText] } else { Seq::empty() }) + seq![preedit_signal(p)],
        pending: PendingV::Done,
        shadow: p,
    }
}

/// A finished batch that leaves the application text as `shadow`.
pub open spec fn done(signals: Seq<SignalV>, shadow: Seq<char>) -> StepV {
    StepV { signals, pending: PendingV::Done, shadow }
}

/// A started dispatch.
pub open spec fn start(step: StepV, consumed: bool) -> StartV {
    StartV { step, consumed, reset: false }
}

/// The signals and state change for one engine transition, in the mode the
/// state selects; `trigger` is the key that caused it.
pub open spec fn begin_spec(s: SharedState, t: TransitionV, trigger: Key) -> StartV {
    let shadow = s.shadow_buf@;
    let sc = s.use_surrounding_commit;
    let fk = s.use_forward_key;
    let cd = s.chrome_direct_mode;
    let bc = s.use_backspace_commit;
    match t {
        TransitionV::PreeditUpdated(p) => start(
            if sc { surrounding_step(shadow, p) }
            else if bc { backspace_step(shadow, p) }
            else if fk { forward_key_step(shadow, p) }
            else if cd { chrome_step(p) }
            else { done(seq![preedit_signal(p)], shadow) },
            true,
        ),
        TransitionV::Commit(c) => commit_start(s, c, trigger),
        TransitionV::CommitAndClear(c) => commit_start(s, c, trigger),
        TransitionV::CommitThenPassThrough(c) =>
            if fk || sc || bc { start(done(Seq::empty(), Seq::empty()), false) }
            else if cd { start(done(commit_then_hide(c), Seq::empty()), false) }
            else { start(done(commit_then_hide(c), shadow), false) },
        TransitionV::CommitThenPreedit(c, p) =>
            if bc { start(backspace_step(Seq::empty(), p), true) }
            else if sc { start(surrounding_step(Seq::empty(), p), true) }
            else if fk { start(forward_key_step(Seq::empty(), p), true) }
            else if cd {
                let ch = chrome_step(p);
                start(StepV { signals: commit_then_hide(c) + ch.signals, pending: ch.pending, shadow: ch.shadow }, true)
            } else { start(done(commit_then_hide(c) + seq![preedit_signal(p)], shadow), true) },
        TransitionV::Cleared =>
            if sc {
                if shadow.len() > 0 {
                    start(StepV {
                        signals: seq![SignalV::GetSurroundingText],
                        pending: PendingV::ClearedRefresh(shadow.len()),
                        shadow,
                    }, true)
                } else {
                    start(done(Seq::empty(), Seq::empty()), true)
                }
            } else if fk || bc {
                start(done(backspaces(shadow.len()), Seq::empty()), true)
            } else {
                start(done(seq![SignalV::HidePreeditText], Seq::empty()), true)
            },
        TransitionV::PassThrough =>
            start(done(Seq::empty(),
                if cd && trigger == Key::Backspace && shadow.len() > 0 { shadow.drop_last() } else { shadow }), false),
        TransitionV::Consumed => start(done(Seq::empty(), shadow), true),
        TransitionV::Failed => StartV { step: done(Seq::empty(), shadow), consumed: false, reset: true },
    }
}

/// A commit transition (`Commit` or `CommitAndClear`).
pub open spec fn commit_start(s: SharedState, c: Seq<char>, trigger: Key) -> StartV {
    if s.use_forward_key || s.use_surrounding_commit || s.use_backspace_commit {
        start(done(Seq::empty(), Seq::empty()), false)
    } else if s.chrome_direct_mode {
        start(done(commit_then_hide(c) + forward_after_commit(trigger), Seq::empty()), true)
    } else {
        start(done(commit_then_hide(c) + forward_after_commit(trigger), s.shadow_buf@), true)
    }
}

/// The characters before byte offset `off` of `text`.
pub open spec fn chars_before(text: Seq<char>, off: int) -> nat {
    decode_utf8(utf8_bytes(text).take(off)).len()
}

/// The smaller of two naturals.
pub open spec fn min_nat(a: nat, b: nat) -> nat {
    if a <= b { a } else { b }
}

/// The next batch once the previous one was emitted; `all_ok` says whether
/// every signal of it was delivered.
pub open spec fn resume_spec(s: SharedState, pending: PendingV, all_ok: bool) -> StepV {
    let shadow = s.shadow_buf@;
    match pending {
        PendingV::Done => done(Seq::empty(), shadow),
        PendingV::ShadowIfAllOk(p) => done(Seq::empty(), if all_ok { p } else { shadow }),
        PendingV::SurroundingDeleted(p) =>
            if all_ok && p.len() > 0 {
                StepV { signals: seq![SignalV::CommitText(p)], pending: PendingV::ShadowOkElseClear(p), shadow }
            } else if all_ok {
                done(Seq::empty(), p)
            } else {
                done(Seq::empty(), Seq::empty())
            },
        PendingV::ShadowOkElseClear(p) => done(Seq::empty(), if all_ok { p } else { Seq::empty() }),
        PendingV::ClearedRefresh(n) => match s.surrounding {
            Some(st) => {
                let d = min_nat(n, chars_before(st.text@, st.cursor_pos as int));
                done(if d > 0 { seq![SignalV::DeleteSurroundingText((-d) as i32, d as u32)] } else { Seq::empty() },
                    Seq::empty())
            },
            None => done(backspaces(n), Seq::empty()),
        },
    }
}


fn emit(out: &mut Vec<IbusSignal>, s: IbusSignal)
    ensures
        signals_view(final(out)@) == signals_view(old(out)@).push(s@),
{
    let ghost before = out@;
    out.push(s);
    assert(signals_view(out@) =~= signals_view(before).push(s@));
}

fn preedit_update(p: &str) -> (s: IbusSignal)
    ensures
        s@ == preedit_signal(p@),
{
    IbusSignal::UpdatePreeditText {
        text: owned(p),
        cursor_pos: char_len(p) as u32,
        visible: true,
        mode: IBUS_ENGINE_PREEDIT_COMMIT,
    }
}

fn emit_backspaces(out: &mut Vec<IbusSignal>, n: usize)
    ensures
        signals_view(final(out)@) == signals_view(old(out)@) + backspaces(n as nat),
{
    let ghost before = signals_view(out@);
    let mut i: usize = 0;
    while i < n
        invariant
            i <= n,
            signals_view(out@) == before + backspaces(i as nat),
        decreases n - i,
    {
        emit(out, IbusSignal::ForwardKeyEvent { keyval: KEYSYM_BACKSPACE, keycode: 0, modifiers: 0 });
        assert(backspaces((i + 1) as nat) =~= backspaces(i as nat).push(
            SignalV::ForwardKeyEvent(KEYSYM_BACKSPACE, 0, 0)));
        i = i + 1;
    }
}

fn emit_typed(out: &mut Vec<IbusSignal>, s: &str)
    ensures
        signals_view(final(out)@) == signals_view(old(out)@) + typed_chars(s@),
{
    let ghost before = signals_view(out@);
    let cs = chars_of(s);
    let mut i: usize = 0;
    while i < cs.len()
        invariant
            i <= cs.len(),
            cs@ == s@,
            signals_view(out@) == before + typed_chars(s@.take(i as int)),
        decreases cs.len() - i,
    {
        emit(out, IbusSignal::ForwardKeyEvent { keyval: char_to_x11_keysym(cs[i]), keycode: 0, modifiers: 0 });
        assert(typed_chars(s@.take(i + 1)) =~= typed_chars(s@.take(i as int)).push(
            SignalV::ForwardKeyEvent(spec_char_keysym(s@[i as int]), 0, 0)));
        i = i + 1;
    }
    assert(s@.take(cs.len() as int) =~= s@);
}

fn emit_commit_then_hide(out: &mut Vec<IbusSignal>, c: &str)
    ensures
        signals_view(final(out)@) == signals_view(old(out)@) + commit_then_hide(c@),
{
    let ghost before = signals_view(out@);
    emit(out, IbusSignal::CommitText(owned(c)));
    emit(out, IbusSignal::HidePreeditText);
    assert(signals_view(out@) =~= before + commit_then_hide(c@));
}

fn emit_forward_after_commit(out: &mut Vec<IbusSignal>, trigger: &Key)
    ensures
        signals_view(final(out)@) == signals_view(old(out)@) + forward_after_commit(*trigger),
{
    let ghost before = signals_view(out@);
    match trigger {
        Key::Return => emit(out, IbusSignal::ForwardKeyEvent { keyval: 0xff0d, keycode: 0, modifiers: 0 }),
        Key::Tab => emit(out, IbusSignal::ForwardKeyEvent { keyval: 0xff09, keycode: 0, modifiers: 0 }),
        _ => {},
    }
    assert(signals_view(out@) =~= before + forward_after_commit(*trigger));
}

/// The step's signals were appended to `out`, the shadow text is as the step
/// says, and nothing else of the state changed.
pub open spec fn step_applied(
    before: SharedState,
    after: SharedState,
    out_before: Seq<IbusSignal>,
    out_after: Seq<IbusSignal>,
    pending: PendingV,
    e: StepV,
) -> bool {
    &&& signals_view(out_after) == signals_view(out_before) + e.signals
    &&& pending == e.pending
    &&& after.shadow_buf@ == e.shadow
    &&& same_but_shadow(before, after)
}

impl SharedState {
    fn forward_key_exec(&mut self, p: &str, out: &mut Vec<IbusSignal>) -> (next: Pending)
        ensures
            step_applied(*old(self), *final(self), old(out)@, final(out)@, next@,
                forward_key_step(old(self).shadow_buf@, p@)),
    {
        let ghost before = signals_view(out@);
        let (b, tail) = compute_forward_key_ops(self.shadow_buf.as_str(), p);
        emit_backspaces(out, b);
        emit_typed(out, tail.as_str());
        assert(signals_view(out@) =~= before + forward_key_step(self.shadow_buf@, p@).signals);
        Pending::ShadowIfAllOk(owned(p))
    }

    fn surrounding_exec(&mut self, p: &str, out: &mut Vec<IbusSignal>) -> (next: Pending)
        requires
            old(self).shadow_buf@.len() <= i32::MAX,
        ensures
            step_applied(*old(self), *final(self), old(out)@, final(out)@, next@,
                surrounding_step(old(self).shadow_buf@, p@)),
    {
        let ghost before = signals_view(out@);
        let b = char_len(self.shadow_buf.as_str());
        if b > 0 {
            emit(out, IbusSignal::DeleteSurroundingText { offset: -(b as i32), n_chars: b as u32 });
            assert(signals_view(out@) =~= before + surrounding_step(self.shadow_buf@, p@).signals);
            Pending::SurroundingDeleted(owned(p))
        } else if char_len(p) > 0 {
            emit(out, IbusSignal::CommitText(owned(p)));
            assert(signals_view(out@) =~= before + surrounding_step(self.shadow_buf@, p@).signals);
            Pending::ShadowOkElseClear(owned(p))
        } else {
            self.shadow_buf = owned(p);
            assert(signals_view(out@) =~= before + Seq::<SignalV>::empty());
            Pending::Done
        }
    }

    fn backspace_exec(&mut self, p: &str, out: &mut Vec<IbusSignal>)
        ensures
            step_applied(*old(self), *final(self), old(out)@, final(out)@, PendingV::Done,
                backspace_step(old(self).shadow_buf@, p@)),
    {
        let ghost before = signals_view(out@);
        let n = char_len(self.shadow_buf.as_str());
        emit_backspaces(out, n);
        let ghost mid = signals_view(out@);
        if char_len(p) > 0 {
            emit(out, IbusSignal::CommitText(owned(p)));
        }
        assert(signals_view(out@) =~= before + backspace_step(self.shadow_buf@, p@).signals);
        self.shadow_buf = owned(p);
    }

    fn chrome_exec(&mut self, p: &str, out: &mut Vec<IbusSignal>)
        ensures
            step_applied(*old(self), *final(self), old(out)@, final(out)@, PendingV::Done, chrome_step(p@)),
    {
        let ghost before = signals_view(out@);
        if char_len(p) == 0 {
            emit(out, IbusSignal::HidePreeditText);
        }
        emit(out, preedit_update(p));
        assert(signals_view(out@) =~= before + chrome_step(p@).signals);
        self.shadow_buf = owned(p);
    }
}


/// The number of characters before byte offset `off` of `text`.
pub fn chars_before_offset(text: &str, off: usize) -> (n: usize)
    requires
        is_boundary_offset(text@, off as int),
    ensures
        n == chars_before(text@, off as int),
{
    proof {
        assert(text.spec_bytes() == utf8_bytes(text@));
    }
    let (head, _tail) = text.split_at(off);
    proof {
        vstd::utf8::encode_utf8_decode_utf8(head@);
        assert(utf8_bytes(text@).subrange(0, off as int) =~= utf8_bytes(text@).take(off as int));
    }
    char_len(head)
}

impl SharedState {
    /// Start emitting the signals for an engine transition (see [`begin_spec`]).
    pub fn begin_dispatch(&mut self, transition: &TransitionResult, trigger: &Key) -> (r: DispatchStart)
        requires
            old(self).use_surrounding_commit ==> old(self).shadow_buf@.len() <= i32::MAX,
        ensures
            ({
                let e = begin_spec(*old(self), transition_view(*transition), *trigger);
                &&& step_applied(*old(self), *final(self), Seq::empty(), r.step.signals@, r.step.next@, e.step)
                &&& r.consumed == e.consumed
                &&& r.reset_engine == e.reset
            }),
    {
        let mut out: Vec<IbusSignal> = Vec::new();
        let ghost empty = signals_view(out@);
        assert(empty =~= Seq::<SignalV>::empty());
        let ghost e = begin_spec(*self, transition_view(*transition), *trigger);
        assert(signals_view(Seq::<IbusSignal>::empty()) =~= Seq::<SignalV>::empty());
        match transition {
            Ok(StateTransition::PreeditUpdated(p)) => {
                let p = p.text.as_str();
                let next = if self.use_surrounding_commit {
                    self.surrounding_exec(p, &mut out)
                } else if self.use_backspace_commit {
                    self.backspace_exec(p, &mut out);
                    Pending::Done
                } else if self.use_forward_key {
                    self.forward_key_exec(p, &mut out)
                } else if self.chrome_direct_mode {
                    self.chrome_exec(p, &mut out);
                    Pending::Done
                } else {
                    emit(&mut out, preedit_update(p));
                    Pending::Done
                };
                {
                    assert(signals_view(out@) =~= signals_view(Seq::<IbusSignal>::empty()) + e.step.signals);
                    DispatchStart { step: DispatchStep { signals: out, next }, consumed: true, reset_engine: false }
                }
            },
            Ok(StateTransition::Commit(c)) | Ok(StateTransition::CommitAndClear(c)) => {
                if self.use_forward_key || self.use_surrounding_commit || self.use_backspace_commit {
                    self.shadow_buf = String::new();
                    {
                        assert(signals_view(out@) =~= signals_view(Seq::<IbusSignal>::empty()) + e.step.signals);
                        DispatchStart { step: DispatchStep { signals: out, next: Pending::Done }, consumed: false, reset_engine: false }
                    }
                } else {
                    emit_commit_then_hide(&mut out, c.as_str());
                    emit_forward_after_commit(&mut out, trigger);
                    if self.chrome_direct_mode {
                        self.shadow_buf = String::new();
                    }
                    {
                        assert(signals_view(out@) =~= signals_view(Seq::<IbusSignal>::empty()) + e.step.signals);
                        DispatchStart { step: DispatchStep { signals: out, next: Pending::Done }, consumed: true, reset_engine: false }
                    }
                }
            },
            Ok(StateTransition::CommitThenPassThrough(c)) => {
                if self.use_forward_key || self.use_surrounding_commit || self.use_backspace_commit {
                    self.shadow_buf = String::new();
                } else {
                    emit_commit_then_hide(&mut out, c.as_str());
                    if self.chrome_direct_mode {
                        self.shadow_buf = String::new();
                    }
                }
                {
                    assert(signals_view(out@) =~= signals_view(Seq::<IbusSignal>::empty()) + e.step.signals);
                    DispatchStart { step: DispatchStep { signals: out, next: Pending::Done }, consumed: false, reset_engine: false }
                }
            },
            Ok(StateTransition::CommitThenPreedit(c, p)) => {
                let p = p.text.as_str();
                let next = if self.use_backspace_commit {
                    self.shadow_buf = String::new();
                    self.backspace_exec(p, &mut out);
                    Pending::Done
                } else if self.use_surrounding_commit {
                    self.shadow_buf = String::new();
                    self.surrounding_exec(p, &mut out)
                } else if self.use_forward_key {
                    self.shadow_buf = String::new();
                    self.forward_key_exec(p, &mut out)
                } else if self.chrome_direct_mode {
                    emit_commit_then_hide(&mut out, c.as_str());
                    self.shadow_buf = String::new();
                    self.chrome_exec(p, &mut out);
                    Pending::Done
                } else {
                    emit_commit_then_hide(&mut out, c.as_str());
                    emit(&mut out, preedit_update(p));
                    Pending::Done
                };
                {
                    assert(signals_view(out@) =~= signals_view(Seq::<IbusSignal>::empty()) + e.step.signals);
                    DispatchStart { step: DispatchStep { signals: out, next }, consumed: true, reset_engine: false }
                }
            },
            Ok(StateTransition::Cleared) => {
                let shadow_len = char_len(self.shadow_buf.as_str());
                if self.use_surrounding_commit {
                    if shadow_len > 0 {
                        emit(&mut out, IbusSignal::GetSurroundingText);
                        DispatchStart {
                            step: DispatchStep { signals: out, next: Pending::ClearedRefresh(shadow_len) },
                            consumed: true,
                            reset_engine: false,
                        }
                    } else {
                        self.shadow_buf = String::new();
                        {
                            assert(signals_view(out@) =~= signals_view(Seq::<IbusSignal>::empty()) + e.step.signals);
                            DispatchStart { step: DispatchStep { signals: out, next: Pending::Done }, consumed: true, reset_engine: false }
                        }
                    }
                } else if self.use_forward_key || self.use_backspace_commit {
                    emit_backspaces(&mut out, shadow_len);
                    self.shadow_buf = String::new();
                    {
                        assert(signals_view(out@) =~= signals_view(Seq::<IbusSignal>::empty()) + e.step.signals);
                        DispatchStart { step: DispatchStep { signals: out, next: Pending::Done }, consumed: true, reset_engine: false }
                    }
                } else {
                    self.shadow_buf = String::new();
                    emit(&mut out, IbusSignal::HidePreeditText);
                    {
                        assert(signals_view(out@) =~= signals_view(Seq::<IbusSignal>::empty()) + e.step.signals);
                        DispatchStart { step: DispatchStep { signals: out, next: Pending::Done }, consumed: true, reset_engine: false }
                    }
                }
            },
            Ok(StateTransition::PassThrough) => {
                if self.chrome_direct_mode && *trigger == Key::Backspace {
                    let _ = pop_char(&mut self.shadow_buf);
                }
                {
                    assert(signals_view(out@) =~= signals_view(Seq::<IbusSignal>::empty()) + e.step.signals);
                    DispatchStart { step: DispatchStep { signals: out, next: Pending::Done }, consumed: false, reset_engine: false }
                }
            },
            Ok(StateTransition::Consumed) => {
                {
                    assert(signals_view(out@) =~= signals_view(Seq::<IbusSignal>::empty()) + e.step.signals);
                    DispatchStart { step: DispatchStep { signals: out, next: Pending::Done }, consumed: true, reset_engine: false }
                }
            },
            Err(_) => {
                {
                    assert(signals_view(out@) =~= signals_view(Seq::<IbusSignal>::empty()) + e.step.signals);
                    DispatchStart { step: DispatchStep { signals: out, next: Pending::Done }, consumed: false, reset_engine: true }
                }
            },
        }
    }

    /// Continue a dispatch once the previous batch was emitted; `all_ok` says
    /// whether every signal of it was delivered (see [`resume_spec`]).
    pub fn resume_dispatch(&mut self, pending: Pending, all_ok: bool) -> (r: DispatchStep)
        requires
            pending matches Pending::ClearedRefresh(n) ==> n <= i32::MAX && (old(self).surrounding matches Some(st)
                ==> is_boundary_offset(st.text@, st.cursor_pos as int)),
        ensures
            step_applied(*old(self), *final(self), Seq::empty(), r.signals@, r.next@,
                resume_spec(*old(self), pending@, all_ok)),
    {
        let mut out: Vec<IbusSignal> = Vec::new();
        let ghost empty = signals_view(out@);
        assert(empty =~= Seq::<SignalV>::empty());
        match pending {
            Pending::Done => DispatchStep { signals: out, next: Pending::Done },
            Pending::ShadowIfAllOk(p) => {
                if all_ok {
                    self.shadow_buf = p;
                }
                DispatchStep { signals: out, next: Pending::Done }
            },
            Pending::SurroundingDeleted(p) => {
                if all_ok && char_len(p.as_str()) > 0 {
                    emit(&mut out, IbusSignal::CommitText(owned(p.as_str())));
                    DispatchStep { signals: out, next: Pending::ShadowOkElseClear(p) }
                } else if all_ok {
                    self.shadow_buf = p;
                    DispatchStep { signals: out, next: Pending::Done }
                } else {
                    self.shadow_buf = String::new();
                    DispatchStep { signals: out, next: Pending::Done }
                }
            },
            Pending::ShadowOkElseClear(p) => {
                if all_ok {
                    self.shadow_buf = p;
                } else {
                    self.shadow_buf = String::new();
                }
                DispatchStep { signals: out, next: Pending::Done }
            },
            Pending::ClearedRefresh(n) => {
                match &self.surrounding {
                    Some(st) => {
                        let before = chars_before_offset(st.text.as_str(), st.cursor_pos as usize);
                        let d = if n <= before { n } else { before };
                        if d > 0 {
                            emit(&mut out, IbusSignal::DeleteSurroundingText { offset: -(d as i32), n_chars: d as u32 });
                        }
                    },
                    None => {
                        emit_backspaces(&mut out, n);
                    },
                }
                self.shadow_buf = String::new();
                DispatchStep { signals: out, next: Pending::Done }
            },
        }
    }
}


/// The signals that commit what focus-out or a shortcut leaves composed.
pub open spec fn focus_out_commit(t: TransitionV) -> Seq<SignalV> {
    match t {
        TransitionV::Commit(c) => commit_then_hide(c),
        TransitionV::CommitAndClear(c) => commit_then_hide(c),
        TransitionV::PreeditUpdated(p) => if p.len() > 0 { commit_then_hide(p) } else { Seq::empty() },
        _ => Seq::empty(),
    }
}

/// How a key event from ibus-daemon is handled.
#[derive(Clone, Copy, Debug, PartialEq, Eq, Structural)]
pub enum KeyRoute {
    /// A key release: the engine sees `KeyUp` of the key unless it is a bare
    /// modifier; the event is not consumed.
    Release(Option<Key>),
    /// A bare modifier press: not for the engine, not consumed.
    Modifier,
    /// Ctrl+key: a shortcut for the application; pending text is committed
    /// first, and the event is not consumed.
    Shortcut,
    /// A key for the engine: `KeyDown(key, modifiers)`.
    Compose(Key, crate::types::Modifiers),
}

/// Route an IBus key event (`ProcessKeyEvent(keyval, keycode, state)`).
pub fn route_key_event(keyval: u32, state: u32) -> (r: KeyRoute)
    ensures
        r == (if state & crate::ibus::IBUS_RELEASE_MASK != 0 {
            KeyRoute::Release(if crate::ibus::spec_is_modifier_keysym(keyval) { None }
                else { Some(crate::ibus::spec_keyval_to_key(keyval)) })
        } else if crate::ibus::spec_is_modifier_keysym(keyval) {
            KeyRoute::Modifier
        } else if crate::ibus::spec_state_modifiers(state).ctrl {
            KeyRoute::Shortcut
        } else {
            KeyRoute::Compose(crate::ibus::spec_keyval_to_key(keyval), crate::ibus::spec_state_modifiers(state))
        }),
{
    if state & crate::ibus::IBUS_RELEASE_MASK != 0 {
        if crate::ibus::is_modifier_keysym(keyval) {
            KeyRoute::Release(None)
        } else {
            KeyRoute::Release(Some(crate::ibus::map_keyval_to_key(keyval)))
        }
    } else if crate::ibus::is_modifier_keysym(keyval) {
        KeyRoute::Modifier
    } else {
        let mods = crate::ibus::map_ibus_state(state);
        if mods.ctrl {
            KeyRoute::Shortcut
        } else {
            KeyRoute::Compose(crate::ibus::map_keyval_to_key(keyval), mods)
        }
    }
}

/// The signals for a shortcut pressed during composition: the engine was
/// told focus left, and a commit it answers with goes to the application.
pub fn shortcut_commit_signals(transition: &TransitionResult) -> (v: Vec<IbusSignal>)
    ensures
        signals_view(v@) == (match transition_view(*transition) {
            TransitionV::Commit(c) => commit_then_hide(c),
            TransitionV::CommitAndClear(c) => commit_then_hide(c),
            _ => Seq::<SignalV>::empty(),
        }),
{
    let mut out: Vec<IbusSignal> = Vec::new();
    assert(signals_view(out@) =~= Seq::<SignalV>::empty());
    match transition {
        Ok(StateTransition::Commit(c)) | Ok(StateTransition::CommitAndClear(c)) => {
            emit_commit_then_hide(&mut out, c.as_str());
        },
        _ => {},
    }
    out
}

impl SharedState {
    /// Focus entered an application: the text it shows is unknown, so it is
    /// forgotten, and the application is asked for its surrounding text.
    pub fn focus_in(&mut self) -> (v: Vec<IbusSignal>)
        ensures
            signals_view(v@) == seq![SignalV::GetSurroundingText],
            final(self).shadow_buf@.len() == 0,
            same_but_shadow(*old(self), *final(self)),
    {
        self.shadow_buf = String::new();
        let mut out: Vec<IbusSignal> = Vec::new();
        emit(&mut out, IbusSignal::GetSurroundingText);
        assert(signals_view(out@) =~= seq![SignalV::GetSurroundingText]);
        out
    }

    /// Focus left the application and the engine answered `transition`.  In
    /// the modes where text is already in the application nothing is sent;
    /// otherwise pending text (a commit, or a non-empty preedit) is committed
    /// and the preedit hidden.
    pub fn focus_out(&mut self, transition: &TransitionResult) -> (v: Vec<IbusSignal>)
        ensures
            signals_view(v@) == (if old(self).use_forward_key || old(self).use_surrounding_commit
                || old(self).use_backspace_commit { Seq::<SignalV>::empty() }
                else { focus_out_commit(transition_view(*transition)) }),
            final(self).shadow_buf@.len() == 0,
            same_but_shadow(*old(self), *final(self)),
    {
        self.shadow_buf = String::new();
        let mut out: Vec<IbusSignal> = Vec::new();
        assert(signals_view(out@) =~= Seq::<SignalV>::empty());
        if self.use_forward_key || self.use_surrounding_commit || self.use_backspace_commit {
            return out;
        }
        match transition {
            Ok(StateTransition::Commit(c)) | Ok(StateTransition::CommitAndClear(c)) => {
                emit_commit_then_hide(&mut out, c.as_str());
            },
            Ok(StateTransition::PreeditUpdated(p)) => {
                if char_len(p.text.as_str()) > 0 {
                    emit_commit_then_hide(&mut out, p.text.as_str());
                }
            },
            _ => {},
        }
        out
    }

    /// ibus-daemon reset the engine: whatever the application shows of the
    /// composition is removed (deleted around the cursor, erased with
    /// BackSpace, or hidden, depending on the mode) and forgotten.
    pub fn reset(&mut self) -> (v: Vec<IbusSignal>)
        requires
            old(self).use_surrounding_commit ==> old(self).shadow_buf@.len() <= i32::MAX,
        ensures
            ({
                let n = old(self).shadow_buf@.len();
                signals_view(v@) == (if old(self).use_surrounding_commit {
                    if n > 0 { seq![SignalV::DeleteSurroundingText((-n) as i32, n as u32)] } else { Seq::empty() }
                } else if old(self).use_forward_key || old(self).chrome_direct_mode || old(self).use_backspace_commit {
                    backspaces(n)
                } else {
                    seq![SignalV::HidePreeditText]
                })
            }),
            final(self).shadow_buf@.len() == 0,
            same_but_shadow(*old(self), *final(self)),
    {
        let n = char_len(self.shadow_buf.as_str());
        self.shadow_buf = String::new();
        let mut out: Vec<IbusSignal> = Vec::new();
        assert(signals_view(out@) =~= Seq::<SignalV>::empty());
        if self.use_surrounding_commit {
            if n > 0 {
                emit(&mut out, IbusSignal::DeleteSurroundingText { offset: -(n as i32), n_chars: n as u32 });
                assert(signals_view(out@) =~= seq![SignalV::DeleteSurroundingText((-n) as i32, n as u32)]);
            }
        } else if self.use_forward_key || self.chrome_direct_mode || self.use_backspace_commit {
            emit_backspaces(&mut out, n);
            assert(signals_view(out@) =~= backspaces(n as nat));
        } else {
            emit(&mut out, IbusSignal::HidePreeditText);
            assert(signals_view(out@) =~= seq![SignalV::HidePreeditText]);
        }
        out
    }
}

/// The name of a transition's kind, as logged.
pub fn transition_kind_str(t: &TransitionResult) -> (s: &'static str)
    ensures
        s@ == (match transition_view(*t) {
            TransitionV::PreeditUpdated(_) => "PreeditUpdated"@,
            TransitionV::Commit(_) => "Commit"@,
            TransitionV::CommitAndClear(_) => "CommitAndClear"@,
            TransitionV::CommitThenPreedit(_, _) => "CommitThenPreedit"@,
            TransitionV::CommitThenPassThrough(_) => "CommitThenPassThrough"@,
            TransitionV::Consumed => "Consumed"@,
            TransitionV::PassThrough => "PassThrough"@,
            TransitionV::Cleared => "Cleared"@,
            TransitionV::Failed => "Err"@,
        }),
{
    match t {
        Ok(StateTransition::PreeditUpdated(_)) => "PreeditUpdated",
        Ok(StateTransition::Commit(_)) => "Commit",
        Ok(StateTransition::CommitAndClear(_)) => "CommitAndClear",
        Ok(StateTransition::CommitThenPreedit(..)) => "CommitThenPreedit",
        Ok(StateTransition::CommitThenPassThrough(_)) => "CommitThenPassThrough",
        Ok(StateTransition::Consumed) => "Consumed",
        Ok(StateTransition::PassThrough) => "PassThrough",
        Ok(StateTransition::Cleared) => "Cleared",
        Err(_) => "Err",
    }
}

/// Unless chrome-direct or backspace-commit is configured (or forced
/// preedit overrides them), every application is served in plain preedit
/// mode, whatever capabilities it announces.
pub proof fn lemma_unconfigured_engine_uses_preedit(s: SharedState)
    requires
        !s.force_chrome_direct || s.force_preedit_mode,
        s.default_commit_mode == IbusCommitMode::Preedit || s.force_preedit_mode,
    ensures
        selected_modes(s) == (false, false, false, false),
{
}

/// In plain preedit mode each keystroke that updates the composition emits
/// exactly one `UpdatePreeditText`, with the cursor after the last character,
/// visible and committed by IBus on focus loss, and the key is consumed; a
/// commit emits `CommitText` before `HidePreeditText`.
pub proof fn lemma_preedit_mode_signals(s: SharedState, p: Seq<char>, c: Seq<char>, trigger: Key)
    requires
        !s.use_surrounding_commit,
        !s.use_forward_key,
        !s.chrome_direct_mode,
        !s.use_backspace_commit,
    ensures
        begin_spec(s, TransitionV::PreeditUpdated(p), trigger).step.signals
            == seq![SignalV::UpdatePreeditText(p, p.len() as u32, true, IBUS_ENGINE_PREEDIT_COMMIT)],
        begin_spec(s, TransitionV::PreeditUpdated(p), trigger).consumed,
        begin_spec(s, TransitionV::CommitAndClear(c), trigger).step.signals.take(2)
            == seq![SignalV::CommitText(c), SignalV::HidePreeditText],
        begin_spec(s, TransitionV::Commit(c), trigger).step.signals.take(2)
            == seq![SignalV::CommitText(c), SignalV::HidePreeditText],
{
    assert((commit_then_hide(c) + forward_after_commit(trigger)).take(2) =~= commit_then_hide(c));
}

/// A word committed together with a key that passes through: in plain
/// preedit mode and in chrome-direct mode the application receives the word
/// (`CommitText`) and then loses the preedit (`HidePreeditText`), nothing
/// else, and the key is not consumed so that it reaches the application
/// after the word; chrome-direct also forgets the shown text, plain mode
/// keeps it.  In the modes that type into the application themselves
/// (forward-key, surrounding-commit, backspace-commit) the word is already
/// there: no signal, the remembered text is forgotten, the key not consumed.
pub proof fn lemma_commit_then_pass_through(s: SharedState, c: Seq<char>, trigger: Key)
    ensures
        ({
            let r = begin_spec(s, TransitionV::CommitThenPassThrough(c), trigger);
            &&& !r.consumed
            &&& !r.reset
            &&& r.step.pending == PendingV::Done
            &&& (!s.use_surrounding_commit && !s.use_forward_key && !s.use_backspace_commit ==> {
                &&& r.step.signals.len() == 2
                &&& r.step.signals[0] == SignalV::CommitText(c)
                &&& r.step.signals[1] == SignalV::HidePreeditText
                &&& r.step.shadow == (if s.chrome_direct_mode { Seq::<char>::empty() } else { s.shadow_buf@ })
            })
            &&& (s.use_surrounding_commit || s.use_forward_key || s.use_backspace_commit ==> {
                &&& r.step.signals.len() == 0
                &&& r.step.shadow.len() == 0
            })
        }),
{
}

/// A commit in plain preedit mode: the word, then the hide, then, when the
/// commit was triggered by Return or Tab, that key forwarded (X11 keysyms
/// 0xff0d and 0xff09, no modifiers) so the application acts on it; the key
/// itself is consumed.
pub proof fn lemma_plain_commit_forwards_return_and_tab(s: SharedState, c: Seq<char>, trigger: Key, clear: bool)
    requires
        !s.use_surrounding_commit,
        !s.use_forward_key,
        !s.chrome_direct_mode,
        !s.use_backspace_commit,
    ensures
        ({
            let t = if clear { TransitionV::CommitAndClear(c) } else { TransitionV::Commit(c) };
            let r = begin_spec(s, t, trigger);
            &&& r.consumed
            &&& r.step.signals.len() >= 2
            &&& r.step.signals[0] == SignalV::CommitText(c)
            &&& r.step.signals[1] == SignalV::HidePreeditText
            &&& (trigger == Key::Return ==> r.step.signals.len() == 3
                && r.step.signals[2] == SignalV::ForwardKeyEvent(0xff0d, 0, 0))
            &&& (trigger == Key::Tab ==> r.step.signals.len() == 3
                && r.step.signals[2] == SignalV::ForwardKeyEvent(0xff09, 0, 0))
            &&& (trigger != Key::Return && trigger != Key::Tab ==> r.step.signals.len() == 2)
        }),
{
}

/// In chrome-direct mode a non-empty preedit is shown by exactly one
/// `UpdatePreeditText`, never preceded by a hide; an emptied preedit is
/// hidden first.
pub proof fn lemma_chrome_direct_signals(s: SharedState, p: Seq<char>, trigger: Key)
    requires
        s.chrome_direct_mode,
        !s.use_surrounding_commit,
        !s.use_forward_key,
        !s.use_backspace_commit,
    ensures
        p.len() > 0 ==> begin_spec(s, TransitionV::PreeditUpdated(p), trigger).step.signals
            == seq![SignalV::UpdatePreeditText(p, p.len() as u32, true, IBUS_ENGINE_PREEDIT_COMMIT)],
        p.len() == 0 ==> begin_spec(s, TransitionV::PreeditUpdated(p), trigger).step.signals
            == seq![SignalV::HidePreeditText, preedit_signal(p)],
        begin_spec(s, TransitionV::PreeditUpdated(p), trigger).step.shadow == p,
{
    assert(Seq::<SignalV>::empty() + seq![preedit_signal(p)] =~= seq![preedit_signal(p)]);
    assert(seq![SignalV::HidePreeditText] + seq![preedit_signal(p)] =~= seq![SignalV::HidePreeditText, preedit_signal(p)]);
}

/// In surrounding-commit mode a preedit update keeps the remembered
/// application text right: once every signal of the dispatch is delivered it
/// is the new preedit, and after a failed signal it is forgotten.
pub proof fn lemma_surrounding_commit_tracks_text(s: SharedState, p: Seq<char>, trigger: Key)
    requires
        s.use_surrounding_commit,
    ensures
        ({
            let first = begin_spec(s, TransitionV::PreeditUpdated(p), trigger).step;
            &&& first.pending is Done ==> first.shadow == p
            &&& first.pending is SurroundingDeleted ==> ({
                let second = resume_spec(s, first.pending, true);
                &&& (p.len() > 0 ==> second.pending == PendingV::ShadowOkElseClear(p)
                    && resume_spec(s, second.pending, true).shadow == p
                    && resume_spec(s, second.pending, false).shadow.len() == 0)
                &&& (p.len() == 0 ==> second.pending is Done && second.shadow == p)
                &&& resume_spec(s, first.pending, false).shadow.len() == 0
            })
            &&& first.pending is ShadowOkElseClear ==> first.pending == PendingV::ShadowOkElseClear(p)
                && resume_spec(s, first.pending, true).shadow == p
                && resume_spec(s, first.pending, false).shadow.len() == 0
            &&& !(first.pending is ShadowIfAllOk) && !(first.pending is ClearedRefresh)
        }),
{
}

/// In forward-key mode a preedit update erases the characters after the
/// longest common prefix of what the application shows and the new preedit,
/// and types the rest of the new preedit: applied to what the application
/// shows, that gives the new preedit, which is then remembered if every key
/// was delivered (the old text is kept otherwise).
pub proof fn lemma_forward_key_reaches_preedit(s: SharedState, p: Seq<char>, trigger: Key)
    requires
        s.use_forward_key,
        !s.use_surrounding_commit,
        !s.use_backspace_commit,
    ensures
        ({
            let shadow = s.shadow_buf@;
            let n = common_prefix_len(shadow, p);
            let first = begin_spec(s, TransitionV::PreeditUpdated(p), trigger).step;
            &&& first.signals == backspaces((shadow.len() - n) as nat) + typed_chars(p.skip(n))
            &&& shadow.take(shadow.len() - (shadow.len() - n)) + p.skip(n) == p
            &&& first.pending == PendingV::ShadowIfAllOk(p)
            &&& resume_spec(s, first.pending, true).shadow == p
            &&& resume_spec(s, first.pending, false).shadow == shadow
        }),
{
    crate::fcitx5::lemma_soft_diff_reconstructs(s.shadow_buf@, p);
}

} // verus!
