//! The IBus engine: key routing, application-capability handling and the
//! signals emitted for each composition step.
//!
//! The D-Bus plumbing lives outside this crate; everything the engine decides
//! (which keys reach the composition engine, which mode serves an application,
//! which signals go out and what the engine remembers of the application's
//! text) is computed here.
use vstd::prelude::*;
use crate::types::{InputEvent, Key, Modifiers, StateTransition, TransitionResult};
use crate::platform::{Capabilities, SurroundingText};
use crate::text::{
    chars_of, char_from_u32, common_prefix_len, common_prefix_len_of, owned, string_from_chars_from,
};

verus! {

/// IBus key-modifier bit: key-release event.
pub const IBUS_RELEASE_MASK: u32 = 0x4000_0000;
/// Application supports inline preedit text display.
pub const IBUS_CAP_PREEDIT_TEXT: u32 = 1;
/// Application can supply and receive surrounding-text operations (bit 5).
pub const IBUS_CAP_SURROUNDING_TEXT: u32 = 32;
/// Preedit mode passed with `UpdatePreeditText`: IBus commits the preedit on
/// focus loss instead of discarding it.
pub const IBUS_ENGINE_PREEDIT_COMMIT: u32 = 1;
/// Object path of the engine.
pub const ENGINE_PATH: &'static str = "/org/freedesktop/IBus/Engine/Vi";
/// Object path of the engine factory.
pub const FACTORY_PATH: &'static str = "/org/freedesktop/IBus/Factory";
/// How many times the backend tries to reach ibus-daemon before giving up.
pub const MAX_CONNECT_ATTEMPTS: u32 = 10;
/// The X11 BackSpace keysym.
pub const KEYSYM_BACKSPACE: u32 = 0xff08;

// ── Key mapping ──────────────────────────────────────────────────────────────

/// The keysyms of bare modifier keys (Shift, Control, Caps/Shift lock, Meta,
/// Alt, Super, Num_Lock, ISO_Level3_Shift).
pub open spec fn spec_is_modifier_keysym(keyval: u32) -> bool {
    (0xffe1 <= keyval <= 0xffec) || keyval == 0xff7f || keyval == 0xfe03
}

/// Return `true` for keysyms that represent bare modifier keys.
pub fn is_modifier_keysym(keyval: u32) -> (b: bool)
    ensures
        b == spec_is_modifier_keysym(keyval),
{
    keyval == 0xffe1 || keyval == 0xffe2 || keyval == 0xffe3 || keyval == 0xffe4
        || keyval == 0xffe5 || keyval == 0xffe6 || keyval == 0xffe7 || keyval == 0xffe8
        || keyval == 0xffe9 || keyval == 0xffea || keyval == 0xffeb || keyval == 0xffec
        || keyval == 0xff7f || keyval == 0xfe03
}

/// The key an X11 keysym stands for: the named editing keys, printable ASCII,
/// the Unicode keysym range `0x01000000 + code point` (an invalid code point
/// becomes NUL), and any other keysym as itself.
pub open spec fn spec_keyval_to_key(keyval: u32) -> Key {
    if keyval == 0xff08 { Key::Backspace }
    else if keyval == 0xffff { Key::Delete }
    else if keyval == 0xff0d { Key::Return }
    else if keyval == 0xff1b { Key::Escape }
    else if keyval == 0xff09 { Key::Tab }
    else if keyval == 0xff51 { Key::Left }
    else if keyval == 0xff52 { Key::Up }
    else if keyval == 0xff53 { Key::Right }
    else if keyval == 0xff54 { Key::Down }
    else if keyval == 0xff50 { Key::Home }
    else if keyval == 0xff57 { Key::End }
    else if 0x20 <= keyval <= 0x7e { Key::Char(keyval as char) }
    else if 0x0100_0000 <= keyval <= 0x0110_ffff {
        let cp = (keyval - 0x0100_0000) as u32;
        if cp <= 0x10FFFF && !(0xD800 <= cp <= 0xDFFF) { Key::Char(cp as char) } else { Key::Char('\0') }
    }
    else { Key::Keysym(keyval) }
}

/// Map an IBus/X11 keysym to a [`Key`].
pub fn map_keyval_to_key(keyval: u32) -> (k: Key)
    ensures
        k == spec_keyval_to_key(keyval),
{
    if keyval == 0xff08 { Key::Backspace }
    else if keyval == 0xffff { Key::Delete }
    else if keyval == 0xff0d { Key::Return }
    else if keyval == 0xff1b { Key::Escape }
    else if keyval == 0xff09 { Key::Tab }
    else if keyval == 0xff51 { Key::Left }
    else if keyval == 0xff52 { Key::Up }
    else if keyval == 0xff53 { Key::Right }
    else if keyval == 0xff54 { Key::Down }
    else if keyval == 0xff50 { Key::Home }
    else if keyval == 0xff57 { Key::End }
    else if 0x20 <= keyval && keyval <= 0x7e {
        match char_from_u32(keyval) {
            Some(c) => {
                proof { vstd::utf8::char_u32_cast(c, keyval); }
                Key::Char(c)
            },
            None => Key::Char('\0'),
        }
    } else if 0x0100_0000 <= keyval && keyval <= 0x0110_ffff {
        match char_from_u32(keyval - 0x0100_0000) {
            Some(c) => {
                proof { vstd::utf8::char_u32_cast(c, (keyval - 0x0100_0000) as u32); }
                Key::Char(c)
            },
            None => Key::Char('\0'),
        }
    } else {
        Key::Keysym(keyval)
    }
}

/// The modifiers encoded in an IBus/X11 state bitmask.
pub open spec fn spec_state_modifiers(state: u32) -> Modifiers {
    Modifiers {
        shift: state & 1 != 0,
        caps_lock: state & 2 != 0,
        ctrl: state & 4 != 0,
        alt: state & 8 != 0,
        altgr: state & 0x80 != 0,
        super_key: state & 0x0400_0000 != 0,
    }
}

/// Map the IBus/X11 modifier state bitmask to [`Modifiers`].
pub fn map_ibus_state(state: u32) -> (m: Modifiers)
    ensures
        m == spec_state_modifiers(state),
{
    Modifiers {
        shift: state & 1 != 0,
        caps_lock: state & 2 != 0,
        ctrl: state & 4 != 0,
        alt: state & 8 != 0,
        altgr: state & 0x80 != 0,
        super_key: state & 0x0400_0000 != 0,
    }
}

/// The X11 keysym of a character: Latin-1 code points are their own keysym,
/// any other character is `0x01000000 + code point`.
pub open spec fn spec_char_keysym(c: char) -> u32 {
    if (c as u32) <= 0xff { c as u32 } else { (0x0100_0000 + c as u32) as u32 }
}

/// The X11 keysym of a character.
pub fn char_to_x11_keysym(c: char) -> (k: u32)
    ensures
        k == spec_char_keysym(c),
{
    let cp = c as u32;
    if cp <= 0xff {
        cp
    } else {
        assert(cp <= 0x10FFFF);
        assert(cp <= 0x10FFFF ==> 0x0100_0000u32 | cp == 0x0100_0000u32 + cp) by (bit_vector);
        0x0100_0000 | cp
    }
}

/// The dead-key keysym of a dead-key character, 0 for one without a keysym.
pub open spec fn spec_dead_keysym(c: char) -> u32 {
    if c == '^' { 0xfe52 } else if c == '(' { 0xfe55 } else if c == '+' { 0xfe62 }
    else if c == 'd' || c == 'D' { 0xfe63 } else if c == '`' { 0xfe50 }
    else if c == '\'' { 0xfe51 } else if c == '~' { 0xfe53 } else if c == '.' { 0xfe60 }
    else if c == '?' { 0xfe61 } else { 0 }
}

/// The editing keys, which have X11 keysyms of their own.
pub open spec fn is_editing_key(k: Key) -> bool {
    ||| k is Backspace
    ||| k is Delete
    ||| k is Return
    ||| k is Escape
    ||| k is Tab
    ||| k is Left
    ||| k is Up
    ||| k is Right
    ||| k is Down
    ||| k is Home
    ||| k is End
}

/// The X11 keysyms of the editing keys (`keysymdef.h`): `XK_BackSpace`,
/// `XK_Delete`, `XK_Return`, `XK_Escape`, `XK_Tab`, `XK_Home`, `XK_Left`,
/// `XK_Up`, `XK_Right`, `XK_Down`, `XK_End` are read as the keys of those
/// names, and each such key is forwarded as that keysym.
pub proof fn lemma_x11_editing_keysyms()
    ensures
        spec_keyval_to_key(0xff08) == Key::Backspace,
        spec_keyval_to_key(0xffff) == Key::Delete,
        spec_keyval_to_key(0xff0d) == Key::Return,
        spec_keyval_to_key(0xff1b) == Key::Escape,
        spec_keyval_to_key(0xff09) == Key::Tab,
        spec_keyval_to_key(0xff50) == Key::Home,
        spec_keyval_to_key(0xff51) == Key::Left,
        spec_keyval_to_key(0xff52) == Key::Up,
        spec_keyval_to_key(0xff53) == Key::Right,
        spec_keyval_to_key(0xff54) == Key::Down,
        spec_keyval_to_key(0xff57) == Key::End,
        spec_key_keyval(Key::Backspace) == 0xff08,
        spec_key_keyval(Key::Delete) == 0xffff,
        spec_key_keyval(Key::Return) == 0xff0d,
        spec_key_keyval(Key::Escape) == 0xff1b,
        spec_key_keyval(Key::Tab) == 0xff09,
        spec_key_keyval(Key::Home) == 0xff50,
        spec_key_keyval(Key::Left) == 0xff51,
        spec_key_keyval(Key::Up) == 0xff52,
        spec_key_keyval(Key::Right) == 0xff53,
        spec_key_keyval(Key::Down) == 0xff54,
        spec_key_keyval(Key::End) == 0xff57,
{
}

/// Reading an editing key's keysym gives the key back, and reading an
/// editing keysym and forwarding the key gives the keysym back: the two
/// mappings are inverse on the editing keys.
pub proof fn lemma_editing_keys_round_trip(key: Key, keyval: u32)
    ensures
        is_editing_key(key) ==> spec_keyval_to_key(spec_key_keyval(key)) == key,
        is_editing_key(spec_keyval_to_key(keyval)) ==> spec_key_keyval(spec_keyval_to_key(keyval)) == keyval,
{
}

/// A printable ASCII keysym is the character of that code, and forwarding
/// the character gives the keysym back; a Unicode keysym `0x0100_0000 + cp`
/// above Latin-1 is the character `cp`, forwarded as the same keysym.
pub proof fn lemma_character_keysyms(keyval: u32)
    ensures
        0x20 <= keyval <= 0x7e ==> spec_keyval_to_key(keyval) == Key::Char(keyval as char)
            && spec_key_keyval(spec_keyval_to_key(keyval)) == keyval,
        0x0100_0100 <= keyval <= 0x0110_ffff && !(0x0100_d800 <= keyval <= 0x0100_dfff) ==>
            spec_keyval_to_key(keyval) == Key::Char((keyval - 0x0100_0000) as char)
            && spec_key_keyval(spec_keyval_to_key(keyval)) == keyval,
{
}

/// The keysym IBus forwards for a key.
pub open spec fn spec_key_keyval(key: Key) -> u32 {
    match key {
        Key::Char(c) => spec_char_keysym(c),
        Key::Backspace => 0xff08,
        Key::Delete => 0xffff,
        Key::Return => 0xff0d,
        Key::Escape => 0xff1b,
        Key::Tab => 0xff09,
        Key::Left => 0xff51,
        Key::Up => 0xff52,
        Key::Right => 0xff53,
        Key::Down => 0xff54,
        Key::Home => 0xff50,
        Key::End => 0xff57,
        Key::Keysym(k) => k,
        Key::DeadKey(c) => spec_dead_keysym(c),
        Key::ComposeKey => 0xff20,
    }
}

/// The keysym IBus forwards for a key.
pub fn key_to_ibus_keyval(key: &Key) -> (k: u32)
    ensures
        k == spec_key_keyval(*key),
{
    match key {
        Key::Char(c) => char_to_x11_keysym(*c),
        Key::Backspace => 0xff08,
        Key::Delete => 0xffff,
        Key::Return => 0xff0d,
        Key::Escape => 0xff1b,
        Key::Tab => 0xff09,
        Key::Left => 0xff51,
        Key::Up => 0xff52,
        Key::Right => 0xff53,
        Key::Down => 0xff54,
        Key::Home => 0xff50,
        Key::End => 0xff57,
        Key::Keysym(k) => *k,
        Key::DeadKey(c) => {
            let c = *c;
            if c == '^' { 0xfe52 } else if c == '(' { 0xfe55 } else if c == '+' { 0xfe62 }
            else if c == 'd' || c == 'D' { 0xfe63 } else if c == '`' { 0xfe50 }
            else if c == '\'' { 0xfe51 } else if c == '~' { 0xfe53 } else if c == '.' { 0xfe60 }
            else if c == '?' { 0xfe61 } else { 0 }
        },
        Key::ComposeKey => 0xff20,
    }
}

/// The X11 state bitmask of a set of modifiers (AltGr is not encoded).
pub open spec fn spec_modifier_mask(m: Modifiers) -> u32 {
    ((if m.shift { 1int } else { 0 }) + (if m.caps_lock { 2int } else { 0 })
        + (if m.ctrl { 4int } else { 0 }) + (if m.alt { 8int } else { 0 })
        + (if m.super_key { 0x0400_0000int } else { 0 })) as u32
}

/// The X11 state bitmask of a set of modifiers.
pub fn mods_to_ibus(mods: &Modifiers) -> (m: u32)
    ensures
        m == spec_modifier_mask(*mods),
{
    let mut m: u32 = 0;
    if mods.shift {
        m = m + 1;
    }
    if mods.caps_lock {
        m = m + 2;
    }
    if mods.ctrl {
        m = m + 4;
    }
    if mods.alt {
        m = m + 8;
    }
    if mods.super_key {
        m = m + 0x0400_0000;
    }
    m
}

/// The `(keyval, keycode, state)` triple IBus forwards for an event.
pub open spec fn spec_event_to_ibus(event: InputEvent) -> (u32, u32, u32) {
    match event {
        InputEvent::KeyDown(k, m) => (spec_key_keyval(k), 0, spec_modifier_mask(m)),
        InputEvent::KeyRepeat(k, m) => (spec_key_keyval(k), 0, spec_modifier_mask(m)),
        InputEvent::KeyUp(k) => (spec_key_keyval(k), 0, IBUS_RELEASE_MASK),
        _ => (0, 0, 0),
    }
}

/// The `(keyval, keycode, state)` triple IBus forwards for an event.
pub fn input_event_to_ibus(event: &InputEvent) -> (r: (u32, u32, u32))
    ensures
        r == spec_event_to_ibus(*event),
{
    match event {
        InputEvent::KeyDown(k, m) => (key_to_ibus_keyval(k), 0, mods_to_ibus(m)),
        InputEvent::KeyRepeat(k, m) => (key_to_ibus_keyval(k), 0, mods_to_ibus(m)),
        InputEvent::KeyUp(k) => (key_to_ibus_keyval(k), 0, IBUS_RELEASE_MASK),
        _ => (0, 0, 0),
    }
}

/// The BackSpace count and the characters to forward that bring what the
/// application shows (`shadow`) to `new_preedit`: everything after the longest
/// common prefix is erased and retyped.
pub fn compute_forward_key_ops(shadow: &str, new_preedit: &str) -> (r: (usize, String))
    ensures
        r.0 == shadow@.len() - common_prefix_len(shadow@, new_preedit@),
        r.1@ == new_preedit@.skip(common_prefix_len(shadow@, new_preedit@)),
{
    let a = chars_of(shadow);
    let b = chars_of(new_preedit);
    let n = common_prefix_len_of(a.as_slice(), b.as_slice());
    (a.len() - n, string_from_chars_from(b.as_slice(), n))
}


// ── Connection backoff ───────────────────────────────────────────────────────

/// The pause before the next connection attempt, in microseconds: the base
/// delay (in milliseconds) stretched by `attempt % 50` percent.
pub open spec fn spec_connect_jitter_us(delay_ms: u64, attempt: u32) -> int {
    delay_ms * 10 * (100 + attempt % 50)
}

/// Counts failed attempts to reach ibus-daemon and spaces out the next ones.
pub struct ConnectBackoff {
    /// Failed attempts so far.
    pub failures: u32,
    /// The base delay before the next attempt, in milliseconds.
    pub delay_ms: u64,
}

impl ConnectBackoff {
    /// The base delay follows the doubling schedule of the failures so far.
    pub open spec fn wf(&self) -> bool {
        &&& self.failures < MAX_CONNECT_ATTEMPTS
        &&& self.delay_ms == crate::daemon::delay_after_failures(self.failures as nat)
    }

    pub fn new() -> (b: Self)
        ensures
            b.wf(),
            b.failures == 0,
            b.delay_ms == 100,
    {
        ConnectBackoff { failures: 0, delay_ms: 100 }
    }

    /// Record a failed attempt: `None` when it was the last one allowed (the
    /// backend gives up), else the pause before the next attempt, in
    /// microseconds; the base delay then doubles, up to 30 s.
    pub fn record_failure(&mut self) -> (pause_us: Option<u64>)
        requires
            old(self).wf(),
        ensures
            final(self).failures == old(self).failures + 1,
            final(self).failures >= MAX_CONNECT_ATTEMPTS ==> pause_us is None,
            final(self).failures < MAX_CONNECT_ATTEMPTS ==> final(self).wf() && pause_us == Some(
                spec_connect_jitter_us(old(self).delay_ms, final(self).failures) as u64,
            ),
    {
        proof {
            crate::daemon::lemma_backoff_bounds(self.failures as nat);
        }
        self.failures = self.failures + 1;
        if self.failures >= MAX_CONNECT_ATTEMPTS {
            return None;
        }
        let stretch: u64 = 100 + (self.failures % 50) as u64;
        assert(self.delay_ms * 10 * stretch <= 30_000 * 10 * 150) by (nonlinear_arith)
            requires
                self.delay_ms <= 30_000,
                stretch < 150,
        ;
        let pause = self.delay_ms * 10 * stretch;
        self.delay_ms = if 2 * self.delay_ms < 30_000 { 2 * self.delay_ms } else { 30_000 };
        Some(pause)
    }
}

/// The base delay with no cap: 100 ms doubled once per failure.
spec fn uncapped_delay(n: nat) -> nat
    decreases n,
{
    if n == 0 { 100 } else { 2 * uncapped_delay((n - 1) as nat) }
}

proof fn lemma_delay_below_uncapped(n: nat, m: nat)
    requires
        n <= m,
    ensures
        crate::daemon::delay_after_failures(n) <= uncapped_delay(n),
        uncapped_delay(n) <= uncapped_delay(m),
    decreases m,
{
    if n < m {
        lemma_delay_below_uncapped(n, (m - 1) as nat);
    } else if n > 0 {
        lemma_delay_below_uncapped((n - 1) as nat, (n - 1) as nat);
    }
}

/// Every pause of the connection loop lasts at least its base delay and at
/// most 30 seconds.
pub proof fn lemma_connect_pause_bounds(failures: u32)
    requires
        1 <= failures < MAX_CONNECT_ATTEMPTS,
    ensures
        ({
            let base = crate::daemon::delay_after_failures((failures - 1) as nat);
            &&& base * 1000 <= spec_connect_jitter_us(base, failures)
            &&& spec_connect_jitter_us(base, failures) <= 30_000_000
        }),
{
    let f = failures;
    let base = crate::daemon::delay_after_failures((f - 1) as nat);
    lemma_delay_below_uncapped((f - 1) as nat, 8);
    reveal_with_fuel(uncapped_delay, 9);
    assert(uncapped_delay(8) == 25600);
    assert(f % 50 == f);
    assert(base * 10 * (100 + f % 50) <= 25600 * 10 * 109) by (nonlinear_arith)
        requires
            base <= 25600,
            f % 50 <= 9,
    ;
    assert(base * 1000 <= base * 10 * (100 + f % 50)) by (nonlinear_arith)
        requires
            f % 50 >= 0,
    ;
}

/// The error reported when ibus-daemon stays unreachable.
pub fn give_up_message(detail: &str) -> (m: String)
    ensures
        m@ == "ibus-daemon unreachable after "@ + crate::text::spec_decimal(MAX_CONNECT_ATTEMPTS as nat)
            + " attempts: "@ + detail@,
{
    let mut m = owned("ibus-daemon unreachable after ");
    crate::text::push_decimal(&mut m, MAX_CONNECT_ATTEMPTS as u64);
    crate::text::push_str(&mut m, " attempts: ");
    crate::text::push_str(&mut m, detail);
    m
}

// ── Bus address ──────────────────────────────────────────────────────────────

/// `s` without its leading colons (`str::trim_start_matches(':')`).
pub open spec fn skip_colons(s: Seq<char>) -> Seq<char>
    decreases s.len(),
{
    if s.len() > 0 && s[0] == ':' { skip_colons(s.drop_first()) } else { s }
}

/// `s` with every colon turned into a dash.
pub open spec fn colons_to_dashes(s: Seq<char>) -> Seq<char> {
    Seq::new(s.len(), |i: int| if s[i] == ':' { '-' } else { s[i] })
}

/// The display IBus names its bus file after: `$WAYLAND_DISPLAY` when set and
/// not empty, else `$DISPLAY` when set, else `:0`.
pub open spec fn spec_ibus_display(wayland_display: Option<Seq<char>>, display: Option<Seq<char>>) -> Seq<char> {
    match wayland_display {
        Some(w) if w.len() > 0 => w,
        _ => match display {
            Some(d) => d,
            None => seq![':', '0'],
        },
    }
}

/// The display IBus names its bus file after.
pub fn ibus_display(wayland_display: Option<&str>, display: Option<&str>) -> (d: String)
    ensures
        d@ == spec_ibus_display(
            match wayland_display { Some(w) => Some(w@), None => None },
            match display { Some(x) => Some(x@), None => None },
        ),
{
    match wayland_display {
        Some(w) if crate::text::char_len(w) > 0 => owned(w),
        _ => match display {
            Some(x) => owned(x),
            None => {
                proof {
                    reveal_strlit(":0");
                }
                let d = owned(":0");
                assert(d@ =~= seq![':', '0']);
                d
            },
        },
    }
}

/// `<home>/.config/ibus/bus/<machine id>-unix-<display>`, with the machine id
/// trimmed and the display's leading colons dropped and other colons made
/// dashes.
pub open spec fn spec_bus_file_path(display: Seq<char>, machine_id: Seq<char>, home: Seq<char>) -> Seq<char> {
    home + "/.config/ibus/bus/"@ + crate::text::trim_of(machine_id) + "-unix-"@
        + colons_to_dashes(skip_colons(display))
}

/// The file in which ibus-daemon writes its address for `display`.
pub fn ibus_bus_file_path(display: &str, machine_id: &str, home: &str) -> (p: String)
    ensures
        p@ == spec_bus_file_path(display@, machine_id@, home@),
{
    let cs = chars_of(display);
    let mut a: usize = 0;
    assert(cs@.skip(0) == display@);
    while a < cs.len() && cs[a] == ':'
        invariant
            a <= cs.len(),
            cs@ == display@,
            skip_colons(cs@.skip(a as int)) == skip_colons(display@),
        decreases cs.len() - a,
    {
        assert(cs@.skip(a as int).drop_first() == cs@.skip(a + 1));
        a = a + 1;
    }
    assert(skip_colons(cs@.skip(a as int)) == cs@.skip(a as int));
    let mut p = owned(home);
    crate::text::push_str(&mut p, "/.config/ibus/bus/");
    crate::text::push_str(&mut p, &crate::text::trim(machine_id));
    crate::text::push_str(&mut p, "-unix-");
    let ghost before = p@;
    let mut i: usize = a;
    while i < cs.len()
        invariant
            a <= i <= cs.len(),
            cs@ == display@,
            p@ == before + colons_to_dashes(cs@.skip(a as int)).take(i - a),
        decreases cs.len() - i,
    {
        let c = if cs[i] == ':' { '-' } else { cs[i] };
        crate::text::push_char(&mut p, c);
        assert(colons_to_dashes(cs@.skip(a as int)).take(i + 1 - a)
            =~= colons_to_dashes(cs@.skip(a as int)).take(i - a).push(c));
        i = i + 1;
    }
    assert(colons_to_dashes(cs@.skip(a as int)).take(cs.len() - a) =~= colons_to_dashes(cs@.skip(a as int)));
    p
}

/// The prefix of the address line of a bus file.
pub open spec fn address_prefix() -> Seq<char> {
    seq!['I', 'B', 'U', 'S', '_', 'A', 'D', 'D', 'R', 'E', 'S', 'S', '=']
}

/// The address on the first line of `ls` that starts with `IBUS_ADDRESS=`.
pub open spec fn address_of_lines(ls: Seq<Seq<char>>) -> Option<Seq<char>>
    decreases ls.len(),
{
    if ls.len() == 0 {
        None
    } else if address_prefix().is_prefix_of(ls[0]) {
        Some(ls[0].skip(address_prefix().len() as int))
    } else {
        address_of_lines(ls.drop_first())
    }
}

/// The address that a bus file gives: the rest of its first line that starts
/// with `IBUS_ADDRESS=`.
pub fn address_from_bus_file(content: &str) -> (a: Option<String>)
    ensures
        match address_of_lines(crate::text::lines_of(content@)) {
            Some(s) => a matches Some(t) && t@ == s,
            None => a is None,
        },
{
    let ls = crate::text::lines(content);
    let mut i: usize = 0;
    assert(crate::text::lines_of(content@).skip(0) == crate::text::lines_of(content@));
    proof {
        reveal_strlit("IBUS_ADDRESS=");
        assert("IBUS_ADDRESS="@ =~= address_prefix());
    }
    while i < ls.len()
        invariant
            i <= ls.len(),
            crate::text::seq_of_strings(ls@) == crate::text::lines_of(content@),
            address_of_lines(crate::text::lines_of(content@))
                == address_of_lines(crate::text::lines_of(content@).skip(i as int)),
            "IBUS_ADDRESS="@ == address_prefix(),
        decreases ls.len() - i,
    {
        let ghost rest = crate::text::lines_of(content@).skip(i as int);
        assert(rest[0] == ls@[i as int]@);
        assert(rest.drop_first() == crate::text::lines_of(content@).skip(i + 1));
        match crate::text::strip_prefix_str(ls[i].as_str(), "IBUS_ADDRESS=") {
            Some(addr) => {
                return Some(addr);
            },
            None => {},
        }
        i = i + 1;
    }
    None
}

} // verus!
