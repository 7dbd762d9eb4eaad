//! The Fcitx5 engine protocol.
//!
//! A companion addon inside the Fcitx5 process forwards key and focus events
//! to the daemon over a line protocol and executes the operations it gets
//! back on the focused application's input context.
//!
//! Requests (addon to daemon):
//! ```text
//! ACTIVATE <ctx_id>
//! DEACTIVATE <ctx_id>
//! KEY <keyval> <keycode> <state> <serial>
//! KEYUP <keyval>
//! ```
//!
//! Responses (one per request):
//! ```text
//! RESULT <consumed:0|1> <num_ops>
//! OP COMMIT <hex_utf8_text>
//! OP PREEDIT <cursor_char_count> <hex_utf8_text>
//! OP CLEAR
//! OP FWDKEY <keyval> <keycode> <state>
//! ```
//!
//! `hex_utf8_text` is every UTF-8 byte printed as two lowercase hex digits.
//! Everything the daemon decides here is computed by this module; the socket
//! and the composition engine are driven by the caller.
use vstd::prelude::*;
use vstd::string::StringSliceAdditionalSpecFns;
use crate::types::{InputEvent, Key, Modifiers, StateTransition, TransitionResult};
use crate::platform::{utf8_bytes, Capabilities};
use crate::text::{
    char_at, chars_of, common_prefix_len, common_prefix_len_of, decimal, owned, push_char, push_decimal,
    push_str, spec_decimal, string_from_chars_from,
};
use crate::ibus::{
    is_modifier_keysym, map_ibus_state, map_keyval_to_key, mods_to_ibus, spec_is_modifier_keysym,
    spec_keyval_to_key, spec_modifier_mask, spec_state_modifiers,
};

verus! {

// ── Preedit deltas ───────────────────────────────────────────────────────────

/// One key event of a preedit update sent as keystrokes.
#[derive(Clone, Copy, Debug, PartialEq, Eq, Structural)]
pub enum DeltaOp {
    Insert(char),
    Backspace,
}

/// `ops` is exactly `n` BackSpaces.
pub open spec fn all_backspaces(ops: Seq<DeltaOp>, n: nat) -> bool {
    &&& ops.len() == n
    &&& forall|k: int| 0 <= k < ops.len() ==> ops[k] is Backspace
}

/// `ops` types the characters of `s`, one `Insert` each, in order.
pub open spec fn types_out(ops: Seq<DeltaOp>, s: Seq<char>) -> bool {
    &&& ops.len() == s.len()
    &&& forall|k: int| 0 <= k < ops.len() ==> (#[trigger] ops[k] matches DeltaOp::Insert(c) && c == s[k])
}

/// `ops` are the keystrokes that turn the displayed preedit `old` into `new`:
/// when `new` extends `old`, only the added characters are typed; when `new`
/// is a prefix of `old`, only the surplus is erased; otherwise all of `old`
/// is erased and then all of `new` typed.
pub open spec fn is_preedit_delta(ops: Seq<DeltaOp>, old: Seq<char>, new: Seq<char>) -> bool {
    if old.is_prefix_of(new) {
        types_out(ops, new.skip(old.len() as int))
    } else if new.is_prefix_of(old) {
        all_backspaces(ops, (old.len() - new.len()) as nat)
    } else {
        &&& old.len() <= ops.len()
        &&& all_backspaces(ops.take(old.len() as int), old.len())
        &&& types_out(ops.skip(old.len() as int), new)
    }
}

fn push_inserts(ops: &mut Vec<DeltaOp>, cs: &Vec<char>, from: usize)
    requires
        from <= cs.len(),
    ensures
        final(ops)@.take(old(ops)@.len() as int) == old(ops)@,
        old(ops)@.len() <= final(ops)@.len(),
        types_out(final(ops)@.skip(old(ops)@.len() as int), cs@.skip(from as int)),
{
    let ghost start = ops@;
    let mut i: usize = from;
    while i < cs.len()
        invariant
            from <= i <= cs.len(),
            ops@.len() == start.len() + (i - from),
            ops@.take(start.len() as int) == start,
            forall|k: int| 0 <= k < i - from ==> (#[trigger] ops@[start.len() + k] matches DeltaOp::Insert(c)
                && c == cs@[from + k]),
        decreases cs.len() - i,
    {
        let c = char_at(cs, i);
        ops.push(DeltaOp::Insert(c));
        assert(ops@.take(start.len() as int) =~= start);
        i = i + 1;
    }
    let ghost l = start.len() as int;
    assert forall|k: int| 0 <= k < ops@.skip(l).len() implies (#[trigger] ops@.skip(l)[k] matches DeltaOp::Insert(
        c,
    ) && c == cs@.skip(from as int)[k]) by {
        assert(ops@.skip(l)[k] == ops@[l + k]);
    }
}

fn push_backspaces(ops: &mut Vec<DeltaOp>, n: usize)
    ensures
        final(ops)@.take(old(ops)@.len() as int) == old(ops)@,
        old(ops)@.len() <= final(ops)@.len(),
        all_backspaces(final(ops)@.skip(old(ops)@.len() as int), n as nat),
{
    let ghost start = ops@;
    let mut i: usize = 0;
    while i < n
        invariant
            i <= n,
            ops@.len() == start.len() + i,
            ops@.take(start.len() as int) == start,
            forall|k: int| start.len() <= k < ops@.len() ==> ops@[k] is Backspace,
        decreases n - i,
    {
        ops.push(DeltaOp::Backspace);
        assert(ops@.take(start.len() as int) =~= start);
        i = i + 1;
    }
}

/// `a` is a prefix of `b`, decided on characters.
fn is_prefix(a: &Vec<char>, b: &Vec<char>) -> (r: bool)
    ensures
        r == a@.is_prefix_of(b@),
{
    if a.len() > b.len() {
        return false;
    }
    let mut i: usize = 0;
    while i < a.len()
        invariant
            i <= a.len() <= b.len(),
            forall|j: int| 0 <= j < i ==> a@[j] == b@[j],
        decreases a.len() - i,
    {
        if a[i] != b[i] {
            assert(b@.take(a.len() as int)[i as int] != a@[i as int]);
            return false;
        }
        i = i + 1;
    }
    assert(b@.take(a.len() as int) == a@);
    true
}

/// The keystrokes that turn the displayed preedit `old` into `new`.
pub fn compute_preedit_delta(old: &str, new: &str) -> (ops: Vec<DeltaOp>)
    ensures
        is_preedit_delta(ops@, old@, new@),
{
    let a = chars_of(old);
    let b = chars_of(new);
    let mut ops: Vec<DeltaOp> = Vec::new();
    if is_prefix(&a, &b) {
        push_inserts(&mut ops, &b, a.len());
        assert(ops@.skip(0) == ops@);
    } else if is_prefix(&b, &a) {
        push_backspaces(&mut ops, a.len() - b.len());
        assert(ops@.skip(0) == ops@);
    } else {
        push_backspaces(&mut ops, a.len());
        assert(ops@.skip(0) == ops@);
        let ghost erased = ops@;
        push_inserts(&mut ops, &b, 0);
        assert(b@.skip(0) == b@);
        assert(ops@.take(a.len() as int) == erased);
    }
    ops
}

/// What one keystroke does to the displayed preedit: BackSpace erases the
/// last character (if any), Insert types one.
pub open spec fn apply_op(s: Seq<char>, op: DeltaOp) -> Seq<char> {
    match op {
        DeltaOp::Backspace => if s.len() > 0 { s.drop_last() } else { s },
        DeltaOp::Insert(c) => s.push(c),
    }
}

/// The preedit after the keystrokes `ops`, in order, starting from `s`.
pub open spec fn apply_ops(s: Seq<char>, ops: Seq<DeltaOp>) -> Seq<char>
    decreases ops.len(),
{
    if ops.len() == 0 {
        s
    } else {
        apply_op(apply_ops(s, ops.drop_last()), ops.last())
    }
}

proof fn lemma_apply_concat(s: Seq<char>, a: Seq<DeltaOp>, b: Seq<DeltaOp>)
    ensures
        apply_ops(s, a + b) == apply_ops(apply_ops(s, a), b),
    decreases b.len(),
{
    if b.len() == 0 {
        assert(a + b =~= a);
    } else {
        lemma_apply_concat(s, a, b.drop_last());
        assert((a + b).drop_last() =~= a + b.drop_last());
        assert((a + b).last() == b.last());
    }
}

proof fn lemma_apply_types_out(s: Seq<char>, ops: Seq<DeltaOp>, t: Seq<char>)
    requires
        types_out(ops, t),
    ensures
        apply_ops(s, ops) == s + t,
    decreases ops.len(),
{
    if ops.len() == 0 {
        assert(s + t =~= s);
    } else {
        let k = ops.len() - 1;
        assert(types_out(ops.drop_last(), t.drop_last())) by {
            assert forall|j: int| 0 <= j < ops.drop_last().len() implies (#[trigger] ops.drop_last()[j] matches DeltaOp::Insert(c) && c == t.drop_last()[j]) by {
                assert(ops.drop_last()[j] == ops[j]);
                assert(ops[j] matches DeltaOp::Insert(c) && c == t[j]);
            }
        }
        lemma_apply_types_out(s, ops.drop_last(), t.drop_last());
        assert(ops[k] matches DeltaOp::Insert(c) && c == t[k]);
        assert((s + t.drop_last()).push(t.last()) =~= s + t);
    }
}

proof fn lemma_apply_backspaces(s: Seq<char>, ops: Seq<DeltaOp>, n: nat)
    requires
        all_backspaces(ops, n),
        n <= s.len(),
    ensures
        apply_ops(s, ops) == s.take(s.len() - n),
    decreases ops.len(),
{
    if ops.len() == 0 {
        assert(s.take(s.len() as int) =~= s);
    } else {
        assert(all_backspaces(ops.drop_last(), (n - 1) as nat)) by {
            assert forall|j: int| 0 <= j < ops.drop_last().len() implies ops.drop_last()[j] is Backspace by {
                assert(ops.drop_last()[j] == ops[j]);
            }
        }
        lemma_apply_backspaces(s, ops.drop_last(), (n - 1) as nat);
        assert(ops[ops.len() - 1] is Backspace);
        assert(s.take(s.len() - (n - 1)).drop_last() =~= s.take(s.len() - n));
    }
}

/// Replaying the keystrokes of [`compute_preedit_delta`] on the displayed
/// preedit `old` (BackSpace erases a character, Insert types one) gives `new`.
pub proof fn lemma_preedit_delta_replays(ops: Seq<DeltaOp>, old: Seq<char>, new: Seq<char>)
    requires
        is_preedit_delta(ops, old, new),
    ensures
        apply_ops(old, ops) == new,
{
    if old.is_prefix_of(new) {
        lemma_apply_types_out(old, ops, new.skip(old.len() as int));
        assert(new.take(old.len() as int) =~= old);
        assert(old + new.skip(old.len() as int) =~= new);
    } else if new.is_prefix_of(old) {
        lemma_apply_backspaces(old, ops, (old.len() - new.len()) as nat);
        assert(old.take(new.len() as int) =~= new);
    } else {
        let n = old.len() as int;
        assert(ops.take(n) + ops.skip(n) =~= ops);
        lemma_apply_concat(old, ops.take(n), ops.skip(n));
        lemma_apply_backspaces(old, ops.take(n), old.len());
        assert(old.take(0) =~= Seq::<char>::empty());
        lemma_apply_types_out(Seq::empty(), ops.skip(n), new);
        assert(Seq::<char>::empty() + new =~= new);
    }
}

/// How many characters of `old` to erase and what to type so that `old`
/// becomes `new`, keeping their longest common prefix.
pub fn soft_preedit_diff(old: &str, new: &str) -> (r: (usize, String))
    ensures
        r.0 == old@.len() - common_prefix_len(old@, new@),
        r.1@ == new@.skip(common_prefix_len(old@, new@)),
{
    let a = chars_of(old);
    let b = chars_of(new);
    let n = common_prefix_len_of(a.as_slice(), b.as_slice());
    (a.len() - n, string_from_chars_from(b.as_slice(), n))
}

/// Applying the keystrokes of [`soft_preedit_diff`] to `old` gives `new`.
pub proof fn lemma_soft_diff_reconstructs(old: Seq<char>, new: Seq<char>)
    ensures
        ({
            let n = common_prefix_len(old, new);
            old.take(old.len() - (old.len() - n)) + new.skip(n) == new
        }),
{
    let n = common_prefix_len(old, new);
    assert(crate::text::is_common_prefix_len(old, new, n)) by {
        crate::text::lemma_common_prefix_exists(old, new);
    }
    assert(old.take(n) == new.take(n));
    assert(old.take(old.len() - (old.len() - n)) == old.take(n));
    assert(new.take(n) + new.skip(n) == new);
}

// ── Hex encoding ─────────────────────────────────────────────────────────────

/// The lowercase hex digit of `d < 16`.
pub open spec fn hex_digit(d: u8) -> char {
    seq!['0', '1', '2', '3', '4', '5', '6', '7', '8', '9', 'a', 'b', 'c', 'd', 'e', 'f'][d as int]
}

/// Every byte as two lowercase hex digits, high nibble first.
pub open spec fn hex_of(bytes: Seq<u8>) -> Seq<char>
    decreases bytes.len(),
{
    if bytes.len() == 0 {
        Seq::empty()
    } else {
        let b = bytes.last();
        hex_of(bytes.drop_last()).push(hex_digit(b / 16)).push(hex_digit(b % 16))
    }
}

/// A lowercase hex digit: `0`-`9` or `a`-`f`.
pub open spec fn is_lower_hex(c: char) -> bool {
    ('0' <= c && c <= '9') || ('a' <= c && c <= 'f')
}

/// The value of a lowercase hex digit.
pub open spec fn hex_value(c: char) -> int {
    if '0' <= c && c <= '9' {
        c as int - '0' as int
    } else {
        c as int - 'a' as int + 10
    }
}

/// Reading `h` two digits at a time, high nibble first, one byte per pair.
pub open spec fn hex_bytes(h: Seq<char>) -> Seq<u8>
    decreases h.len(),
{
    if h.len() < 2 {
        Seq::empty()
    } else {
        let n = h.len() - 2;
        hex_bytes(h.take(n)).push((hex_value(h[n]) * 16 + hex_value(h[n + 1])) as u8)
    }
}

proof fn lemma_hex_digit(d: u8)
    requires
        d < 16,
    ensures
        is_lower_hex(hex_digit(d)),
        hex_value(hex_digit(d)) == d,
{
    let digits = seq!['0', '1', '2', '3', '4', '5', '6', '7', '8', '9', 'a', 'b', 'c', 'd', 'e', 'f'];
    assert(hex_digit(d) == digits[d as int]);
    if d == 0 { assert(digits[0] == '0'); } else if d == 1 { assert(digits[1] == '1'); }
    else if d == 2 { assert(digits[2] == '2'); } else if d == 3 { assert(digits[3] == '3'); }
    else if d == 4 { assert(digits[4] == '4'); } else if d == 5 { assert(digits[5] == '5'); }
    else if d == 6 { assert(digits[6] == '6'); } else if d == 7 { assert(digits[7] == '7'); }
    else if d == 8 { assert(digits[8] == '8'); } else if d == 9 { assert(digits[9] == '9'); }
    else if d == 10 { assert(digits[10] == 'a'); } else if d == 11 { assert(digits[11] == 'b'); }
    else if d == 12 { assert(digits[12] == 'c'); } else if d == 13 { assert(digits[13] == 'd'); }
    else if d == 14 { assert(digits[14] == 'e'); } else { assert(digits[15] == 'f'); }
}

/// The hex text of a byte string has two lowercase hex digits per byte, and
/// reading it back two digits at a time gives the bytes again.
pub proof fn lemma_hex_round_trip(bytes: Seq<u8>)
    ensures
        hex_of(bytes).len() == 2 * bytes.len(),
        forall|i: int| 0 <= i < hex_of(bytes).len() ==> is_lower_hex(#[trigger] hex_of(bytes)[i]),
        hex_bytes(hex_of(bytes)) == bytes,
    decreases bytes.len(),
{
    if bytes.len() > 0 {
        let p = bytes.drop_last();
        let b = bytes.last();
        lemma_hex_round_trip(p);
        lemma_hex_digit(b / 16);
        lemma_hex_digit(b % 16);
        let h = hex_of(bytes);
        assert(h == hex_of(p).push(hex_digit(b / 16)).push(hex_digit(b % 16)));
        let n = h.len() - 2;
        assert(h.take(n) =~= hex_of(p));
        assert(h[n] == hex_digit(b / 16));
        assert(h[n + 1] == hex_digit(b % 16));
        assert((b / 16) * 16 + b % 16 == b);
        assert(hex_bytes(h) == hex_bytes(h.take(n)).push((hex_value(h[n]) * 16 + hex_value(h[n + 1])) as u8));
        assert(hex_bytes(h) =~= bytes);
        assert forall|i: int| 0 <= i < h.len() implies is_lower_hex(#[trigger] h[i]) by {
            if i < n {
                assert(h[i] == hex_of(p)[i]);
            }
        }
    }
}

fn hex_digit_of(d: u8) -> (c: char)
    requires
        d < 16,
    ensures
        c == hex_digit(d),
{
    if d == 0 { '0' } else if d == 1 { '1' } else if d == 2 { '2' } else if d == 3 { '3' }
    else if d == 4 { '4' } else if d == 5 { '5' } else if d == 6 { '6' } else if d == 7 { '7' }
    else if d == 8 { '8' } else if d == 9 { '9' } else if d == 10 { 'a' } else if d == 11 { 'b' }
    else if d == 12 { 'c' } else if d == 13 { 'd' } else if d == 14 { 'e' } else { 'f' }
}

/// Hex-encode every UTF-8 byte of `s`; safe for use in a line protocol.
pub fn hex_encode(s: &str) -> (h: String)
    ensures
        h@ == hex_of(utf8_bytes(s@)),
{
    let bytes = s.as_bytes();
    proof {
        assert(s.spec_bytes() == utf8_bytes(s@));
    }
    let mut out = String::new();
    let mut i: usize = 0;
    while i < bytes.len()
        invariant
            i <= bytes.len(),
            out@ == hex_of(bytes@.take(i as int)),
        decreases bytes.len() - i,
    {
        let b = bytes[i];
        push_char(&mut out, hex_digit_of(b / 16));
        push_char(&mut out, hex_digit_of(b % 16));
        assert(bytes@.take(i + 1).drop_last() == bytes@.take(i as int));
        i = i + 1;
    }
    assert(bytes@.take(bytes.len() as int) == bytes@);
    out
}

// ── Key mapping (XKB and the engine's keys) ──────────────────────────────────

/// The XKB keyval the addon forwards for a key: a character is its code
/// point, dead and compose keys have none (0).
pub open spec fn spec_key_to_xkb(key: Key) -> u32 {
    match key {
        Key::Char(c) => c as u32,
        Key::Backspace => 0xff08,
        Key::Delete => 0xffff,
        Key::Return => 0xff0d,
        Key::Escape => 0xff1b,
        Key::Tab => 0xff09,
        Key::Left => 0xff51,
        Key::Up => 0xff52,
        Key::Right => 0xff53,
        Key::Down => 0xff54,
        Key::Home => 0xff50,
        Key::End => 0xff57,
        Key::Keysym(k) => k,
        Key::DeadKey(_) => 0,
        Key::ComposeKey => 0,
    }
}

/// The addon forwards an editing key as the same keysym IBus does, and
/// reading that keysym back gives the key.
pub proof fn lemma_fcitx5_editing_keysyms(key: Key)
    requires
        crate::ibus::is_editing_key(key),
    ensures
        spec_key_to_xkb(key) == crate::ibus::spec_key_keyval(key),
        crate::ibus::spec_keyval_to_key(spec_key_to_xkb(key)) == key,
{
}

/// The XKB keyval the addon forwards for a key.
pub fn key_to_xkb(key: &Key) -> (k: u32)
    ensures
        k == spec_key_to_xkb(*key),
{
    match key {
        Key::Char(c) => *c as u32,
        Key::Backspace => 0xff08,
        Key::Delete => 0xffff,
        Key::Return => 0xff0d,
        Key::Escape => 0xff1b,
        Key::Tab => 0xff09,
        Key::Left => 0xff51,
        Key::Up => 0xff52,
        Key::Right => 0xff53,
        Key::Down => 0xff54,
        Key::Home => 0xff50,
        Key::End => 0xff57,
        Key::Keysym(k) => *k,
        Key::DeadKey(_) => 0,
        Key::ComposeKey => 0,
    }
}

/// The XKB modifier mask of a set of modifiers (AltGr is not encoded).
pub fn mods_to_xkb(mods: &Modifiers) -> (m: u32)
    ensures
        m == spec_modifier_mask(*mods),
{
    mods_to_ibus(mods)
}

/// The `(keyval, keycode, state)` the addon forwards for an event.
pub open spec fn spec_event_to_xkb(event: InputEvent) -> (u32, u32, u32) {
    match event {
        InputEvent::KeyDown(k, m) => (spec_key_to_xkb(k), 0, spec_modifier_mask(m)),
        InputEvent::KeyRepeat(k, m) => (spec_key_to_xkb(k), 0, spec_modifier_mask(m)),
        InputEvent::KeyUp(k) => (spec_key_to_xkb(k), 0, 0),
        _ => (0, 0, 0),
    }
}

/// The `(keyval, keycode, state)` the addon forwards for an event.
pub fn event_to_xkb(event: &InputEvent) -> (r: (u32, u32, u32))
    ensures
        r == spec_event_to_xkb(*event),
{
    match event {
        InputEvent::KeyDown(k, m) => (key_to_xkb(k), 0, mods_to_xkb(m)),
        InputEvent::KeyRepeat(k, m) => (key_to_xkb(k), 0, mods_to_xkb(m)),
        InputEvent::KeyUp(k) => (key_to_xkb(k), 0, 0),
        _ => (0, 0, 0),
    }
}

/// The engine event for an XKB key press, if the engine should see it: key
/// releases, bare modifier keys and Ctrl combinations go straight to the
/// application.
pub open spec fn spec_map_fcitx5_key(keyval: u32, state: u32, is_release: bool) -> Option<
    InputEvent,
> {
    if is_release || spec_is_modifier_keysym(keyval) || spec_state_modifiers(state).ctrl {
        None
    } else {
        Some(InputEvent::KeyDown(spec_keyval_to_key(keyval), spec_state_modifiers(state)))
    }
}

/// Convert an XKB keyval/state pair to an engine `InputEvent`.
///
/// Returns `None` for events the engine should not see: key releases,
/// bare modifier keys, and Ctrl+letter combinations.
pub fn map_fcitx5_key(keyval: u32, state: u32, is_release: bool) -> (r: Option<InputEvent>)
    ensures
        r == spec_map_fcitx5_key(keyval, state, is_release),
{
    if is_release {
        return None;
    }
    if is_modifier_keysym(keyval) {
        return None;
    }
    let mods = map_ibus_state(state);
    if mods.ctrl {
        return None;
    }
    Some(InputEvent::KeyDown(map_keyval_to_key(keyval), mods))
}

/// What the Fcitx5 engine backend supports: inline preedit and a lookup
/// table, no surrounding text.
pub fn shim_capabilities() -> (c: Capabilities)
    ensures
        c.preedit && !c.surrounding_text && c.lookup_table,
{
    Capabilities { preedit: true, surrounding_text: false, lookup_table: true }
}


// ── Response formatting ──────────────────────────────────────────────────────

/// `OP COMMIT <hex>` for committed text.
pub open spec fn op_commit(text: Seq<char>) -> Seq<char> {
    "OP COMMIT "@ + hex_of(utf8_bytes(text))
}

/// `OP PREEDIT <cursor_char_count> <hex>` for a preedit with the cursor at its end.
pub open spec fn op_preedit(text: Seq<char>) -> Seq<char> {
    "OP PREEDIT "@ + spec_decimal(text.len()) + " "@ + hex_of(utf8_bytes(text))
}

/// `OP FWDKEY <keyval> <keycode> <state>`.
pub open spec fn op_fwdkey(k: (u32, u32, u32)) -> Seq<char> {
    "OP FWDKEY "@ + spec_decimal(k.0 as nat) + " "@ + spec_decimal(k.1 as nat) + " "@
        + spec_decimal(k.2 as nat)
}

/// The operations that carry out a state transition; for a commit that lets
/// the key through, the original key is forwarded after the commit.
pub open spec fn transition_ops(t: StateTransition, original: Option<InputEvent>) -> Seq<Seq<char>> {
    match t {
        StateTransition::PreeditUpdated(p) => seq![op_preedit(p.text@)],
        StateTransition::Commit(c) => seq![op_commit(c@)],
        StateTransition::CommitAndClear(c) => seq![op_commit(c@)],
        StateTransition::CommitThenPreedit(c, p) => seq![op_commit(c@), op_preedit(p.text@)],
        StateTransition::CommitThenPassThrough(c) => match original {
            Some(ev) => seq![op_commit(c@), op_fwdkey(spec_event_to_xkb(ev))],
            None => seq![op_commit(c@)],
        },
        StateTransition::Cleared => seq!["OP CLEAR"@],
        StateTransition::PassThrough => Seq::empty(),
        StateTransition::Consumed => Seq::empty(),
    }
}

/// The strings of `v`, as character sequences.
pub open spec fn strings_view(v: Seq<String>) -> Seq<Seq<char>> {
    Seq::new(v.len(), |i: int| v[i]@)
}

fn commit_op(text: &str) -> (s: String)
    ensures
        s@ == op_commit(text@),
{
    let mut s = owned("OP COMMIT ");
    let h = hex_encode(text);
    push_str(&mut s, h.as_str());
    s
}

fn preedit_op(text: &str) -> (s: String)
    ensures
        s@ == op_preedit(text@),
{
    let mut s = owned("OP PREEDIT ");
    let n = crate::text::char_len(text);
    push_decimal(&mut s, n as u64);
    push_str(&mut s, " ");
    let h = hex_encode(text);
    push_str(&mut s, h.as_str());
    s
}

fn fwdkey_op(k: (u32, u32, u32)) -> (s: String)
    ensures
        s@ == op_fwdkey(k),
{
    let mut s = owned("OP FWDKEY ");
    push_decimal(&mut s, k.0 as u64);
    push_str(&mut s, " ");
    push_decimal(&mut s, k.1 as u64);
    push_str(&mut s, " ");
    push_decimal(&mut s, k.2 as u64);
    s
}

/// The operations that carry out a state transition.
pub fn state_transition_to_ops(t: &StateTransition, original: Option<&InputEvent>) -> (ops: Vec<
    String,
>)
    ensures
        strings_view(ops@) == transition_ops(
            *t,
            match original {
                Some(e) => Some(*e),
                None => None,
            },
        ),
{
    let mut ops: Vec<String> = Vec::new();
    match t {
        StateTransition::PreeditUpdated(p) => {
            ops.push(preedit_op(p.text.as_str()));
        },
        StateTransition::Commit(c) => {
            ops.push(commit_op(c.as_str()));
        },
        StateTransition::CommitAndClear(c) => {
            ops.push(commit_op(c.as_str()));
        },
        StateTransition::CommitThenPreedit(c, p) => {
            ops.push(commit_op(c.as_str()));
            ops.push(preedit_op(p.text.as_str()));
        },
        StateTransition::CommitThenPassThrough(c) => {
            ops.push(commit_op(c.as_str()));
            match original {
                Some(ev) => {
                    ops.push(fwdkey_op(event_to_xkb(ev)));
                },
                None => {},
            }
        },
        StateTransition::Cleared => {
            ops.push(owned("OP CLEAR"));
        },
        StateTransition::PassThrough => {},
        StateTransition::Consumed => {},
    }
    assert(strings_view(ops@) =~= transition_ops(
        *t,
        match original {
            Some(e) => Some(*e),
            None => None,
        },
    ));
    ops
}

/// The operation lines, each preceded by a newline.
pub open spec fn joined_ops(ops: Seq<Seq<char>>) -> Seq<char>
    decreases ops.len(),
{
    if ops.len() == 0 {
        Seq::empty()
    } else {
        joined_ops(ops.drop_last()) + "\n"@ + ops.last()
    }
}

/// `RESULT <consumed> <num_ops>` followed by the operation lines.
pub open spec fn response_text(consumed: bool, ops: Seq<Seq<char>>) -> Seq<char> {
    "RESULT "@ + (if consumed { "1"@ } else { "0"@ }) + " "@ + spec_decimal(ops.len())
        + joined_ops(ops)
}

/// The response to one request: the header line and the operation lines,
/// joined by newlines (without a trailing newline).
pub fn format_response(consumed: bool, ops: Vec<String>) -> (out: String)
    ensures
        out@ == response_text(consumed, strings_view(ops@)),
{
    let mut out = owned("RESULT ");
    if consumed {
        push_str(&mut out, "1");
    } else {
        push_str(&mut out, "0");
    }
    push_str(&mut out, " ");
    push_decimal(&mut out, ops.len() as u64);
    let ghost header = out@;
    let mut i: usize = 0;
    while i < ops.len()
        invariant
            i <= ops.len(),
            out@ == header + joined_ops(strings_view(ops@).take(i as int)),
        decreases ops.len() - i,
    {
        push_str(&mut out, "\n");
        push_str(&mut out, ops[i].as_str());
        assert(strings_view(ops@).take(i + 1).drop_last() == strings_view(ops@).take(i as int));
        i = i + 1;
    }
    assert(strings_view(ops@).take(ops.len() as int) == strings_view(ops@));
    out
}


// ── Request parsing ──────────────────────────────────────────────────────────

/// ASCII whitespace as `str::split_ascii_whitespace` understands it.
pub open spec fn is_ascii_ws(c: char) -> bool {
    c == ' ' || c == '\t' || c == '\n' || c == '\x0C' || c == '\r'
}

fn ascii_ws(c: char) -> (b: bool)
    ensures
        b == is_ascii_ws(c),
{
    c == ' ' || c == '\t' || c == '\n' || c == '\x0C' || c == '\r'
}

/// The length of the run of non-whitespace characters that starts `s`.
pub open spec fn word_len(s: Seq<char>) -> int
    decreases s.len(),
{
    if s.len() == 0 || is_ascii_ws(s[0]) {
        0
    } else {
        1 + word_len(s.drop_first())
    }
}

/// A word never runs past the end of the text.
pub proof fn lemma_word_len_bounds(s: Seq<char>)
    ensures
        0 <= word_len(s) <= s.len(),
        s.len() > 0 && !is_ascii_ws(s[0]) ==> word_len(s) >= 1,
    decreases s.len(),
{
    if s.len() > 0 && !is_ascii_ws(s[0]) {
        lemma_word_len_bounds(s.drop_first());
    }
}

/// `k` is where the first run of non-whitespace characters of `s` ends.
pub proof fn lemma_word_len_is(s: Seq<char>, k: int)
    requires
        0 <= k <= s.len(),
        k == s.len() || is_ascii_ws(s[k]),
        forall|j: int| 0 <= j < k ==> !is_ascii_ws(s[j]),
    ensures
        word_len(s) == k,
    decreases s.len(),
{
    if s.len() > 0 && k > 0 {
        lemma_word_len_is(s.drop_first(), k - 1);
    }
}

/// The maximal runs of non-whitespace characters of `s`, in order.
pub open spec fn ascii_words(s: Seq<char>) -> Seq<Seq<char>>
    decreases s.len(),
{
    if s.len() == 0 {
        Seq::empty()
    } else if is_ascii_ws(s[0]) {
        ascii_words(s.drop_first())
    } else {
        proof {
            lemma_word_len_bounds(s);
        }
        let n = word_len(s);
        seq![s.take(n)] + ascii_words(s.skip(n))
    }
}

/// The whitespace-separated words of `s` (`str::split_ascii_whitespace`).
pub fn split_ascii_words(s: &str) -> (w: Vec<String>)
    ensures
        strings_view(w@) == ascii_words(s@),
{
    let cs = chars_of(s);
    let mut out: Vec<String> = Vec::new();
    let ghost mut acc: Seq<Seq<char>> = Seq::empty();
    let mut i: usize = 0;
    assert(cs@.skip(0) == cs@);
    while i < cs.len()
        invariant
            i <= cs.len(),
            cs@ == s@,
            strings_view(out@) == acc,
            acc + ascii_words(cs@.skip(i as int)) == ascii_words(s@),
        decreases cs.len() - i,
    {
        let ghost rest = cs@.skip(i as int);
        if ascii_ws(cs[i]) {
            assert(rest.drop_first() == cs@.skip(i + 1));
            i = i + 1;
        } else {
            let mut j: usize = i;
            while j < cs.len() && !ascii_ws(cs[j])
                invariant
                    i <= j <= cs.len(),
                    forall|m: int| i <= m < j ==> !is_ascii_ws(cs@[m]),
                decreases cs.len() - j,
            {
                j = j + 1;
            }
            proof {
                lemma_word_len_is(rest, j - i);
                assert(rest.take(j - i) == cs@.subrange(i as int, j as int));
                assert(rest.skip(j - i) == cs@.skip(j as int));
            }
            let mut word: Vec<char> = Vec::new();
            let mut m: usize = i;
            while m < j
                invariant
                    i <= m <= j <= cs.len(),
                    word@ == cs@.subrange(i as int, m as int),
                decreases j - m,
            {
                word.push(cs[m]);
                m = m + 1;
            }
            out.push(crate::text::string_from_chars(word.as_slice()));
            proof {
                let w = cs@.subrange(i as int, j as int);
                assert(ascii_words(rest) == seq![w] + ascii_words(cs@.skip(j as int)));
                assert(acc.push(w) + ascii_words(cs@.skip(j as int)) =~= acc + (seq![w]
                    + ascii_words(cs@.skip(j as int))));
                acc = acc.push(w);
                assert(strings_view(out@) =~= acc);
            }
            i = j;
        }
    }
    assert(cs@.skip(cs.len() as int).len() == 0);
    assert(acc + Seq::<Seq<char>>::empty() =~= acc);
    out
}

/// `s` is a non-empty run of ASCII digits.
pub open spec fn all_digits(s: Seq<char>) -> bool {
    s.len() > 0 && forall|i: int| 0 <= i < s.len() ==> '0' <= #[trigger] s[i] <= '9'
}

/// The number written by the decimal digits `s`.
pub open spec fn digits_value(s: Seq<char>) -> nat
    decreases s.len(),
{
    if s.len() == 0 {
        0
    } else {
        (digits_value(s.drop_last()) * 10 + (s.last() as nat - '0' as nat)) as nat
    }
}

/// What `str::parse::<u32>` accepts: an optional `+`, then one or more ASCII
/// digits whose value fits in a `u32`.
pub open spec fn spec_parse_u32(s: Seq<char>) -> Option<u32> {
    let d = if s.len() > 0 && s[0] == '+' { s.drop_first() } else { s };
    if all_digits(d) && digits_value(d) <= u32::MAX {
        Some(digits_value(d) as u32)
    } else {
        None
    }
}

/// A longer run of digits never has a smaller value.
pub proof fn lemma_digits_value_grows(s: Seq<char>, k: int)
    requires
        0 <= k <= s.len(),
        forall|i: int| 0 <= i < s.len() ==> '0' <= #[trigger] s[i] <= '9',
    ensures
        digits_value(s.take(k)) <= digits_value(s),
    decreases s.len() - k,
{
    if k < s.len() {
        lemma_digits_value_grows(s, k + 1);
        assert(s.take(k + 1).drop_last() == s.take(k));
    } else {
        assert(s.take(k) == s);
    }
}

/// Parse a decimal `u32` as `str::parse::<u32>` does.
pub fn parse_u32(s: &str) -> (r: Option<u32>)
    ensures
        r == spec_parse_u32(s@),
{
    let cs = chars_of(s);
    let start: usize = if cs.len() > 0 && cs[0] == '+' { 1 } else { 0 };
    let ghost d = if s@.len() > 0 && s@[0] == '+' { s@.drop_first() } else { s@ };
    assert(d == cs@.skip(start as int));
    if start == cs.len() {
        return None;
    }
    let mut value: u64 = 0;
    let mut i: usize = start;
    while i < cs.len()
        invariant
            start <= i <= cs.len(),
            start < cs.len(),
            cs@ == s@,
            d == (if s@.len() > 0 && s@[0] == '+' { s@.drop_first() } else { s@ }),
            d == cs@.skip(start as int),
            forall|m: int| start <= m < i ==> '0' <= #[trigger] cs@[m] <= '9',
            value == digits_value(cs@.subrange(start as int, i as int)),
            value <= u32::MAX,
        decreases cs.len() - i,
    {
        let c = cs[i];
        if !('0' <= c && c <= '9') {
            assert(d[i - start] == c);
            return None;
        }
        let digit = (c as u32 - '0' as u32) as u64;
        assert(cs@.subrange(start as int, i + 1).drop_last() == cs@.subrange(start as int, i as int));
        value = value * 10 + digit;
        if value > 0xFFFF_FFFF {
            proof {
                let p = cs@.subrange(start as int, i + 1);
                if all_digits(d) {
                    lemma_digits_value_grows(d, i + 1 - start);
                    assert(d.take(i + 1 - start) == p);
                }
            }
            return None;
        }
        i = i + 1;
    }
    assert(cs@.subrange(start as int, cs.len() as int) == d);
    Some(value as u32)
}

/// One request of the addon.
#[derive(Clone, Copy, Debug, PartialEq, Eq, Structural)]
pub enum ShimRequest {
    /// `ACTIVATE <ctx_id>`: an input context gained focus.
    Activate,
    /// `DEACTIVATE <ctx_id>`: an input context lost focus.
    Deactivate,
    /// `KEYUP <keyval>`: a key was released.
    KeyUp { keyval: u32 },
    /// `KEY <keyval> <keycode> <state> <serial>`: a key was pressed.
    Key { keyval: u32, keycode: u32, state: u32 },
    /// Anything else.
    Unknown,
}

/// The numeric field at `i`, or 0 when it is missing or not a `u32`.
pub open spec fn field_u32(words: Seq<Seq<char>>, i: int) -> u32 {
    if i < words.len() {
        match spec_parse_u32(words[i]) {
            Some(v) => v,
            None => 0,
        }
    } else {
        0
    }
}

/// The request a line carries, decided by its first word.
pub open spec fn spec_shim_request(line: Seq<char>) -> ShimRequest {
    let w = ascii_words(line);
    if w.len() == 0 {
        ShimRequest::Unknown
    } else if w[0] == "ACTIVATE"@ {
        ShimRequest::Activate
    } else if w[0] == "DEACTIVATE"@ {
        ShimRequest::Deactivate
    } else if w[0] == "KEYUP"@ {
        ShimRequest::KeyUp { keyval: field_u32(w, 1) }
    } else if w[0] == "KEY"@ {
        ShimRequest::Key { keyval: field_u32(w, 1), keycode: field_u32(w, 2), state: field_u32(w, 3) }
    } else {
        ShimRequest::Unknown
    }
}

fn field_at(words: &Vec<String>, i: usize) -> (v: u32)
    ensures
        v == field_u32(strings_view(words@), i as int),
{
    if i < words.len() {
        match parse_u32(words[i].as_str()) {
            Some(v) => v,
            None => 0,
        }
    } else {
        0
    }
}

/// Parse one request line of the addon.
pub fn parse_shim_request(line: &str) -> (r: ShimRequest)
    ensures
        r == spec_shim_request(line@),
{
    let words = split_ascii_words(line);
    if words.len() == 0 {
        return ShimRequest::Unknown;
    }
    let first = words[0].as_str();
    if crate::text::same_text(first, "ACTIVATE") {
        ShimRequest::Activate
    } else if crate::text::same_text(first, "DEACTIVATE") {
        ShimRequest::Deactivate
    } else if crate::text::same_text(first, "KEYUP") {
        ShimRequest::KeyUp { keyval: field_at(&words, 1) }
    } else if crate::text::same_text(first, "KEY") {
        ShimRequest::Key {
            keyval: field_at(&words, 1),
            keycode: field_at(&words, 2),
            state: field_at(&words, 3),
        }
    } else {
        ShimRequest::Unknown
    }
}


// ── Request dispatch ─────────────────────────────────────────────────────────

/// The engine event a request asks for, if any.
pub open spec fn spec_shim_event(req: ShimRequest) -> Option<InputEvent> {
    match req {
        ShimRequest::Activate => Some(InputEvent::FocusIn),
        ShimRequest::Deactivate => Some(InputEvent::FocusOut),
        ShimRequest::KeyUp { keyval } => Some(InputEvent::KeyUp(spec_keyval_to_key(keyval))),
        ShimRequest::Key { keyval, keycode, state } => spec_map_fcitx5_key(keyval, state, false),
        ShimRequest::Unknown => None,
    }
}

/// The engine event a request asks for: focus changes for `ACTIVATE` and
/// `DEACTIVATE`, the release for `KEYUP` (which resets the engine's
/// repeat guard), and the press for `KEY` when the engine should see it.
pub fn shim_engine_event(req: &ShimRequest) -> (ev: Option<InputEvent>)
    ensures
        ev == spec_shim_event(*req),
{
    match req {
        ShimRequest::Activate => Some(InputEvent::FocusIn),
        ShimRequest::Deactivate => Some(InputEvent::FocusOut),
        ShimRequest::KeyUp { keyval } => Some(InputEvent::KeyUp(map_keyval_to_key(*keyval))),
        ShimRequest::Key { keyval, keycode, state } => map_fcitx5_key(*keyval, *state, false),
        ShimRequest::Unknown => None,
    }
}

/// The response to a request and whether the engine must be reset.
pub struct ShimReply {
    /// The response lines, without the final newline.
    pub text: String,
    /// The engine failed on the key and must be reset.
    pub reset_engine: bool,
}

/// The response to a request, given what the engine answered to its event
/// (`None` when no event was processed). Focus gain is acknowledged as
/// consumed; focus loss reports what the engine flushed; a key release and an
/// unknown request are not consumed; a key press reports the transition's
/// operations unless the engine let it through or failed, and a failure
/// resets the engine.
pub open spec fn spec_shim_reply(req: ShimRequest, outcome: Option<TransitionResult>) -> (
    Seq<char>,
    bool,
) {
    let not_consumed = response_text(false, Seq::empty());
    match req {
        ShimRequest::Activate => (response_text(true, Seq::empty()), false),
        ShimRequest::Deactivate => match outcome {
            Some(Ok(t)) => (response_text(true, transition_ops(t, None)), false),
            _ => (response_text(true, Seq::empty()), false),
        },
        ShimRequest::KeyUp { .. } => (not_consumed, false),
        ShimRequest::Key { keyval, keycode, state } => match spec_map_fcitx5_key(
            keyval,
            state,
            false,
        ) {
            None => (not_consumed, false),
            Some(ev) => match outcome {
                Some(Ok(StateTransition::PassThrough)) => (not_consumed, false),
                Some(Ok(t)) => (response_text(true, transition_ops(t, Some(ev))), false),
                Some(Err(_)) => (not_consumed, true),
                None => (not_consumed, false),
            },
        },
        ShimRequest::Unknown => (not_consumed, false),
    }
}

/// The response to a request, given what the engine answered to the event of
/// [`shim_engine_event`].
pub fn shim_response(req: &ShimRequest, outcome: Option<TransitionResult>) -> (r: ShimReply)
    ensures
        (r.text@, r.reset_engine) == spec_shim_reply(*req, outcome),
{
    assert(strings_view(Seq::<String>::empty()) =~= Seq::<Seq<char>>::empty());
    match req {
        ShimRequest::Activate => ShimReply {
            text: format_response(true, Vec::new()),
            reset_engine: false,
        },
        ShimRequest::Deactivate => {
            let ops = match outcome {
                Some(Ok(t)) => state_transition_to_ops(&t, None),
                _ => Vec::new(),
            };
            ShimReply { text: format_response(true, ops), reset_engine: false }
        },
        ShimRequest::KeyUp { .. } => ShimReply {
            text: format_response(false, Vec::new()),
            reset_engine: false,
        },
        ShimRequest::Key { keyval, keycode, state } => {
            match map_fcitx5_key(*keyval, *state, false) {
                None => ShimReply { text: format_response(false, Vec::new()), reset_engine: false },
                Some(ev) => match outcome {
                    Some(Ok(StateTransition::PassThrough)) => ShimReply {
                        text: format_response(false, Vec::new()),
                        reset_engine: false,
                    },
                    Some(Ok(t)) => {
                        let ops = state_transition_to_ops(&t, Some(&ev));
                        ShimReply { text: format_response(true, ops), reset_engine: false }
                    },
                    Some(Err(_)) => ShimReply {
                        text: format_response(false, Vec::new()),
                        reset_engine: true,
                    },
                    None => ShimReply {
                        text: format_response(false, Vec::new()),
                        reset_engine: false,
                    },
                },
            }
        },
        ShimRequest::Unknown => ShimReply {
            text: format_response(false, Vec::new()),
            reset_engine: false,
        },
    }
}

// ── Socket path ──────────────────────────────────────────────────────────────

/// `Path::join` of a relative path: `rel` is appended after a separator,
/// unless `base` is empty or already ends with one.
pub open spec fn path_join(base: Seq<char>, rel: Seq<char>) -> Seq<char> {
    if base.len() == 0 {
        rel
    } else if base.last() == '/' {
        base + rel
    } else {
        base + "/"@ + rel
    }
}

/// Join the relative path `rel` onto `base`.
pub fn join_path(base: &str, rel: &str) -> (p: String)
    ensures
        p@ == path_join(base@, rel@),
{
    let cs = chars_of(base);
    if cs.len() == 0 {
        return owned(rel);
    }
    let mut p = owned(base);
    if cs[cs.len() - 1] != '/' {
        push_str(&mut p, "/");
    }
    push_str(&mut p, rel);
    p
}

/// The XDG data directory: `$XDG_DATA_HOME` when set, else
/// `$HOME/.local/share` (with `/tmp` standing in for an unset `$HOME`).
pub open spec fn data_home(xdg_data_home: Option<Seq<char>>, home: Option<Seq<char>>) -> Seq<char> {
    match xdg_data_home {
        Some(x) => x,
        None => path_join(
            match home {
                Some(h) => h,
                None => "/tmp"@,
            },
            ".local/share"@,
        ),
    }
}

/// Default Unix socket path for the addon connection, from the values of
/// `$XDG_DATA_HOME` and `$HOME` (`None` when a variable is unset).
pub fn engine_socket_path(xdg_data_home: Option<&str>, home: Option<&str>) -> (p: String)
    ensures
        p@ == path_join(
            data_home(
                match xdg_data_home {
                    Some(x) => Some(x@),
                    None => None,
                },
                match home {
                    Some(h) => Some(h@),
                    None => None,
                },
            ),
            "vi-ime/engine.sock"@,
        ),
{
    let base = data_home_dir(xdg_data_home, home);
    join_path(base.as_str(), "vi-ime/engine.sock")
}

/// The XDG data directory: `$XDG_DATA_HOME`, else `$HOME/.local/share`, else
/// `/tmp/.local/share` (`None` when a variable is unset).
pub fn data_home_dir(xdg_data_home: Option<&str>, home: Option<&str>) -> (p: String)
    ensures
        p@ == data_home(
            match xdg_data_home {
                Some(x) => Some(x@),
                None => None,
            },
            match home {
                Some(h) => Some(h@),
                None => None,
            },
        ),
{
    match xdg_data_home {
        Some(x) => owned(x),
        None => {
            let h = match home {
                Some(h) => h,
                None => "/tmp",
            };
            join_path(h, ".local/share")
        },
    }
}

} // verus!
