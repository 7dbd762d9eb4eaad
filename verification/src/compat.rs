//! Compatibility guards for special runtime environments.
//!
//! * [`FullscreenGuard`] suppresses preedit when a fullscreen game has focus.
//! * [`RemoteDesktopMode`] decides whether a remote-desktop session is active,
//!   in which case keystrokes should be passed through instead of composed.
use vstd::prelude::*;
use vstd::utf8::*;
use crate::text::chars_of;

verus! {

// ---------------------------------------------------------------------------
// Glob matching
// ---------------------------------------------------------------------------

/// `t` matches the glob `p`, where `*` stands for any run of characters
/// (possibly empty) and every other character stands for itself.
pub open spec fn glob_matches(p: Seq<char>, t: Seq<char>) -> bool
    decreases p.len() + t.len(),
{
    if p.len() == 0 {
        t.len() == 0
    } else if p[0] == '*' {
        glob_matches(p.drop_first(), t) || (t.len() > 0 && glob_matches(p, t.drop_first()))
    } else {
        t.len() > 0 && t[0] == p[0] && glob_matches(p.drop_first(), t.drop_first())
    }
}

/// A pattern whose first `n` characters hold no `*` matches exactly when the
/// text starts with those characters and the rest of the pattern matches the
/// rest of the text.
pub proof fn lemma_glob_literal_prefix(p: Seq<char>, t: Seq<char>, n: int)
    requires
        0 <= n <= p.len(),
        forall|j: int| 0 <= j < n ==> p[j] != '*',
    ensures
        glob_matches(p, t) == (n <= t.len() && t.take(n) == p.take(n) && glob_matches(
            p.skip(n),
            t.skip(n),
        )),
    decreases n,
{
    if n == 0 {
        assert(p.skip(0) == p);
        assert(t.skip(0) == t);
        assert(t.take(0) == p.take(0));
    } else {
        assert(p[0] != '*');
        if t.len() == 0 {
        } else {
            lemma_glob_literal_prefix(p.drop_first(), t.drop_first(), n - 1);
            assert(p.drop_first().skip(n - 1) == p.skip(n));
            if n <= t.len() {
                assert(t.drop_first().skip(n - 1) == t.skip(n));
                if t.take(n) == p.take(n) {
                    assert(t[0] == t.take(n)[0]);
                    assert(t.drop_first().take(n - 1) == p.drop_first().take(n - 1)) by {
                        assert forall|j: int| 0 <= j < n - 1 implies #[trigger] t.drop_first().take(n - 1)[j]
                            == p.drop_first().take(n - 1)[j] by {
                            assert(t.take(n)[j + 1] == p.take(n)[j + 1]);
                        }
                    }
                } else if t[0] == p[0] && t.drop_first().take(n - 1) == p.drop_first().take(
                    n - 1,
                ) {
                    assert(t.take(n) == p.take(n)) by {
                        assert forall|j: int| 0 <= j < n implies #[trigger] t.take(n)[j] == p.take(n)[j] by {
                            if j > 0 {
                                assert(t.drop_first().take(n - 1)[j - 1] == p.drop_first().take(
                                    n - 1,
                                )[j - 1]);
                            }
                        }
                    }
                }
            }
        }
    }
}

/// A pattern that starts with `*` matches exactly when the rest of the
/// pattern matches some suffix of the text.
pub proof fn lemma_glob_star_head(p: Seq<char>, t: Seq<char>)
    requires
        p.len() > 0,
        p[0] == '*',
    ensures
        glob_matches(p, t) == exists|s: int|
            0 <= s <= t.len() && #[trigger] glob_matches(p.drop_first(), t.skip(s)),
    decreases t.len(),
{
    assert(t.skip(0) == t);
    if t.len() == 0 {
        if glob_matches(p, t) {
            assert(glob_matches(p.drop_first(), t.skip(0)));
        }
    } else {
        lemma_glob_star_head(p, t.drop_first());
        if glob_matches(p, t) {
            if glob_matches(p.drop_first(), t) {
                assert(glob_matches(p.drop_first(), t.skip(0)));
            } else {
                let s = choose|s: int|
                    0 <= s <= t.drop_first().len() && #[trigger] glob_matches(
                        p.drop_first(),
                        t.drop_first().skip(s),
                    );
                assert(t.drop_first().skip(s) == t.skip(s + 1));
                assert(glob_matches(p.drop_first(), t.skip(s + 1)));
            }
        } else {
            assert forall|s: int| 0 <= s <= t.len() implies !#[trigger] glob_matches(
                p.drop_first(),
                t.skip(s),
            ) by {
                if s > 0 {
                    assert(t.drop_first().skip(s - 1) == t.skip(s));
                }
            }
        }
    }
}

/// The pieces of `p` between its `*`s, in order: one more than there are
/// `*`s, each free of `*` (possibly empty).
pub open spec fn star_pieces(p: Seq<char>) -> Seq<Seq<char>>
    decreases p.len(),
{
    if p.len() == 0 {
        seq![Seq::<char>::empty()]
    } else if p[0] == '*' {
        seq![Seq::<char>::empty()] + star_pieces(p.drop_first())
    } else {
        let r = star_pieces(p.drop_first());
        r.update(0, seq![p[0]] + r[0])
    }
}

/// `pieces[0] + fills[0] + pieces[1] + ... + fills[k - 1] + pieces[k]`.
pub open spec fn interleave(pieces: Seq<Seq<char>>, fills: Seq<Seq<char>>) -> Seq<char>
    decreases pieces.len(),
{
    if pieces.len() == 0 {
        Seq::empty()
    } else if pieces.len() == 1 {
        pieces[0]
    } else {
        pieces[0] + fills[0] + interleave(pieces.drop_first(), fills.drop_first())
    }
}

proof fn lemma_star_pieces_nonempty(p: Seq<char>)
    ensures
        star_pieces(p).len() >= 1,
    decreases p.len(),
{
    if p.len() > 0 {
        lemma_star_pieces_nonempty(p.drop_first());
    }
}

proof fn lemma_interleave_prepend(r: Seq<Seq<char>>, x: Seq<char>, fills: Seq<Seq<char>>)
    requires
        r.len() >= 1,
    ensures
        interleave(r.update(0, x + r[0]), fills) == x + interleave(r, fills),
{
    let u = r.update(0, x + r[0]);
    if r.len() == 1 {
        assert(u[0] == x + r[0]);
    } else {
        assert(u.drop_first() =~= r.drop_first());
        assert(u[0] == x + r[0]);
        assert((x + r[0]) + fills[0] + interleave(r.drop_first(), fills.drop_first())
            =~= x + (r[0] + fills[0] + interleave(r.drop_first(), fills.drop_first())));
    }
}

/// A text matches a glob exactly when it is the glob's pieces between `*`s,
/// in order, with some text (possibly empty) in place of each `*`.
pub proof fn lemma_glob_split_form(p: Seq<char>, t: Seq<char>)
    ensures
        glob_matches(p, t) <==> exists|fills: Seq<Seq<char>>|
            fills.len() + 1 == star_pieces(p).len() && t == #[trigger] interleave(star_pieces(p), fills),
    decreases p.len(),
{
    lemma_star_pieces_nonempty(p);
    if p.len() == 0 {
        let e = Seq::<Seq<char>>::empty();
        assert(interleave(star_pieces(p), e) == Seq::<char>::empty());
        if glob_matches(p, t) {
            assert(t =~= Seq::<char>::empty());
            assert(t == interleave(star_pieces(p), e));
        }
    } else if p[0] == '*' {
        let q = p.drop_first();
        let rq = star_pieces(q);
        lemma_star_pieces_nonempty(q);
        let pieces = star_pieces(p);
        assert(pieces == seq![Seq::<char>::empty()] + rq);
        assert(pieces.drop_first() =~= rq);
        assert(pieces[0] == Seq::<char>::empty());
        lemma_glob_star_head(p, t);
        if glob_matches(p, t) {
            let s = choose|s: int| 0 <= s <= t.len() && #[trigger] glob_matches(q, t.skip(s));
            lemma_glob_split_form(q, t.skip(s));
            let fq = choose|fills: Seq<Seq<char>>|
                fills.len() + 1 == rq.len() && t.skip(s) == #[trigger] interleave(rq, fills);
            let fills = seq![t.take(s)] + fq;
            assert(fills.drop_first() =~= fq);
            assert(fills[0] == t.take(s));
            assert(interleave(pieces, fills) == pieces[0] + fills[0] + interleave(rq, fq));
            assert(t =~= Seq::<char>::empty() + t.take(s) + t.skip(s));
            assert(t == interleave(pieces, fills));
        } else {
            assert forall|fills: Seq<Seq<char>>|
                fills.len() + 1 == pieces.len() implies t != #[trigger] interleave(pieces, fills) by {
                if t == interleave(pieces, fills) {
                    let s = fills[0].len() as int;
                    assert(interleave(pieces, fills) == pieces[0] + fills[0] + interleave(rq, fills.drop_first()));
                    assert(t =~= fills[0] + interleave(rq, fills.drop_first()));
                    assert(t.skip(s) =~= interleave(rq, fills.drop_first()));
                    lemma_glob_split_form(q, t.skip(s));
                    assert(glob_matches(q, t.skip(s)));
                    assert(false);
                }
            }
        }
    } else {
        let q = p.drop_first();
        let rq = star_pieces(q);
        lemma_star_pieces_nonempty(q);
        let c = p[0];
        let pieces = star_pieces(p);
        assert(pieces == rq.update(0, seq![c] + rq[0]));
        assert forall|fills: Seq<Seq<char>>| #[trigger] interleave(pieces, fills) == seq![c] + interleave(rq, fills) by {
            lemma_interleave_prepend(rq, seq![c], fills);
        }
        if glob_matches(p, t) {
            let u = t.drop_first();
            lemma_glob_split_form(q, u);
            let fills = choose|fills: Seq<Seq<char>>|
                fills.len() + 1 == rq.len() && u == #[trigger] interleave(rq, fills);
            assert(interleave(pieces, fills) == seq![c] + interleave(rq, fills));
            assert(t =~= seq![c] + u);
            assert(t == interleave(pieces, fills));
        } else {
            assert forall|fills: Seq<Seq<char>>|
                fills.len() + 1 == pieces.len() implies t != #[trigger] interleave(pieces, fills) by {
                if t == interleave(pieces, fills) {
                    assert(interleave(pieces, fills) == seq![c] + interleave(rq, fills));
                    assert(t.len() > 0 && t[0] == c);
                    assert(t.drop_first() =~= interleave(rq, fills));
                    lemma_glob_split_form(q, t.drop_first());
                    assert(glob_matches(q, t.drop_first()));
                    assert(false);
                }
            }
        }
    }
}

/// Glob match of `p[pi..]` against `t[ti..]`: the literal run up to the first
/// `*` must start the text, and the pattern after that `*` must match some
/// suffix of what follows.
fn glob_from(p: &Vec<char>, pi: usize, t: &Vec<char>, ti: usize) -> (r: bool)
    requires
        pi <= p.len(),
        ti <= t.len(),
    ensures
        r == glob_matches(p@.skip(pi as int), t@.skip(ti as int)),
    decreases p.len() - pi,
{
    let ghost ps = p@.skip(pi as int);
    let ghost ts = t@.skip(ti as int);
    let mut k: usize = pi;
    while k < p.len() && p[k] != '*'
        invariant
            pi <= k <= p.len(),
            forall|j: int| pi <= j < k ==> p@[j] != '*',
        decreases p.len() - k,
    {
        k = k + 1;
    }
    let n: usize = k - pi;
    proof {
        lemma_glob_literal_prefix(ps, ts, n as int);
    }
    if t.len() - ti < n {
        return false;
    }
    let mut j: usize = 0;
    while j < n && t[ti + j] == p[pi + j]
        invariant
            j <= n,
            n == k - pi,
            pi <= k <= p.len(),
            ti + n <= t.len(),
            ps == p@.skip(pi as int),
            ts == t@.skip(ti as int),
            forall|m: int| 0 <= m < j ==> ts[m] == ps[m],
        decreases n - j,
    {
        j = j + 1;
    }
    if j < n {
        assert(ts.take(n as int)[j as int] != ps.take(n as int)[j as int]);
        return false;
    }
    assert(ts.take(n as int) == ps.take(n as int));
    assert(ps.skip(n as int) == p@.skip(k as int));
    assert(ts.skip(n as int) == t@.skip(ti + n));
    if k == p.len() {
        assert(p@.skip(k as int).len() == 0);
        return t.len() - ti == n;
    }
    let ghost rest = p@.skip(k as int);
    assert(rest.drop_first() == p@.skip(k + 1));
    let start: usize = ti + n;
    let mut s: usize = start;
    loop
        invariant
            pi <= k < p.len(),
            start <= s <= t.len(),
            rest == p@.skip(k as int),
            rest.len() > 0 && rest[0] == '*',
            rest.drop_first() == p@.skip(k + 1),
            glob_matches(p@.skip(pi as int), t@.skip(ti as int)) == glob_matches(
                rest,
                t@.skip(start as int),
            ),
            forall|m: int| start <= m < s ==> !glob_matches(p@.skip(k + 1), t@.skip(m)),
        ensures
            forall|m: int| start <= m <= t.len() ==> !glob_matches(p@.skip(k + 1), t@.skip(m)),
        decreases t.len() - s,
    {
        if glob_from(p, k + 1, t, s) {
            proof {
                lemma_glob_star_head(rest, t@.skip(start as int));
                assert(t@.skip(start as int).skip(s - start) == t@.skip(s as int));
                assert(glob_matches(rest.drop_first(), t@.skip(start as int).skip(s - start)));
            }
            return true;
        }
        if s == t.len() {
            break;
        }
        s = s + 1;
    }
    proof {
        lemma_glob_star_head(rest, t@.skip(start as int));
        assert forall|m: int| 0 <= m <= t@.skip(start as int).len() implies !#[trigger] glob_matches(
            rest.drop_first(),
            t@.skip(start as int).skip(m),
        ) by {
            assert(t@.skip(start as int).skip(m) == t@.skip(start + m));
        }
    }
    false
}

/// `str::to_lowercase`: the Unicode lowercase mapping of `s`.
pub uninterp spec fn lowercase(s: Seq<char>) -> Seq<char>;

/// Calls `str::to_lowercase`. Claims only that the result is the lowercase
/// mapping of `s`, a function of `s` alone.
#[verifier::external_body]
pub(crate) fn to_lowercase(s: &str) -> (r: String)
    ensures
        r@ == lowercase(s@),
{
    s.to_lowercase()
}

/// Case-insensitive glob match: both sides are lowercased first.
pub open spec fn glob_matches_ci(pattern: Seq<char>, text: Seq<char>) -> bool {
    glob_matches(lowercase(pattern), lowercase(text))
}

/// Glob match of already-lowercased strings; `*` matches any run of characters.
pub fn matches_glob_lower(pattern: &str, text: &str) -> (r: bool)
    ensures
        r == glob_matches(pattern@, text@),
{
    let p = chars_of(pattern);
    let t = chars_of(text);
    assert(p@.skip(0) == p@);
    assert(t@.skip(0) == t@);
    glob_from(&p, 0, &t, 0)
}

/// Match `text` against a simple glob `pattern` that supports `*` wildcards.
///
/// `*` matches zero or more characters.  Matching is case-insensitive.
pub fn matches_glob(pattern: &str, text: &str) -> (r: bool)
    ensures
        r == glob_matches_ci(pattern@, text@),
{
    let p = to_lowercase(pattern);
    let t = to_lowercase(text);
    matches_glob_lower(p.as_str(), t.as_str())
}


/// A pattern of one `*` matches every text.
pub proof fn lemma_glob_star_matches_all(t: Seq<char>)
    ensures
        glob_matches(seq!['*'], t),
{
    let p = seq!['*'];
    lemma_glob_star_head(p, t);
    assert(p.drop_first().len() == 0);
    assert(t.skip(t.len() as int).len() == 0);
    assert(glob_matches(p.drop_first(), t.skip(t.len() as int)));
}

/// A pattern without `*` matches exactly the text equal to it.
pub proof fn lemma_glob_literal_is_equality(p: Seq<char>, t: Seq<char>)
    requires
        forall|j: int| 0 <= j < p.len() ==> p[j] != '*',
    ensures
        glob_matches(p, t) == (p == t),
{
    lemma_glob_literal_prefix(p, t, p.len() as int);
    assert(p.take(p.len() as int) == p);
    assert(p.skip(p.len() as int).len() == 0);
    if p.len() <= t.len() {
        if t.skip(p.len() as int).len() == 0 {
            assert(t.take(p.len() as int) == t);
        }
    }
}

// ---------------------------------------------------------------------------
// WM_CLASS decoding
// ---------------------------------------------------------------------------

/// The index of the first `c` in `s`, or `s.len()` when there is none.
pub open spec fn position_of(s: Seq<char>, c: char) -> int
    decreases s.len(),
{
    if s.len() == 0 {
        0
    } else if s[0] == c {
        0
    } else {
        1 + position_of(s.drop_first(), c)
    }
}

/// The first position of `c` lies within `s`, or is its end.
pub proof fn lemma_position_of_bounds(s: Seq<char>, c: char)
    ensures
        0 <= position_of(s, c) <= s.len(),
        position_of(s, c) < s.len() ==> s[position_of(s, c)] == c,
        forall|j: int| 0 <= j < position_of(s, c) ==> s[j] != c,
    decreases s.len(),
{
    if s.len() > 0 && s[0] != c {
        lemma_position_of_bounds(s.drop_first(), c);
        assert forall|j: int| 0 <= j < position_of(s, c) implies s[j] != c by {
            if j > 0 {
                assert(s.drop_first()[j - 1] != c);
            }
        }
    }
}

/// `k` is the first position of `c` in `s` (or `s.len()` when absent).
pub proof fn lemma_position_of(s: Seq<char>, c: char, k: int)
    requires
        0 <= k <= s.len(),
        k == s.len() || s[k] == c,
        forall|j: int| 0 <= j < k ==> s[j] != c,
    ensures
        position_of(s, c) == k,
    decreases s.len(),
{
    if s.len() > 0 && k > 0 {
        lemma_position_of(s.drop_first(), c, k - 1);
    }
}

/// The class name held by a `WM_CLASS` property value: the property holds
/// `instance\0class\0`, and the class is the second NUL-separated field; a
/// value with no NUL is taken whole.
pub open spec fn wm_class_of(s: Seq<char>) -> Seq<char> {
    let i = position_of(s, '\0');
    if i == s.len() {
        s
    } else {
        let rest = s.skip(i + 1);
        rest.take(position_of(rest, '\0'))
    }
}

pub(crate) fn position_in(v: &Vec<char>, from: usize, c: char) -> (k: usize)
    requires
        from <= v.len(),
    ensures
        from <= k <= v.len(),
        k - from == position_of(v@.skip(from as int), c),
{
    let mut k: usize = from;
    while k < v.len() && v[k] != c
        invariant
            from <= k <= v.len(),
            forall|j: int| from <= j < k ==> v@[j] != c,
        decreases v.len() - k,
    {
        k = k + 1;
    }
    proof {
        lemma_position_of(v@.skip(from as int), c, k - from);
    }
    k
}

/// What `String::from_utf8_lossy` makes of `bytes`: the decoded text, with
/// U+FFFD in place of each ill-formed sequence.
pub uninterp spec fn utf8_lossy(bytes: Seq<u8>) -> Seq<char>;

/// Calls `String::from_utf8_lossy`. Claims that the result is a function of
/// the bytes alone and, for well-formed UTF-8, is its decoding.
#[verifier::external_body]
pub(crate) fn decode_lossy(bytes: &[u8]) -> (s: String)
    ensures
        s@ == utf8_lossy(bytes@),
        valid_utf8(bytes@) ==> s@ == decode_utf8(bytes@),
{
    String::from_utf8_lossy(bytes).into_owned()
}

/// The class name of a raw `WM_CLASS` property value (decoded leniently as
/// UTF-8).
pub fn wm_class_name(raw: &[u8]) -> (s: String)
    ensures
        s@ == wm_class_of(utf8_lossy(raw@)),
{
    let text = decode_lossy(raw);
    let cs = chars_of(text.as_str());
    let i = position_in(&cs, 0, '\0');
    assert(cs@.skip(0) == cs@);
    if i == cs.len() {
        return text;
    }
    let j = position_in(&cs, i + 1, '\0');
    let mut out: Vec<char> = Vec::new();
    let mut m: usize = i + 1;
    while m < j
        invariant
            i + 1 <= m <= j <= cs.len(),
            out@ == cs@.subrange(i + 1, m as int),
        decreases j - m,
    {
        out.push(cs[m]);
        m = m + 1;
    }
    assert(out@ == cs@.skip(i + 1).take(j - (i + 1)));
    crate::text::string_from_chars(out.as_slice())
}

/// The focused X11 window is worth inspecting: there is a focus and it is not
/// the root window.
pub fn focus_is_candidate(focus: u32, root: u32) -> (b: bool)
    ensures
        b == (focus != 0 && focus != root),
{
    focus != 0 && focus != root
}

/// `_NET_WM_STATE` lists the fullscreen atom.
pub fn has_fullscreen_state(state_atoms: &[u32], fullscreen_atom: u32) -> (b: bool)
    ensures
        b == state_atoms@.contains(fullscreen_atom),
{
    let mut i: usize = 0;
    while i < state_atoms.len()
        invariant
            i <= state_atoms.len(),
            forall|j: int| 0 <= j < i ==> state_atoms@[j] != fullscreen_atom,
        decreases state_atoms.len() - i,
    {
        if state_atoms[i] == fullscreen_atom {
            assert(state_atoms@[i as int] == fullscreen_atom);
            return true;
        }
        i = i + 1;
    }
    false
}

/// What an X11 query found out about the focused window.
#[derive(Clone, Debug)]
pub enum X11Focus {
    /// No X11 display, or a request failed.
    Unavailable,
    /// No focused window, the root window, or a window that is not fullscreen.
    NotFullscreen,
    /// A fullscreen window, with its raw `WM_CLASS` property value.
    Fullscreen(Vec<u8>),
}

// ---------------------------------------------------------------------------
// FullscreenGuard
// ---------------------------------------------------------------------------

/// Some pattern of `patterns` matches `wm_class` (case-insensitively).
pub open spec fn matches_any_pattern(patterns: Seq<String>, wm_class: Seq<char>) -> bool {
    exists|i: int| 0 <= i < patterns.len() && #[trigger] glob_matches_ci(patterns[i]@, wm_class)
}

/// Detects whether the currently focused window is a fullscreen game.
///
/// When [`FullscreenGuard::should_passthrough`] returns `true` the daemon
/// should disable preedit and forward all key events unmodified.
pub struct FullscreenGuard {
    /// Glob patterns of game window classes.
    pub game_patterns: Vec<String>,
    /// Fullscreen state reported by the Wayland backend.
    pub wayland_fullscreen: bool,
    /// Window class of the Wayland-focused surface.
    pub wayland_wm_class: String,
}

impl FullscreenGuard {
    pub fn new(game_list: Vec<String>) -> (g: Self)
        ensures
            g.game_patterns@ == game_list@,
            !g.wayland_fullscreen,
            g.wayland_wm_class@.len() == 0,
    {
        FullscreenGuard {
            game_patterns: game_list,
            wayland_fullscreen: false,
            wayland_wm_class: String::new(),
        }
    }

    /// Called by the Wayland backend when the fullscreen state of the focused
    /// surface changes.
    pub fn set_wayland_fullscreen(&mut self, fullscreen: bool, wm_class: &str)
        ensures
            final(self).wayland_fullscreen == fullscreen,
            final(self).wayland_wm_class@ == wm_class@,
            final(self).game_patterns@ == old(self).game_patterns@,
    {
        self.wayland_fullscreen = fullscreen;
        self.wayland_wm_class = crate::text::owned(wm_class);
    }

    /// The Wayland surface in focus is fullscreen and its class is a game.
    pub open spec fn wayland_says_game(&self) -> bool {
        self.wayland_fullscreen && matches_any_pattern(self.game_patterns@, self.wayland_wm_class@)
    }

    /// What the X11 probe tells about the focused window, if anything.
    pub open spec fn x11_verdict(&self, probe: X11Focus) -> Option<bool> {
        match probe {
            X11Focus::Unavailable => None,
            X11Focus::NotFullscreen => Some(false),
            X11Focus::Fullscreen(raw) => Some(
                matches_any_pattern(self.game_patterns@, wm_class_of(utf8_lossy(raw@))),
            ),
        }
    }

    /// Returns `true` when preedit should be suppressed for the focused window.
    ///
    /// The check is skipped (returns `false`) when no game patterns are configured.
    pub fn should_passthrough(&self, x11: &X11Focus) -> (b: bool)
        ensures
            b == (self.game_patterns@.len() > 0 && (self.wayland_says_game() || self.x11_verdict(
                *x11,
            ) == Some(true))),
    {
        if self.game_patterns.len() == 0 {
            return false;
        }
        if self.check_wayland() {
            return true;
        }
        match self.check_x11(x11) {
            Some(b) => b,
            None => false,
        }
    }

    fn check_wayland(&self) -> (b: bool)
        ensures
            b == self.wayland_says_game(),
    {
        if !self.wayland_fullscreen {
            return false;
        }
        self.matches_any(self.wayland_wm_class.as_str())
    }

    fn check_x11(&self, x11: &X11Focus) -> (r: Option<bool>)
        ensures
            r == self.x11_verdict(*x11),
    {
        match x11 {
            X11Focus::Unavailable => None,
            X11Focus::NotFullscreen => Some(false),
            X11Focus::Fullscreen(raw) => {
                let wm_class = wm_class_name(raw.as_slice());
                Some(self.matches_any(wm_class.as_str()))
            },
        }
    }

    fn matches_any(&self, wm_class: &str) -> (b: bool)
        ensures
            b == matches_any_pattern(self.game_patterns@, wm_class@),
    {
        let mut i: usize = 0;
        while i < self.game_patterns.len()
            invariant
                i <= self.game_patterns.len(),
                forall|j: int|
                    0 <= j < i ==> !#[trigger] glob_matches_ci(self.game_patterns@[j]@, wm_class@),
            decreases self.game_patterns.len() - i,
        {
            if matches_glob(self.game_patterns[i].as_str(), wm_class) {
                return true;
            }
            i = i + 1;
        }
        false
    }
}

// ---------------------------------------------------------------------------
// RemoteDesktopMode
// ---------------------------------------------------------------------------

/// Decides whether the daemon is running inside a remote-desktop session.
///
/// When a session is active the daemon should switch to passthrough mode:
/// disable preedit and commit each keystroke immediately.
pub struct RemoteDesktopMode;

impl RemoteDesktopMode {
    /// A remote-desktop session is active when xrdp (`$XRDP_SESSION`) or a
    /// VNC server (`$VNC_DISPLAY`) announces itself, or when a Wayland display
    /// is set (`$WAYLAND_DISPLAY`) and its compositor advertises the
    /// `remote-desktop-unstable-v1` protocol among `wayland_globals`; checked
    /// in that order.
    pub fn is_active(xrdp_session: bool, vnc_display: bool, wayland_display: bool, wayland_globals: &Vec<String>) -> (b: bool)
        ensures
            b == (xrdp_session || vnc_display || (wayland_display && exists|i: int|
                0 <= i < wayland_globals.len() && #[trigger] wayland_globals@[i]@ == "remote-desktop-unstable-v1"@)),
    {
        if xrdp_session {
            return true;
        }
        if vnc_display {
            return true;
        }
        wayland_display && crate::detect::name_listed(wayland_globals, "remote-desktop-unstable-v1")
    }
}

} // verus!
