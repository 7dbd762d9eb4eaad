//! Character-level helpers shared by the protocol and matching code.
use vstd::prelude::*;

verus! {

/// The characters of `s`, in order.
pub fn chars_of(s: &str) -> (v: Vec<char>)
    ensures
        v@ == s@,
{
    let mut v: Vec<char> = Vec::new();
    for c in it: s.chars()
        invariant
            v@ == it.seq().take(it.index() as int),
            it.seq() == s@,
    {
        v.push(c);
    }
    v
}

/// The character at position `i` of `v`.
pub fn char_at(v: &Vec<char>, i: usize) -> (c: char)
    requires
        i < v.len(),
    ensures
        c == v@[i as int],
{
    v[i]
}

/// Append one character to a `String` (`String::push`).
#[verifier::external_body]
pub(crate) fn push_char(s: &mut String, c: char)
    ensures
        final(s)@ == old(s)@.push(c),
{
    s.push(c);
}

/// The string whose characters are `v`.
pub fn string_from_chars(v: &[char]) -> (s: String)
    ensures
        s@ == v@,
{
    let mut s = String::new();
    let mut i: usize = 0;
    while i < v.len()
        invariant
            i <= v.len(),
            s@ == v@.take(i as int),
        decreases v.len() - i,
    {
        push_char(&mut s, v[i]);
        i = i + 1;
    }
    s
}


/// `n` is the length of the longest common prefix of `a` and `b`.
pub open spec fn is_common_prefix_len(a: Seq<char>, b: Seq<char>, n: int) -> bool {
    &&& 0 <= n <= a.len()
    &&& n <= b.len()
    &&& forall|i: int| 0 <= i < n ==> a[i] == b[i]
    &&& (n == a.len() || n == b.len() || a[n] != b[n])
}

/// The length of the longest common prefix of `a` and `b`.
pub open spec fn common_prefix_len(a: Seq<char>, b: Seq<char>) -> int {
    choose|n: int| is_common_prefix_len(a, b, n)
}

/// The longest common prefix length is unique, so any witness is the value.
pub proof fn lemma_common_prefix_len_unique(a: Seq<char>, b: Seq<char>, n: int)
    requires
        is_common_prefix_len(a, b, n),
    ensures
        common_prefix_len(a, b) == n,
{
    let m = common_prefix_len(a, b);
    assert(is_common_prefix_len(a, b, m));
    if m < n {
        assert(a[m] == b[m]);
    } else if n < m {
        assert(a[n] == b[n]);
    }
}

/// The number of leading positions where `a` and `b` agree.
pub open spec fn agreeing_prefix(a: Seq<char>, b: Seq<char>) -> int
    decreases a.len(),
{
    if a.len() == 0 || b.len() == 0 || a[0] != b[0] {
        0
    } else {
        1 + agreeing_prefix(a.drop_first(), b.drop_first())
    }
}

/// Every two sequences have a longest common prefix.
pub proof fn lemma_common_prefix_exists(a: Seq<char>, b: Seq<char>)
    ensures
        is_common_prefix_len(a, b, common_prefix_len(a, b)),
    decreases a.len(),
{
    if a.len() == 0 || b.len() == 0 || a[0] != b[0] {
        assert(is_common_prefix_len(a, b, 0));
    } else {
        lemma_common_prefix_exists(a.drop_first(), b.drop_first());
        let m = common_prefix_len(a.drop_first(), b.drop_first());
        assert forall|i: int| 0 <= i < m + 1 implies a[i] == b[i] by {
            if i > 0 {
                assert(a.drop_first()[i - 1] == b.drop_first()[i - 1]);
            }
        }
        assert(is_common_prefix_len(a, b, m + 1));
    }
}

/// Length of the longest common prefix of two character slices.
pub fn common_prefix_len_of(a: &[char], b: &[char]) -> (n: usize)
    ensures
        n == common_prefix_len(a@, b@),
        is_common_prefix_len(a@, b@, n as int),
{
    let mut i: usize = 0;
    while i < a.len() && i < b.len() && a[i] == b[i]
        invariant
            i <= a.len(),
            i <= b.len(),
            forall|j: int| 0 <= j < i ==> a@[j] == b@[j],
        decreases a.len() - i,
    {
        i = i + 1;
    }
    proof {
        lemma_common_prefix_len_unique(a@, b@, i as int);
    }
    i
}

/// The characters `v[from..]` as a string.
pub fn string_from_chars_from(v: &[char], from: usize) -> (s: String)
    requires
        from <= v.len(),
    ensures
        s@ == v@.skip(from as int),
{
    let mut s = String::new();
    let mut i: usize = from;
    while i < v.len()
        invariant
            from <= i <= v.len(),
            s@ == v@.subrange(from as int, i as int),
        decreases v.len() - i,
    {
        push_char(&mut s, v[i]);
        assert(v@.subrange(from as int, i + 1) == v@.subrange(from as int, i as int).push(v@[i as int]));
        i = i + 1;
    }
    assert(v@.subrange(from as int, v.len() as int) == v@.skip(from as int));
    s
}

/// `char::from_u32`: the character with the given code point, if it is a
/// Unicode scalar value (at most U+10FFFF and not a surrogate).
#[verifier::external_body]
pub(crate) fn char_from_u32(v: u32) -> (r: Option<char>)
    ensures
        r is Some <==> (v <= 0x10FFFF && !(0xD800 <= v && v <= 0xDFFF)),
        r matches Some(c) ==> c as u32 == v,
{
    char::from_u32(v)
}


/// The decimal digit character for `d < 10`.
pub open spec fn digit_char(d: nat) -> char {
    if d == 0 { '0' } else if d == 1 { '1' } else if d == 2 { '2' } else if d == 3 { '3' }
    else if d == 4 { '4' } else if d == 5 { '5' } else if d == 6 { '6' } else if d == 7 { '7' }
    else if d == 8 { '8' } else { '9' }
}

/// The decimal representation of `n`, without leading zeros.
pub open spec fn spec_decimal(n: nat) -> Seq<char>
    decreases n,
{
    if n < 10 {
        seq![digit_char(n)]
    } else {
        spec_decimal(n / 10).push(digit_char(n % 10))
    }
}

fn digit_of(d: u64) -> (c: char)
    requires
        d < 10,
    ensures
        c == digit_char(d as nat),
{
    if d == 0 { '0' } else if d == 1 { '1' } else if d == 2 { '2' } else if d == 3 { '3' }
    else if d == 4 { '4' } else if d == 5 { '5' } else if d == 6 { '6' } else if d == 7 { '7' }
    else if d == 8 { '8' } else { '9' }
}

/// Append the decimal representation of `n` to `s`.
pub fn push_decimal(s: &mut String, n: u64)
    ensures
        final(s)@ == old(s)@ + spec_decimal(n as nat),
    decreases n,
{
    if n >= 10 {
        push_decimal(s, n / 10);
    }
    push_char(s, digit_of(n % 10));
}

/// The decimal representation of `n`.
pub fn decimal(n: u64) -> (s: String)
    ensures
        s@ == spec_decimal(n as nat),
{
    let mut s = String::new();
    push_decimal(&mut s, n);
    s
}

/// A `String` holding the characters of `t`.
pub fn owned(t: &str) -> (s: String)
    ensures
        s@ == t@,
{
    t.to_owned()
}

/// Append the characters of `t` to `s`.
pub fn push_str(s: &mut String, t: &str)
    ensures
        final(s)@ == old(s)@ + t@,
{
    let cs = chars_of(t);
    let mut i: usize = 0;
    while i < cs.len()
        invariant
            i <= cs.len(),
            cs@ == t@,
            s@ == old(s)@ + t@.take(i as int),
        decreases cs.len() - i,
    {
        push_char(s, cs[i]);
        assert(t@.take(i + 1) == t@.take(i as int).push(t@[i as int]));
        i = i + 1;
    }
    assert(t@.take(cs.len() as int) == t@);
}


/// The number of characters of `s`.
pub(crate) fn char_len(s: &str) -> (n: usize)
    ensures
        n == s@.len(),
{
    chars_of(s).len()
}

/// Remove the last character of `s` (`String::pop`).
#[verifier::external_body]
pub(crate) fn pop_char(s: &mut String) -> (c: Option<char>)
    ensures
        old(s)@.len() == 0 ==> c is None && final(s)@ == old(s)@,
        old(s)@.len() > 0 ==> c == Some(old(s)@.last()) && final(s)@ == old(s)@.drop_last(),
{
    s.pop()
}


/// A line without the carriage return of a `\r\n` ending.
pub open spec fn strip_cr(l: Seq<char>) -> Seq<char> {
    if l.len() > 0 && l.last() == '\r' { l.drop_last() } else { l }
}

/// The lines of `s` as `str::lines` yields them: split at each `\n` (a `\r`
/// before it is dropped too); a final line without `\n` is kept as it is, and
/// no empty line follows a final `\n`.
pub open spec fn lines_of(s: Seq<char>) -> Seq<Seq<char>>
    decreases s.len(),
{
    if s.len() == 0 {
        Seq::empty()
    } else {
        proof {
            crate::compat::lemma_position_of_bounds(s, '\n');
        }
        let i = crate::compat::position_of(s, '\n');
        if i < s.len() {
            seq![strip_cr(s.take(i))] + lines_of(s.skip(i + 1))
        } else {
            seq![s]
        }
    }
}

/// The strings of `v` as character sequences.
pub open spec fn seq_of_strings(v: Seq<String>) -> Seq<Seq<char>> {
    Seq::new(v.len(), |i: int| v[i]@)
}

/// The lines of `s` (`str::lines`).
pub fn lines(s: &str) -> (v: Vec<String>)
    ensures
        seq_of_strings(v@) == lines_of(s@),
{
    let cs = chars_of(s);
    let mut out: Vec<String> = Vec::new();
    let ghost mut acc: Seq<Seq<char>> = Seq::empty();
    let mut start: usize = 0;
    assert(cs@.skip(0) == cs@);
    while start < cs.len()
        invariant
            start <= cs.len(),
            cs@ == s@,
            seq_of_strings(out@) == acc,
            acc + lines_of(cs@.skip(start as int)) == lines_of(s@),
        decreases cs.len() - start,
    {
        let ghost rest = cs@.skip(start as int);
        let k = crate::compat::position_in(&cs, start, '\n');
        let mut end: usize = k;
        if k < cs.len() && k > start && cs[k - 1] == '\r' {
            end = k - 1;
        }
        let mut line: Vec<char> = Vec::new();
        let mut m: usize = start;
        while m < end
            invariant
                start <= m <= end <= k <= cs.len(),
                line@ == cs@.subrange(start as int, m as int),
            decreases end - m,
        {
            line.push(cs[m]);
            m = m + 1;
        }
        let ls = string_from_chars(line.as_slice());
        proof {
            if k < cs.len() {
                assert(rest.take(k - start) == cs@.subrange(start as int, k as int));
                assert(rest.skip(k - start + 1) == cs@.skip(k + 1));
                assert(strip_cr(rest.take(k - start)) == line@);
                assert(acc.push(line@) + lines_of(cs@.skip(k + 1)) =~= acc + (seq![line@] + lines_of(cs@.skip(k + 1))));
            } else {
                assert(line@ == rest);
                assert(acc.push(line@) =~= acc + seq![rest]);
            }
            acc = acc.push(line@);
        }
        let ghost before = out@;
        out.push(ls);
        proof {
            assert(seq_of_strings(out@) =~= seq_of_strings(before).push(line@));
        }
        if k < cs.len() {
            start = k + 1;
        } else {
            start = cs.len();
            assert(cs@.skip(cs.len() as int).len() == 0);
        }
    }
    assert(cs@.skip(start as int).len() == 0);
    assert(acc + Seq::<Seq<char>>::empty() =~= acc);
    out
}

/// `start..end` is the span of `s` that `str::trim` keeps: every character
/// before `start` and from `end` on is whitespace, and the kept span neither
/// starts nor ends with whitespace.
pub open spec fn trimmed(s: Seq<char>, start: int, end: int) -> bool {
    &&& 0 <= start <= end <= s.len()
    &&& forall|i: int| 0 <= i < start ==> crate::ipc::is_white_space(#[trigger] s[i])
    &&& forall|i: int| end <= i < s.len() ==> crate::ipc::is_white_space(#[trigger] s[i])
    &&& (start < end ==> !crate::ipc::is_white_space(s[start]) && !crate::ipc::is_white_space(s[end - 1]))
}

/// `s` without its leading and trailing whitespace.
pub open spec fn trim_of(s: Seq<char>) -> Seq<char> {
    let (a, b) = choose|a: int, b: int| trimmed(s, a, b);
    s.subrange(a, b)
}

/// Any two trimmed spans of `s` hold the same characters.
pub proof fn lemma_trimmed_unique(s: Seq<char>, a: int, b: int, a2: int, b2: int)
    requires
        trimmed(s, a, b),
        trimmed(s, a2, b2),
    ensures
        s.subrange(a, b) == s.subrange(a2, b2),
{
    if a < b && a2 < b2 {
        assert(a == a2) by {
            if a < a2 { assert(crate::ipc::is_white_space(s[a])); }
            if a2 < a { assert(crate::ipc::is_white_space(s[a2])); }
        }
        assert(b == b2) by {
            if b < b2 { assert(crate::ipc::is_white_space(s[b2 - 1])); }
            if b2 < b { assert(crate::ipc::is_white_space(s[b - 1])); }
        }
    } else if a < b {
        assert(crate::ipc::is_white_space(s[a])) by {
            if a >= a2 { assert(a >= b2); }
        }
    } else if a2 < b2 {
        assert(crate::ipc::is_white_space(s[a2])) by {
            if a2 >= a { assert(a2 >= b); }
        }
    } else {
        assert(s.subrange(a, b) =~= s.subrange(a2, b2));
    }
}

/// The trimmed span found is the one `trim_of` speaks of.
pub proof fn lemma_trim_of(s: Seq<char>, a: int, b: int)
    requires
        trimmed(s, a, b),
    ensures
        trim_of(s) == s.subrange(a, b),
{
    let (a2, b2) = choose|a2: int, b2: int| trimmed(s, a2, b2);
    lemma_trimmed_unique(s, a, b, a2, b2);
}

/// `s` without leading and trailing whitespace (`str::trim`).
pub fn trim(s: &str) -> (t: String)
    ensures
        t@ == trim_of(s@),
{
    let cs = chars_of(s);
    let mut a: usize = 0;
    while a < cs.len() && crate::ipc::char_is_whitespace(cs[a])
        invariant
            a <= cs.len(),
            cs@ == s@,
            forall|i: int| 0 <= i < a ==> crate::ipc::is_white_space(#[trigger] cs@[i]),
        decreases cs.len() - a,
    {
        a = a + 1;
    }
    let mut b: usize = cs.len();
    while b > a && crate::ipc::char_is_whitespace(cs[b - 1])
        invariant
            a <= b <= cs.len(),
            cs@ == s@,
            forall|i: int| b <= i < cs.len() ==> crate::ipc::is_white_space(#[trigger] cs@[i]),
        decreases b,
    {
        b = b - 1;
    }
    let mut t = String::new();
    let mut m: usize = a;
    while m < b
        invariant
            a <= m <= b <= cs.len(),
            t@ == cs@.subrange(a as int, m as int),
        decreases b - m,
    {
        push_char(&mut t, cs[m]);
        assert(cs@.subrange(a as int, m + 1) == cs@.subrange(a as int, m as int).push(cs@[m as int]));
        m = m + 1;
    }
    proof {
        if a < b {
            assert(!crate::ipc::is_white_space(cs@[a as int]));
        }
        assert(trimmed(s@, a as int, b as int));
        lemma_trim_of(s@, a as int, b as int);
    }
    t
}

/// `s` without the prefix `p`, when it starts with `p` (`str::strip_prefix`).
pub fn strip_prefix_str(s: &str, p: &str) -> (r: Option<String>)
    ensures
        p@.is_prefix_of(s@) ==> (r matches Some(rest) && rest@ == s@.skip(p@.len() as int)),
        !p@.is_prefix_of(s@) ==> r is None,
{
    let cs = chars_of(s);
    let ps = chars_of(p);
    if ps.len() > cs.len() {
        return None;
    }
    let mut i: usize = 0;
    while i < ps.len()
        invariant
            i <= ps.len() <= cs.len(),
            cs@ == s@,
            ps@ == p@,
            forall|j: int| 0 <= j < i ==> cs@[j] == ps@[j],
        decreases ps.len() - i,
    {
        if cs[i] != ps[i] {
            return None;
        }
        i = i + 1;
    }
    assert(cs@.take(ps@.len() as int) =~= ps@);
    Some(string_from_chars_from(cs.as_slice(), ps.len()))
}

/// Whether `a` and `b` hold the same characters.
pub fn same_text(a: &str, b: &str) -> (r: bool)
    ensures
        r == (a@ == b@),
{
    let x = chars_of(a);
    let y = chars_of(b);
    if x.len() != y.len() {
        return false;
    }
    let mut i: usize = 0;
    while i < x.len()
        invariant
            i <= x.len() == y.len(),
            x@ == a@,
            y@ == b@,
            forall|m: int| 0 <= m < i ==> x@[m] == y@[m],
        decreases x.len() - i,
    {
        if x[i] != y[i] {
            assert(x@[i as int] != y@[i as int]);
            return false;
        }
        i = i + 1;
    }
    assert(x@ == y@);
    true
}

/// The number of bytes of the UTF-8 encoding of `c`.
pub open spec fn utf8_width(c: char) -> nat {
    let v = c as u32;
    if v < 0x80 { 1 } else if v < 0x800 { 2 } else if v < 0x10000 { 3 } else { 4 }
}

/// How many characters of `s` lie wholly within its first `off` bytes of
/// UTF-8: the character count at a byte offset, for an offset past the end
/// the whole count, and inside a character the characters before it.
pub open spec fn chars_within(s: Seq<char>, off: int) -> nat
    decreases s.len(),
{
    if s.len() == 0 || off < utf8_width(s[0]) {
        0
    } else {
        1 + chars_within(s.drop_first(), off - utf8_width(s[0]))
    }
}

/// The character count at byte offset `off` of `s` (see [`chars_within`]).
pub fn chars_at_byte_offset(s: &str, off: usize) -> (n: usize)
    ensures
        n == chars_within(s@, off as int),
        n <= s@.len(),
{
    let cs = chars_of(s);
    let mut i: usize = 0;
    let mut used: usize = 0;
    assert(cs@.skip(0) == cs@);
    while i < cs.len()
        invariant
            i <= cs.len(),
            cs@ == s@,
            used <= off,
            chars_within(s@, off as int) == i + chars_within(cs@.skip(i as int), off - used),
        decreases cs.len() - i,
    {
        let v = cs[i] as u32;
        let w: usize = if v < 0x80 { 1 } else if v < 0x800 { 2 } else if v < 0x10000 { 3 } else { 4 };
        assert(cs@.skip(i as int)[0] == cs@[i as int]);
        if w > off - used {
            return i;
        }
        assert(cs@.skip(i as int).drop_first() == cs@.skip(i + 1));
        used = used + w;
        i = i + 1;
    }
    assert(cs@.skip(i as int).len() == 0);
    i
}

} // verus!
