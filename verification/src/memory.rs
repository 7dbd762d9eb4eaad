//! Resident memory of the process, read from the text of `/proc/self/status`.
use vstd::prelude::*;
use crate::fcitx5::{all_digits, digits_value, lemma_digits_value_grows};
use crate::ipc::{char_is_whitespace, is_white_space};
use crate::text::{chars_of, lines, lines_of, seq_of_strings, strip_prefix_str};

verus! {

/// `s` without its leading whitespace.
pub open spec fn skip_ws(s: Seq<char>) -> Seq<char>
    decreases s.len(),
{
    if s.len() > 0 && is_white_space(s[0]) { skip_ws(s.drop_first()) } else { s }
}

/// The number of leading characters of `s` that are not whitespace.
pub open spec fn word_prefix_len(s: Seq<char>) -> nat
    decreases s.len(),
{
    if s.len() > 0 && !is_white_space(s[0]) { 1 + word_prefix_len(s.drop_first()) } else { 0 }
}

/// The first whitespace-separated word of `s` (empty when there is none),
/// as `str::split_whitespace` yields it first.
pub open spec fn first_word(s: Seq<char>) -> Seq<char> {
    let t = skip_ws(s);
    t.take(word_prefix_len(t) as int)
}

/// What `str::parse::<u64>` accepts: an optional `+`, then one or more ASCII
/// digits whose value fits in a `u64`.
pub open spec fn spec_parse_u64(s: Seq<char>) -> Option<u64> {
    let d = if s.len() > 0 && s[0] == '+' { s.drop_first() } else { s };
    if all_digits(d) && digits_value(d) <= u64::MAX {
        Some(digits_value(d) as u64)
    } else {
        None
    }
}

/// The prefix of the resident-set line of `/proc/self/status`.
pub open spec fn vm_rss_prefix() -> Seq<char> {
    seq!['V', 'm', 'R', 'S', 'S', ':']
}

/// The kilobytes that the first `VmRSS:` line with a number gives, 0 when no
/// line does.
pub open spec fn rss_of_lines(ls: Seq<Seq<char>>) -> u64
    decreases ls.len(),
{
    if ls.len() == 0 {
        0
    } else if vm_rss_prefix().is_prefix_of(ls[0])
        && spec_parse_u64(first_word(ls[0].skip(vm_rss_prefix().len() as int))) is Some {
        spec_parse_u64(first_word(ls[0].skip(vm_rss_prefix().len() as int)))->0
    } else {
        rss_of_lines(ls.drop_first())
    }
}

/// Parse a decimal `u64` as `str::parse::<u64>` does.
pub fn parse_u64(s: &str) -> (r: Option<u64>)
    ensures
        r == spec_parse_u64(s@),
{
    let cs = chars_of(s);
    let start: usize = if cs.len() > 0 && cs[0] == '+' { 1 } else { 0 };
    let ghost d = if s@.len() > 0 && s@[0] == '+' { s@.drop_first() } else { s@ };
    assert(d == cs@.skip(start as int));
    if start == cs.len() {
        return None;
    }
    let mut value: u128 = 0;
    let mut i: usize = start;
    while i < cs.len()
        invariant
            start <= i <= cs.len(),
            start < cs.len(),
            cs@ == s@,
            d == (if s@.len() > 0 && s@[0] == '+' { s@.drop_first() } else { s@ }),
            d == cs@.skip(start as int),
            forall|m: int| start <= m < i ==> '0' <= #[trigger] cs@[m] <= '9',
            value == digits_value(cs@.subrange(start as int, i as int)),
            value <= u64::MAX,
        decreases cs.len() - i,
    {
        let c = cs[i];
        if !('0' <= c && c <= '9') {
            assert(d[i - start] == c);
            return None;
        }
        let digit = (c as u32 - '0' as u32) as u128;
        assert(cs@.subrange(start as int, i + 1).drop_last() == cs@.subrange(start as int, i as int));
        value = value * 10 + digit;
        if value > 0xFFFF_FFFF_FFFF_FFFF {
            proof {
                let p = cs@.subrange(start as int, i + 1);
                if all_digits(d) {
                    lemma_digits_value_grows(d, i + 1 - start);
                    assert(d.take(i + 1 - start) == p);
                }
            }
            return None;
        }
        i = i + 1;
    }
    assert(cs@.subrange(start as int, cs.len() as int) == d);
    Some(value as u64)
}

/// The first whitespace-separated word of `s`.
pub fn first_word_of(s: &str) -> (w: String)
    ensures
        w@ == first_word(s@),
{
    let cs = chars_of(s);
    let mut a: usize = 0;
    assert(cs@.skip(0) == s@);
    while a < cs.len() && char_is_whitespace(cs[a])
        invariant
            a <= cs.len(),
            cs@ == s@,
            skip_ws(cs@.skip(a as int)) == skip_ws(s@),
        decreases cs.len() - a,
    {
        assert(cs@.skip(a as int).drop_first() == cs@.skip(a + 1));
        a = a + 1;
    }
    assert(skip_ws(cs@.skip(a as int)) == cs@.skip(a as int));
    let ghost t = cs@.skip(a as int);
    let mut w = String::new();
    let mut b: usize = a;
    while b < cs.len() && !char_is_whitespace(cs[b])
        invariant
            a <= b <= cs.len(),
            cs@ == s@,
            t == cs@.skip(a as int),
            w@ == cs@.subrange(a as int, b as int),
            word_prefix_len(t) == (b - a) + word_prefix_len(cs@.skip(b as int)),
        decreases cs.len() - b,
    {
        crate::text::push_char(&mut w, cs[b]);
        assert(cs@.subrange(a as int, b + 1) == cs@.subrange(a as int, b as int).push(cs@[b as int]));
        assert(cs@.skip(b as int).drop_first() == cs@.skip(b + 1));
        b = b + 1;
    }
    assert(word_prefix_len(cs@.skip(b as int)) == 0);
    assert(t.take(word_prefix_len(t) as int) == cs@.subrange(a as int, b as int));
    w
}

/// The resident set size in kilobytes that a `/proc/self/status` text
/// reports: the number after the first `VmRSS:` line that has one, else 0.
pub fn rss_kb_from_status(status: &str) -> (kb: u64)
    ensures
        kb == rss_of_lines(lines_of(status@)),
{
    let ls = lines(status);
    let mut i: usize = 0;
    assert(lines_of(status@).skip(0) == lines_of(status@));
    while i < ls.len()
        invariant
            i <= ls.len(),
            seq_of_strings(ls@) == lines_of(status@),
            rss_of_lines(lines_of(status@)) == rss_of_lines(lines_of(status@).skip(i as int)),
        decreases ls.len() - i,
    {
        let ghost rest = lines_of(status@).skip(i as int);
        assert(rest[0] == ls@[i as int]@);
        assert(rest.drop_first() == lines_of(status@).skip(i + 1));
        match strip_prefix_str(ls[i].as_str(), "VmRSS:") {
            Some(tail) => {
                proof {
                    reveal_strlit("VmRSS:");
                    assert("VmRSS:"@ =~= vm_rss_prefix());
                }
                let word = first_word_of(tail.as_str());
                match parse_u64(word.as_str()) {
                    Some(kb) => {
                        return kb;
                    },
                    None => {},
                }
            },
            None => {
                proof {
                    reveal_strlit("VmRSS:");
                    assert("VmRSS:"@ =~= vm_rss_prefix());
                }
            },
        }
        i = i + 1;
    }
    0
}

} // verus!
