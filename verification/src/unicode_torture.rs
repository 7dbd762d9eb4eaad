//! Structured Unicode torture-test cases for the engine's Unicode pipeline.
//!
//! Each case carries a `raw_input` string and an `expected_nfc`:
//! - `Some(s)`: the pipeline must succeed and produce exactly `s`.
//! - `None`: the pipeline must return an error (e.g., orphaned combining mark).
use vstd::prelude::*;

verus! {

/// One Unicode torture-test case.
pub struct UnicodeTortureCase {
    pub description: &'static str,
    /// Input fed to the Unicode pipeline.
    pub raw_input: &'static str,
    /// Expected NFC output, or `None` if the pipeline should return an error.
    pub expected_nfc: Option<&'static str>,
}

/// How many torture cases there are.
pub const TORTURE_CASE_COUNT: usize = 40;

/// The torture cases as `(description, raw input, expected NFC output)`, in
/// order.
pub open spec fn torture_table() -> Seq<(Seq<char>, Seq<char>, Option<Seq<char>>)> {
    seq![
        ("NFD tôi normalizes to NFC tôi"@, seq!['t', 'o', '\u{302}', 'i'], Some(seq!['t', '\u{F4}', 'i'])),
        ("NFD â (a + combining circumflex)"@, seq!['a', '\u{302}'], Some(seq!['\u{E2}'])),
        ("NFD ă (a + combining breve U+0306)"@, seq!['a', '\u{306}'], Some(seq!['\u{103}'])),
        ("NFD ộ (o + circumflex + dot below)"@, seq!['o', '\u{302}', '\u{323}'], Some(seq!['\u{1ED9}'])),
        ("NFD ứ (u + horn U+031B + acute)"@, seq!['u', '\u{31B}', '\u{301}'], Some(seq!['\u{1EE9}'])),
        ("NFD ẵ (a + breve + tilde)"@, seq!['a', '\u{306}', '\u{303}'], Some(seq!['\u{1EB5}'])),
        ("NFD ầ (a + circumflex + grave)"@, seq!['a', '\u{302}', '\u{300}'], Some(seq!['\u{1EA7}'])),
        ("NFD à (a + combining grave, double-encoded)"@, seq!['a', '\u{300}'], Some(seq!['\u{E0}'])),
        ("NFD ô (o + combining circumflex, double-encoded)"@, seq!['o', '\u{302}'], Some(seq!['\u{F4}'])),
        ("NFD ị (i + combining dot below)"@, seq!['i', '\u{323}'], Some(seq!['\u{1ECB}'])),
        ("already-NFC Vietnamese sentence passthrough"@, seq!['X', 'i', 'n', ' ', 'c', 'h', '\u{E0}', 'o'], Some(seq!['X', 'i', 'n', ' ', 'c', 'h', '\u{E0}', 'o'])),
        ("empty string passthrough"@, Seq::<char>::empty(), Some(Seq::<char>::empty())),
        ("plain ASCII passthrough"@, seq!['h', 'e', 'l', 'l', 'o', ' ', 'w', 'o', 'r', 'l', 'd'], Some(seq!['h', 'e', 'l', 'l', 'o', ' ', 'w', 'o', 'r', 'l', 'd'])),
        ("CJK characters passthrough"@, seq!['\u{4E2D}', '\u{6587}'], Some(seq!['\u{4E2D}', '\u{6587}'])),
        ("family emoji ZWJ sequence passthrough"@, seq!['\u{1F468}', '\u{200D}', '\u{1F469}', '\u{200D}', '\u{1F467}'], Some(seq!['\u{1F468}', '\u{200D}', '\u{1F469}', '\u{200D}', '\u{1F467}'])),
        ("emoji with skin-tone modifier passthrough"@, seq!['\u{1F44B}', '\u{1F3FB}'], Some(seq!['\u{1F44B}', '\u{1F3FB}'])),
        ("Vietnamese ASCII + flag emoji (VN flag 🇻🇳)"@, seq!['v', 'i', 'e', 't', '\u{1F1FB}', '\u{1F1F3}'], Some(seq!['v', 'i', 'e', 't', '\u{1F1FB}', '\u{1F1F3}'])),
        ("U+FFFE (non-character) passes through"@, seq!['\u{FFFE}'], Some(seq!['\u{FFFE}'])),
        ("U+FFFF (non-character) passes through"@, seq!['\u{FFFF}'], Some(seq!['\u{FFFF}'])),
        ("mixed Arabic RTL + Vietnamese"@, seq!['\u{645}', '\u{631}', '\u{62D}', '\u{628}', '\u{627}', ' ', 't', '\u{F4}', 'i'], Some(seq!['\u{645}', '\u{631}', '\u{62D}', '\u{628}', '\u{627}', ' ', 't', '\u{F4}', 'i'])),
        ("lone combining grave U+0300 → error"@, seq!['\u{300}'], None),
        ("lone combining acute U+0301 → error"@, seq!['\u{301}'], None),
        ("lone combining circumflex U+0302 → error"@, seq!['\u{302}'], None),
        ("ZWJ followed immediately by combining grave → error"@, seq!['\u{200D}', '\u{300}'], None),
        ("precomposed à (U+00E0) already NFC"@, seq!['\u{E0}'], Some(seq!['\u{E0}'])),
        ("precomposed ô (U+00F4) already NFC"@, seq!['\u{F4}'], Some(seq!['\u{F4}'])),
        ("precomposed ộ (U+1EED→U+1ED9) already NFC"@, seq!['\u{1ED9}'], Some(seq!['\u{1ED9}'])),
        ("precomposed ứ (U+1EE9) already NFC"@, seq!['\u{1EE9}'], Some(seq!['\u{1EE9}'])),
        ("NFD ặ (a + breve CCC=230 + dot-below CCC=220, non-canonical order)"@, seq!['a', '\u{306}', '\u{323}'], Some(seq!['\u{1EB7}'])),
        ("NFD ặ (a + dot-below CCC=220 + breve CCC=230, canonical order)"@, seq!['a', '\u{323}', '\u{306}'], Some(seq!['\u{1EB7}'])),
        ("NFD ợ (o + horn U+031B + dot below)"@, seq!['o', '\u{31B}', '\u{323}'], Some(seq!['\u{1EE3}'])),
        ("NFD ự (u + horn U+031B + dot below)"@, seq!['u', '\u{31B}', '\u{323}'], Some(seq!['\u{1EF1}'])),
        ("NFD ấ (a + circumflex + acute, correct CCC order)"@, seq!['a', '\u{302}', '\u{301}'], Some(seq!['\u{1EA5}'])),
        ("wrong-order same-CCC: acute before circumflex on 'a' → NFC á+U+0302"@, seq!['a', '\u{301}', '\u{302}'], Some(seq!['\u{E1}', '\u{302}'])),
        ("C1 control U+0080 → LegacyEncoding error (TCVN3 marker)"@, seq!['\u{80}'], None),
        ("C1 control U+0081 in mixed ASCII → LegacyEncoding error"@, seq!['v', 'i', 'e', '\u{81}', 't'], None),
        ("C1 control U+009F → LegacyEncoding error (TCVN3/VPS byte 0x9F)"@, seq!['\u{9F}'], None),
        ("C1 control U+0090 (DCS) → LegacyEncoding error"@, seq!['\u{90}'], None),
        ("U+00A0 (NBSP) is above C1 range — passes through"@, seq!['\u{A0}'], Some(seq!['\u{A0}'])),
        ("high-codepoint non-character U+10FFFF passes through"@, seq!['\u{10FFFF}'], Some(seq!['\u{10FFFF}'])),
    ]
}

/// A case as `(description, raw input, expected NFC output)`.
pub open spec fn case_view(c: UnicodeTortureCase) -> (Seq<char>, Seq<char>, Option<Seq<char>>) {
    (c.description@, c.raw_input@, match c.expected_nfc {
        Some(s) => Some(s@),
        None => None,
    })
}

/// Return all torture cases, in a fixed order.
pub fn cases() -> (v: Vec<UnicodeTortureCase>)
    ensures
        v@.len() == TORTURE_CASE_COUNT,
        forall|i: int| 0 <= i < TORTURE_CASE_COUNT ==> #[trigger] case_view(v@[i]) == torture_table()[i],
{
    let mut v: Vec<UnicodeTortureCase> = Vec::new();
    v.push(UnicodeTortureCase { description: "NFD tôi normalizes to NFC tôi", raw_input: "to\u{0302}i", expected_nfc: Some("tôi") });
    v.push(UnicodeTortureCase { description: "NFD â (a + combining circumflex)", raw_input: "a\u{0302}", expected_nfc: Some("â") });
    v.push(UnicodeTortureCase { description: "NFD ă (a + combining breve U+0306)", raw_input: "a\u{0306}", expected_nfc: Some("ă") });
    v.push(UnicodeTortureCase { description: "NFD ộ (o + circumflex + dot below)", raw_input: "o\u{0302}\u{0323}", expected_nfc: Some("ộ") });
    v.push(UnicodeTortureCase { description: "NFD ứ (u + horn U+031B + acute)", raw_input: "u\u{031B}\u{0301}", expected_nfc: Some("ứ") });
    v.push(UnicodeTortureCase { description: "NFD ẵ (a + breve + tilde)", raw_input: "a\u{0306}\u{0303}", expected_nfc: Some("ẵ") });
    v.push(UnicodeTortureCase { description: "NFD ầ (a + circumflex + grave)", raw_input: "a\u{0302}\u{0300}", expected_nfc: Some("ầ") });
    v.push(UnicodeTortureCase { description: "NFD à (a + combining grave, double-encoded)", raw_input: "a\u{0300}", expected_nfc: Some("à") });
    v.push(UnicodeTortureCase { description: "NFD ô (o + combining circumflex, double-encoded)", raw_input: "o\u{0302}", expected_nfc: Some("ô") });
    v.push(UnicodeTortureCase { description: "NFD ị (i + combining dot below)", raw_input: "i\u{0323}", expected_nfc: Some("ị") });
    v.push(UnicodeTortureCase { description: "already-NFC Vietnamese sentence passthrough", raw_input: "Xin ch\u{00E0}o", expected_nfc: Some("Xin ch\u{00E0}o") });
    v.push(UnicodeTortureCase { description: "empty string passthrough", raw_input: "", expected_nfc: Some("") });
    v.push(UnicodeTortureCase { description: "plain ASCII passthrough", raw_input: "hello world", expected_nfc: Some("hello world") });
    v.push(UnicodeTortureCase { description: "CJK characters passthrough", raw_input: "\u{4E2D}\u{6587}", expected_nfc: Some("\u{4E2D}\u{6587}") });
    v.push(UnicodeTortureCase { description: "family emoji ZWJ sequence passthrough", raw_input: "\u{1F468}\u{200D}\u{1F469}\u{200D}\u{1F467}", expected_nfc: Some("\u{1F468}\u{200D}\u{1F469}\u{200D}\u{1F467}") });
    v.push(UnicodeTortureCase { description: "emoji with skin-tone modifier passthrough", raw_input: "\u{1F44B}\u{1F3FB}", expected_nfc: Some("\u{1F44B}\u{1F3FB}") });
    v.push(UnicodeTortureCase { description: "Vietnamese ASCII + flag emoji (VN flag 🇻🇳)", raw_input: "viet\u{1F1FB}\u{1F1F3}", expected_nfc: Some("viet\u{1F1FB}\u{1F1F3}") });
    v.push(UnicodeTortureCase { description: "U+FFFE (non-character) passes through", raw_input: "\u{FFFE}", expected_nfc: Some("\u{FFFE}") });
    v.push(UnicodeTortureCase { description: "U+FFFF (non-character) passes through", raw_input: "\u{FFFF}", expected_nfc: Some("\u{FFFF}") });
    v.push(UnicodeTortureCase { description: "mixed Arabic RTL + Vietnamese", raw_input: "\u{0645}\u{0631}\u{062D}\u{0628}\u{0627} t\u{00F4}i", expected_nfc: Some("\u{0645}\u{0631}\u{062D}\u{0628}\u{0627} t\u{00F4}i") });
    v.push(UnicodeTortureCase { description: "lone combining grave U+0300 → error", raw_input: "\u{0300}", expected_nfc: None });
    v.push(UnicodeTortureCase { description: "lone combining acute U+0301 → error", raw_input: "\u{0301}", expected_nfc: None });
    v.push(UnicodeTortureCase { description: "lone combining circumflex U+0302 → error", raw_input: "\u{0302}", expected_nfc: None });
    v.push(UnicodeTortureCase { description: "ZWJ followed immediately by combining grave → error", raw_input: "\u{200D}\u{0300}", expected_nfc: None });
    v.push(UnicodeTortureCase { description: "precomposed à (U+00E0) already NFC", raw_input: "\u{00E0}", expected_nfc: Some("\u{00E0}") });
    v.push(UnicodeTortureCase { description: "precomposed ô (U+00F4) already NFC", raw_input: "\u{00F4}", expected_nfc: Some("\u{00F4}") });
    v.push(UnicodeTortureCase { description: "precomposed ộ (U+1EED→U+1ED9) already NFC", raw_input: "\u{1ED9}", expected_nfc: Some("\u{1ED9}") });
    v.push(UnicodeTortureCase { description: "precomposed ứ (U+1EE9) already NFC", raw_input: "\u{1EE9}", expected_nfc: Some("\u{1EE9}") });
    v.push(UnicodeTortureCase { description: "NFD ặ (a + breve CCC=230 + dot-below CCC=220, non-canonical order)", raw_input: "a\u{0306}\u{0323}", expected_nfc: Some("ặ") });
    v.push(UnicodeTortureCase { description: "NFD ặ (a + dot-below CCC=220 + breve CCC=230, canonical order)", raw_input: "a\u{0323}\u{0306}", expected_nfc: Some("ặ") });
    v.push(UnicodeTortureCase { description: "NFD ợ (o + horn U+031B + dot below)", raw_input: "o\u{031B}\u{0323}", expected_nfc: Some("ợ") });
    v.push(UnicodeTortureCase { description: "NFD ự (u + horn U+031B + dot below)", raw_input: "u\u{031B}\u{0323}", expected_nfc: Some("ự") });
    v.push(UnicodeTortureCase { description: "NFD ấ (a + circumflex + acute, correct CCC order)", raw_input: "a\u{0302}\u{0301}", expected_nfc: Some("ấ") });
    v.push(UnicodeTortureCase { description: "wrong-order same-CCC: acute before circumflex on 'a' → NFC á+U+0302", raw_input: "a\u{0301}\u{0302}", expected_nfc: Some("\u{00E1}\u{0302}") });
    v.push(UnicodeTortureCase { description: "C1 control U+0080 → LegacyEncoding error (TCVN3 marker)", raw_input: "\u{0080}", expected_nfc: None });
    v.push(UnicodeTortureCase { description: "C1 control U+0081 in mixed ASCII → LegacyEncoding error", raw_input: "vie\u{0081}t", expected_nfc: None });
    v.push(UnicodeTortureCase { description: "C1 control U+009F → LegacyEncoding error (TCVN3/VPS byte 0x9F)", raw_input: "\u{009F}", expected_nfc: None });
    v.push(UnicodeTortureCase { description: "C1 control U+0090 (DCS) → LegacyEncoding error", raw_input: "\u{0090}", expected_nfc: None });
    v.push(UnicodeTortureCase { description: "U+00A0 (NBSP) is above C1 range — passes through", raw_input: "\u{00A0}", expected_nfc: Some("\u{00A0}") });
    v.push(UnicodeTortureCase { description: "high-codepoint non-character U+10FFFF passes through", raw_input: "\u{10FFFF}", expected_nfc: Some("\u{10FFFF}") });
    proof {
        reveal_strlit("");
        reveal_strlit("Xin ch\u{00E0}o");
        reveal_strlit("\u{0080}");
        reveal_strlit("\u{0090}");
        reveal_strlit("\u{009F}");
        reveal_strlit("\u{00A0}");
        reveal_strlit("\u{00E0}");
        reveal_strlit("\u{00E1}\u{0302}");
        reveal_strlit("\u{00F4}");
        reveal_strlit("\u{0300}");
        reveal_strlit("\u{0301}");
        reveal_strlit("\u{0302}");
        reveal_strlit("\u{0645}\u{0631}\u{062D}\u{0628}\u{0627} t\u{00F4}i");
        reveal_strlit("\u{10FFFF}");
        reveal_strlit("\u{1ED9}");
        reveal_strlit("\u{1EE9}");
        reveal_strlit("\u{1F44B}\u{1F3FB}");
        reveal_strlit("\u{1F468}\u{200D}\u{1F469}\u{200D}\u{1F467}");
        reveal_strlit("\u{200D}\u{0300}");
        reveal_strlit("\u{4E2D}\u{6587}");
        reveal_strlit("\u{FFFE}");
        reveal_strlit("\u{FFFF}");
        reveal_strlit("a\u{0300}");
        reveal_strlit("a\u{0301}\u{0302}");
        reveal_strlit("a\u{0302}");
        reveal_strlit("a\u{0302}\u{0300}");
        reveal_strlit("a\u{0302}\u{0301}");
        reveal_strlit("a\u{0306}");
        reveal_strlit("a\u{0306}\u{0303}");
        reveal_strlit("a\u{0306}\u{0323}");
        reveal_strlit("a\u{0323}\u{0306}");
        reveal_strlit("hello world");
        reveal_strlit("i\u{0323}");
        reveal_strlit("o\u{0302}");
        reveal_strlit("o\u{0302}\u{0323}");
        reveal_strlit("o\u{031B}\u{0323}");
        reveal_strlit("to\u{0302}i");
        reveal_strlit("tôi");
        reveal_strlit("u\u{031B}\u{0301}");
        reveal_strlit("u\u{031B}\u{0323}");
        reveal_strlit("vie\u{0081}t");
        reveal_strlit("viet\u{1F1FB}\u{1F1F3}");
        reveal_strlit("à");
        reveal_strlit("â");
        reveal_strlit("ô");
        reveal_strlit("ă");
        reveal_strlit("ấ");
        reveal_strlit("ầ");
        reveal_strlit("ẵ");
        reveal_strlit("ặ");
        reveal_strlit("ị");
        reveal_strlit("ộ");
        reveal_strlit("ợ");
        reveal_strlit("ứ");
        reveal_strlit("ự");
        assert(case_view(v@[0]) == torture_table()[0]);
        assert(case_view(v@[1]) == torture_table()[1]);
        assert(case_view(v@[2]) == torture_table()[2]);
        assert(case_view(v@[3]) == torture_table()[3]);
        assert(case_view(v@[4]) == torture_table()[4]);
        assert(case_view(v@[5]) == torture_table()[5]);
        assert(case_view(v@[6]) == torture_table()[6]);
        assert(case_view(v@[7]) == torture_table()[7]);
        assert(case_view(v@[8]) == torture_table()[8]);
        assert(case_view(v@[9]) == torture_table()[9]);
        assert(case_view(v@[10]) == torture_table()[10]);
        assert(case_view(v@[11]) == torture_table()[11]);
        assert(case_view(v@[12]) == torture_table()[12]);
        assert(case_view(v@[13]) == torture_table()[13]);
        assert(case_view(v@[14]) == torture_table()[14]);
        assert(case_view(v@[15]) == torture_table()[15]);
        assert(case_view(v@[16]) == torture_table()[16]);
        assert(case_view(v@[17]) == torture_table()[17]);
        assert(case_view(v@[18]) == torture_table()[18]);
        assert(case_view(v@[19]) == torture_table()[19]);
        assert(case_view(v@[20]) == torture_table()[20]);
        assert(case_view(v@[21]) == torture_table()[21]);
        assert(case_view(v@[22]) == torture_table()[22]);
        assert(case_view(v@[23]) == torture_table()[23]);
        assert(case_view(v@[24]) == torture_table()[24]);
        assert(case_view(v@[25]) == torture_table()[25]);
        assert(case_view(v@[26]) == torture_table()[26]);
        assert(case_view(v@[27]) == torture_table()[27]);
        assert(case_view(v@[28]) == torture_table()[28]);
        assert(case_view(v@[29]) == torture_table()[29]);
        assert(case_view(v@[30]) == torture_table()[30]);
        assert(case_view(v@[31]) == torture_table()[31]);
        assert(case_view(v@[32]) == torture_table()[32]);
        assert(case_view(v@[33]) == torture_table()[33]);
        assert(case_view(v@[34]) == torture_table()[34]);
        assert(case_view(v@[35]) == torture_table()[35]);
        assert(case_view(v@[36]) == torture_table()[36]);
        assert(case_view(v@[37]) == torture_table()[37]);
        assert(case_view(v@[38]) == torture_table()[38]);
        assert(case_view(v@[39]) == torture_table()[39]);
    }
    v
}

} // verus!
