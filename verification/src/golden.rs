//! The golden test matrix: every vowel with every tone in every input method,
//! with the character each key sequence must commit.
use vstd::prelude::*;
use crate::types::InputMethod;
use crate::text::{owned, push_str};

verus! {

/// One entry in the golden test matrix.
pub struct GoldenCase {
    pub method: InputMethod,
    pub input: String,
    pub expected: &'static str,
    pub description: String,
}

/// A tone of the matrix: its name, its key in Telex, VNI and VIQR, and the
/// toned form of each vowel.
pub struct ToneV {
    pub name: Seq<char>,
    pub keys: Seq<Seq<char>>,
    pub expected: Seq<Seq<char>>,
}

/// The vowels of the matrix: the vowel, then its keys in Telex, VNI, VIQR.
pub open spec fn golden_vowels() -> Seq<(Seq<char>, Seq<char>, Seq<char>, Seq<char>)> {
    seq![
        ("a"@, "a"@, "a"@, "a"@),
        ("ă"@, "aw"@, "a8"@, "a("@),
        ("â"@, "aa"@, "a6"@, "a^"@),
        ("e"@, "e"@, "e"@, "e"@),
        ("ê"@, "ee"@, "e6"@, "e^"@),
        ("i"@, "i"@, "i"@, "i"@),
        ("o"@, "o"@, "o"@, "o"@),
        ("ô"@, "oo"@, "o6"@, "o^"@),
        ("ơ"@, "ow"@, "o7"@, "o+"@),
        ("u"@, "u"@, "u"@, "u"@),
        ("ư"@, "uw"@, "u7"@, "u+"@),
        ("y"@, "y"@, "y"@, "y"@)
    ]
}

/// The tones of the matrix, the flat tone first.
pub open spec fn golden_tones() -> Seq<ToneV> {
    seq![
        ToneV { name: "flat"@, keys: seq![""@, ""@, ""@], expected: seq!["a"@, "ă"@, "â"@, "e"@, "ê"@, "i"@, "o"@, "ô"@, "ơ"@, "u"@, "ư"@, "y"@] },
        ToneV { name: "huyền"@, keys: seq!["f"@, "2"@, "`"@], expected: seq!["à"@, "ằ"@, "ầ"@, "è"@, "ề"@, "ì"@, "ò"@, "ồ"@, "ờ"@, "ù"@, "ừ"@, "ỳ"@] },
        ToneV { name: "sắc"@, keys: seq!["s"@, "1"@, "'"@], expected: seq!["á"@, "ắ"@, "ấ"@, "é"@, "ế"@, "í"@, "ó"@, "ố"@, "ớ"@, "ú"@, "ứ"@, "ý"@] },
        ToneV { name: "hỏi"@, keys: seq!["r"@, "3"@, "?"@], expected: seq!["ả"@, "ẳ"@, "ẩ"@, "ẻ"@, "ể"@, "ỉ"@, "ỏ"@, "ổ"@, "ở"@, "ủ"@, "ử"@, "ỷ"@] },
        ToneV { name: "ngã"@, keys: seq!["x"@, "4"@, "~"@], expected: seq!["ã"@, "ẵ"@, "ẫ"@, "ẽ"@, "ễ"@, "ĩ"@, "õ"@, "ỗ"@, "ỡ"@, "ũ"@, "ữ"@, "ỹ"@] },
        ToneV { name: "nặng"@, keys: seq!["j"@, "5"@, "."@], expected: seq!["ạ"@, "ặ"@, "ậ"@, "ẹ"@, "ệ"@, "ị"@, "ọ"@, "ộ"@, "ợ"@, "ụ"@, "ự"@, "ỵ"@] }
    ]
}

/// The input methods of the matrix, in the order each (vowel, tone) pair
/// lists them.
pub open spec fn golden_method(m: int) -> InputMethod {
    if m == 0 { InputMethod::Telex } else if m == 1 { InputMethod::Vni } else { InputMethod::Viqr }
}

/// The label of an input method in a case description.
pub open spec fn method_label(m: int) -> Seq<char> {
    if m == 0 { "Telex"@ } else if m == 1 { "VNI"@ } else { "VIQR"@ }
}

/// The key of vowel `vi` in method `m`.
pub open spec fn vowel_key(vi: int, m: int) -> Seq<char> {
    let v = golden_vowels()[vi];
    if m == 0 { v.1 } else if m == 1 { v.2 } else { v.3 }
}

/// A golden case as `(method, input, expected, description)`.
pub open spec fn golden_view(c: GoldenCase) -> (InputMethod, Seq<char>, Seq<char>, Seq<char>) {
    (c.method, c.input@, c.expected@, c.description@)
}

/// The case for vowel `vi`, tone `ti` and method `m`: the vowel's keys then
/// the tone's key, the toned vowel, and `<method> <vowel>-<tone>`.
pub open spec fn golden_case(vi: int, ti: int, m: int) -> (InputMethod, Seq<char>, Seq<char>, Seq<char>) {
    let tone = golden_tones()[ti];
    (
        golden_method(m),
        vowel_key(vi, m) + tone.keys[m],
        tone.expected[vi],
        method_label(m) + " "@ + golden_vowels()[vi].0 + "-"@ + tone.name,
    )
}

struct ToneSpec {
    name: &'static str,
    telex: &'static str,
    vni: &'static str,
    viqr: &'static str,
    expected: Vec<&'static str>,
}

fn make_case(method: InputMethod, label: &str, vowel: &str, key: &str, tone_key: &str, tone_name: &str, expected: &'static str) -> (c: GoldenCase)
    ensures
        c.method == method,
        c.input@ == key@ + tone_key@,
        c.expected@ == expected@,
        c.description@ == label@ + " "@ + vowel@ + "-"@ + tone_name@,
{
    let mut input = owned(key);
    push_str(&mut input, tone_key);
    let mut description = owned(label);
    push_str(&mut description, " ");
    push_str(&mut description, vowel);
    push_str(&mut description, "-");
    push_str(&mut description, tone_name);
    GoldenCase { method, input, expected, description }
}

/// Generate all 216 golden cases: 12 vowels × 6 tones × 3 input methods, the
/// vowels outermost and the methods innermost.
pub fn all_216() -> (cases: Vec<GoldenCase>)
    ensures
        cases@.len() == 216,
        forall|vi: int, ti: int, m: int|
            0 <= vi < 12 && 0 <= ti < 6 && 0 <= m < 3 ==> #[trigger] golden_view(cases@[(vi * 6 + ti) * 3 + m])
                == golden_case(vi, ti, m),
{
    let vowels: Vec<(&'static str, &'static str, &'static str, &'static str)> = vec![
        ("a", "a", "a", "a"),
        ("ă", "aw", "a8", "a("),
        ("â", "aa", "a6", "a^"),
        ("e", "e", "e", "e"),
        ("ê", "ee", "e6", "e^"),
        ("i", "i", "i", "i"),
        ("o", "o", "o", "o"),
        ("ô", "oo", "o6", "o^"),
        ("ơ", "ow", "o7", "o+"),
        ("u", "u", "u", "u"),
        ("ư", "uw", "u7", "u+"),
        ("y", "y", "y", "y")
    ];
    let mut tones: Vec<ToneSpec> = Vec::new();
    tones.push(ToneSpec { name: "flat", telex: "", vni: "", viqr: "", expected: vec!["a", "ă", "â", "e", "ê", "i", "o", "ô", "ơ", "u", "ư", "y"] });
    tones.push(ToneSpec { name: "huyền", telex: "f", vni: "2", viqr: "`", expected: vec!["à", "ằ", "ầ", "è", "ề", "ì", "ò", "ồ", "ờ", "ù", "ừ", "ỳ"] });
    tones.push(ToneSpec { name: "sắc", telex: "s", vni: "1", viqr: "'", expected: vec!["á", "ắ", "ấ", "é", "ế", "í", "ó", "ố", "ớ", "ú", "ứ", "ý"] });
    tones.push(ToneSpec { name: "hỏi", telex: "r", vni: "3", viqr: "?", expected: vec!["ả", "ẳ", "ẩ", "ẻ", "ể", "ỉ", "ỏ", "ổ", "ở", "ủ", "ử", "ỷ"] });
    tones.push(ToneSpec { name: "ngã", telex: "x", vni: "4", viqr: "~", expected: vec!["ã", "ẵ", "ẫ", "ẽ", "ễ", "ĩ", "õ", "ỗ", "ỡ", "ũ", "ữ", "ỹ"] });
    tones.push(ToneSpec { name: "nặng", telex: "j", vni: "5", viqr: ".", expected: vec!["ạ", "ặ", "ậ", "ẹ", "ệ", "ị", "ọ", "ộ", "ợ", "ụ", "ự", "ỵ"] });
    assert(vowels@.len() == 12);
    assert(tones@.len() == 6);
    assert(forall|vi: int| 0 <= vi < 12 ==> (#[trigger] vowels@[vi]).0@ == golden_vowels()[vi].0
        && vowels@[vi].1@ == golden_vowels()[vi].1 && vowels@[vi].2@ == golden_vowels()[vi].2
        && vowels@[vi].3@ == golden_vowels()[vi].3);
    assert(forall|ti: int| 0 <= ti < 6 ==> (#[trigger] tones@[ti]).name@ == golden_tones()[ti].name
        && tones@[ti].telex@ == golden_tones()[ti].keys[0] && tones@[ti].vni@ == golden_tones()[ti].keys[1]
        && tones@[ti].viqr@ == golden_tones()[ti].keys[2] && tones@[ti].expected@.len() == 12
        && forall|vi: int| 0 <= vi < 12 ==> (#[trigger] tones@[ti].expected@[vi])@ == golden_tones()[ti].expected[vi]);
    let mut cases: Vec<GoldenCase> = Vec::new();
    let mut vi: usize = 0;
    while vi < 12
        invariant
            vi <= 12,
            cases@.len() == vi * 18,
            vowels@.len() == 12,
            tones@.len() == 6,
            forall|v: int| 0 <= v < 12 ==> (#[trigger] vowels@[v]).0@ == golden_vowels()[v].0
                && vowels@[v].1@ == golden_vowels()[v].1 && vowels@[v].2@ == golden_vowels()[v].2
                && vowels@[v].3@ == golden_vowels()[v].3,
            forall|t: int| 0 <= t < 6 ==> (#[trigger] tones@[t]).name@ == golden_tones()[t].name
                && tones@[t].telex@ == golden_tones()[t].keys[0] && tones@[t].vni@ == golden_tones()[t].keys[1]
                && tones@[t].viqr@ == golden_tones()[t].keys[2] && tones@[t].expected@.len() == 12
                && forall|v: int| 0 <= v < 12 ==> (#[trigger] tones@[t].expected@[v])@ == golden_tones()[t].expected[v],
            forall|v: int, t: int, m: int|
                0 <= v < vi && 0 <= t < 6 && 0 <= m < 3 ==> #[trigger] golden_view(cases@[(v * 6 + t) * 3 + m])
                    == golden_case(v, t, m),
        decreases 12 - vi,
    {
        let (vowel_char, telex_v, vni_v, viqr_v) = vowels[vi];
        let mut ti: usize = 0;
        while ti < 6
            invariant
                vi < 12,
                ti <= 6,
                cases@.len() == vi * 18 + ti * 3,
                vowels@.len() == 12,
                tones@.len() == 6,
                vowel_char@ == golden_vowels()[vi as int].0,
                telex_v@ == golden_vowels()[vi as int].1,
                vni_v@ == golden_vowels()[vi as int].2,
                viqr_v@ == golden_vowels()[vi as int].3,
                forall|t: int| 0 <= t < 6 ==> (#[trigger] tones@[t]).name@ == golden_tones()[t].name
                    && tones@[t].telex@ == golden_tones()[t].keys[0] && tones@[t].vni@ == golden_tones()[t].keys[1]
                    && tones@[t].viqr@ == golden_tones()[t].keys[2] && tones@[t].expected@.len() == 12
                    && forall|v: int| 0 <= v < 12 ==> (#[trigger] tones@[t].expected@[v])@ == golden_tones()[t].expected[v],
                forall|v: int, t: int, m: int|
                    0 <= v < vi && 0 <= t < 6 && 0 <= m < 3 ==> #[trigger] golden_view(cases@[(v * 6 + t) * 3 + m])
                        == golden_case(v, t, m),
                forall|t: int, m: int|
                    0 <= t < ti && 0 <= m < 3 ==> #[trigger] golden_view(cases@[(vi * 6 + t) * 3 + m])
                        == golden_case(vi as int, t, m),
            decreases 6 - ti,
        {
            let tone = &tones[ti];
            let expected = tone.expected[vi];
            let ghost before = cases@;
            cases.push(make_case(InputMethod::Telex, "Telex", vowel_char, telex_v, tone.telex, tone.name, expected));
            cases.push(make_case(InputMethod::Vni, "VNI", vowel_char, vni_v, tone.vni, tone.name, expected));
            cases.push(make_case(InputMethod::Viqr, "VIQR", vowel_char, viqr_v, tone.viqr, tone.name, expected));
            proof {
                let base = vi * 18 + ti * 3;
                assert((vi * 6 + ti) * 3 == base) by (nonlinear_arith)
                    requires base == vi * 18 + ti * 3;
                assert forall|m: int| 0 <= m < 3 implies #[trigger] golden_view(cases@[(vi * 6 + ti) * 3 + m])
                    == golden_case(vi as int, ti as int, m) by {
                    assert(cases@[base + m] == cases@[(vi * 6 + ti) * 3 + m]);
                }
                assert forall|v: int, t: int, m: int|
                    0 <= v < vi && 0 <= t < 6 && 0 <= m < 3 implies #[trigger] golden_view(cases@[(v * 6 + t) * 3 + m])
                        == golden_case(v, t, m) by {
                    assert((v * 6 + t) * 3 + m < vi * 18) by (nonlinear_arith)
                        requires 0 <= v < vi, 0 <= t < 6, 0 <= m < 3;
                    assert(cases@[(v * 6 + t) * 3 + m] == before[(v * 6 + t) * 3 + m]);
                }
                assert forall|t: int, m: int|
                    0 <= t < ti && 0 <= m < 3 implies #[trigger] golden_view(cases@[(vi * 6 + t) * 3 + m])
                        == golden_case(vi as int, t, m) by {
                    assert((vi * 6 + t) * 3 + m < base) by (nonlinear_arith)
                        requires 0 <= t < ti, 0 <= m < 3, base == vi * 18 + ti * 3;
                    assert(cases@[(vi * 6 + t) * 3 + m] == before[(vi * 6 + t) * 3 + m]);
                }
            }
            ti = ti + 1;
        }
        vi = vi + 1;
    }
    cases
}

} // verus!
