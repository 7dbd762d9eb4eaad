//! The deterministic pseudo-random generator that drives the multi-threaded
//! stress runs.
use vstd::prelude::*;
use crate::integration::{nfc_of, nfc_string};

verus! {

/// The multiplier of the generator.
pub const LCG_MULTIPLIER: u64 = 6_364_136_223_846_793_005;
/// The increment of the generator.
pub const LCG_INCREMENT: u64 = 1_442_695_040_888_963_407;

/// One step of the generator: `state * multiplier + increment` modulo 2^64.
pub open spec fn lcg_step(state: u64) -> u64 {
    ((state as nat * LCG_MULTIPLIER as nat + LCG_INCREMENT as nat) % 0x1_0000_0000_0000_0000nat) as u64
}

/// Minimal linear congruential generator: no external dependencies,
/// deterministic.
pub struct Lcg(pub u64);

proof fn lemma_wrapping_step(s: u64, m: u64, c: u64)
    ensures
        vstd::wrapping::u64_specs::wrapping_add(
            vstd::wrapping::u64_specs::wrapping_mul(s, m),
            c,
        ) == ((s as nat * m as nat + c as nat) % 0x1_0000_0000_0000_0000nat) as u64,
{
    let r: nat = 0x1_0000_0000_0000_0000nat;
    let p: nat = s as nat * m as nat;
    let x: nat = p % r;
    vstd::arithmetic::div_mod::lemma_add_mod_noop(p as int, c as int, r as int);
    vstd::arithmetic::div_mod::lemma_small_mod(c as nat, r);
    vstd::arithmetic::div_mod::lemma_mod_bound(p as int, r as int);
    if x + c > u64::MAX {
        vstd::arithmetic::div_mod::lemma_mod_sub_multiples_vanish((x + c) as int, r as int);
        vstd::arithmetic::div_mod::lemma_small_mod((x + c - r) as nat, r);
    } else {
        vstd::arithmetic::div_mod::lemma_small_mod((x + c) as nat, r);
    }
}

impl Lcg {
    /// Advance the generator and return its new state.
    pub fn next(&mut self) -> (v: u64)
        ensures
            final(self).0 == lcg_step(old(self).0),
            v == final(self).0,
    {
        proof {
            lemma_wrapping_step(self.0, LCG_MULTIPLIER, LCG_INCREMENT);
        }
        self.0 = self.0.wrapping_mul(LCG_MULTIPLIER).wrapping_add(LCG_INCREMENT);
        self.0
    }

    /// A value below `n` taken from the high bits of the next state.
    pub fn next_usize(&mut self, n: usize) -> (v: usize)
        requires
            n > 0,
        ensures
            final(self).0 == lcg_step(old(self).0),
            v == ((lcg_step(old(self).0) >> 33u64) as usize) % n,
            v < n,
    {
        let x = self.next();
        let high = x >> 33u64;
        assert(high < 0x8000_0000) by (bit_vector)
            requires
                high == x >> 33u64,
        ;
        (high as usize) % n
    }
}


/// How many syllables the stress runs choose from.
pub const SYLLABLE_COUNT: usize = 26;

/// The representative Telex key sequences of the stress runs, covering all
/// six tones and the common vowels.
pub open spec fn stress_syllables() -> Seq<Seq<char>> {
    seq![
        seq!['t', 'o', 'i'],
        seq!['v', 'i', 'e', 't'],
        seq!['a', 'n'],
        seq!['e', 'm'],
        seq!['h', 'a', 'y'],
        seq!['a', 'f'],
        seq!['a', 's'],
        seq!['a', 'r'],
        seq!['a', 'x'],
        seq!['a', 'j'],
        seq!['t', 'o', 'o', 'i'],
        seq!['t', 'o', 'o', 'f'],
        seq!['t', 'o', 'o', 's'],
        seq!['t', 'o', 'o', 'r'],
        seq!['u', 'w', 's'],
        seq!['u', 'w', 'f'],
        seq!['u', 'w', 'r'],
        seq!['e', 'e', 's'],
        seq!['e', 'e', 'f'],
        seq!['o', 'o', 'f'],
        seq!['o', 'o', 's'],
        seq!['o', 'w', 'f'],
        seq!['o', 'w', 's'],
        seq!['a', 'w', 'f'],
        seq!['a', 'w', 's'],
        seq!['d', 'd', 'i'],
    ]
}

/// The `i`-th stress syllable.
pub open spec fn spec_syllable(i: int) -> Seq<char> {
    stress_syllables()[i]
}

/// The `i`-th stress syllable, as a string.
pub fn syllable(i: usize) -> (s: &'static str)
    requires
        i < SYLLABLE_COUNT,
    ensures
        s@ =~= spec_syllable(i as int),
{
    match i {
        0 => {
            proof {
                reveal_strlit("toi");
            }
            "toi"
        },
        1 => {
            proof {
                reveal_strlit("viet");
            }
            "viet"
        },
        2 => {
            proof {
                reveal_strlit("an");
            }
            "an"
        },
        3 => {
            proof {
                reveal_strlit("em");
            }
            "em"
        },
        4 => {
            proof {
                reveal_strlit("hay");
            }
            "hay"
        },
        5 => {
            proof {
                reveal_strlit("af");
            }
            "af"
        },
        6 => {
            proof {
                reveal_strlit("as");
            }
            "as"
        },
        7 => {
            proof {
                reveal_strlit("ar");
            }
            "ar"
        },
        8 => {
            proof {
                reveal_strlit("ax");
            }
            "ax"
        },
        9 => {
            proof {
                reveal_strlit("aj");
            }
            "aj"
        },
        10 => {
            proof {
                reveal_strlit("tooi");
            }
            "tooi"
        },
        11 => {
            proof {
                reveal_strlit("toof");
            }
            "toof"
        },
        12 => {
            proof {
                reveal_strlit("toos");
            }
            "toos"
        },
        13 => {
            proof {
                reveal_strlit("toor");
            }
            "toor"
        },
        14 => {
            proof {
                reveal_strlit("uws");
            }
            "uws"
        },
        15 => {
            proof {
                reveal_strlit("uwf");
            }
            "uwf"
        },
        16 => {
            proof {
                reveal_strlit("uwr");
            }
            "uwr"
        },
        17 => {
            proof {
                reveal_strlit("ees");
            }
            "ees"
        },
        18 => {
            proof {
                reveal_strlit("eef");
            }
            "eef"
        },
        19 => {
            proof {
                reveal_strlit("oof");
            }
            "oof"
        },
        20 => {
            proof {
                reveal_strlit("oos");
            }
            "oos"
        },
        21 => {
            proof {
                reveal_strlit("owf");
            }
            "owf"
        },
        22 => {
            proof {
                reveal_strlit("ows");
            }
            "ows"
        },
        23 => {
            proof {
                reveal_strlit("awf");
            }
            "awf"
        },
        24 => {
            proof {
                reveal_strlit("aws");
            }
            "aws"
        },
        25 => {
            proof {
                reveal_strlit("ddi");
            }
            "ddi"
        },
        _ => {
            proof {
                reveal_strlit("ddi");
            }
            "ddi"
        },
    }
}

/// The seed of the generator of stress thread `thread_id`:
/// `0xDEADBEEF + thread_id * 0x9E3779B97F4A7C15`, modulo 2^64.
pub open spec fn spec_stress_seed(thread_id: usize) -> u64 {
    ((0xDEAD_BEEFnat + (thread_id as u64) as nat * 0x9E37_79B9_7F4A_7C15nat) % 0x1_0000_0000_0000_0000nat) as u64
}

/// The seed of the generator of stress thread `thread_id`.
pub fn stress_seed(thread_id: usize) -> (s: u64)
    ensures
        s == spec_stress_seed(thread_id),
{
    let t: u64 = thread_id as u64;
    proof {
        lemma_wrapping_step(t, 0x9E37_79B9_7F4A_7C15, 0xDEAD_BEEF);
    }
    0xDEAD_BEEFu64.wrapping_add(t.wrapping_mul(0x9E37_79B9_7F4A_7C15))
}

/// The next syllable a stress thread composes, chosen by its generator.
pub fn pick_syllable(rng: &mut Lcg) -> (s: &'static str)
    ensures
        final(rng).0 == lcg_step(old(rng).0),
        s@ =~= spec_syllable((((lcg_step(old(rng).0) >> 33u64) as usize) % SYLLABLE_COUNT) as int),
{
    let i = rng.next_usize(SYLLABLE_COUNT);
    syllable(i)
}

/// The verdict of a stress run on what its threads committed: `Ok(None)`
/// when it overran its time limit; else `Err(i)` for the first committed
/// text that NFC normalisation changes, or `Ok(Some(n))` with the number of
/// commits.
pub fn stress_verdict(all: &Vec<String>, timed_out: bool) -> (r: Result<Option<usize>, usize>)
    ensures
        timed_out ==> r == Ok::<Option<usize>, usize>(None),
        !timed_out ==> match r {
            Ok(Some(n)) => n == all@.len()
                && forall|i: int| 0 <= i < all@.len() ==> #[trigger] nfc_of(all@[i]@) == all@[i]@,
            Ok(None) => false,
            Err(i) => i < all@.len() && nfc_of(all@[i as int]@) != all@[i as int]@
                && forall|k: int| 0 <= k < i ==> #[trigger] nfc_of(all@[k]@) == all@[k]@,
        },
{
    if timed_out {
        return Ok(None);
    }
    let mut i: usize = 0;
    while i < all.len()
        invariant
            !timed_out,
            i <= all@.len(),
            forall|k: int| 0 <= k < i ==> #[trigger] nfc_of(all@[k]@) == all@[k]@,
        decreases all@.len() - i,
    {
        let n = nfc_string(all[i].as_str());
        if !crate::text::same_text(n.as_str(), all[i].as_str()) {
            return Err(i);
        }
        i = i + 1;
    }
    Ok(Some(all.len()))
}

} // verus!
