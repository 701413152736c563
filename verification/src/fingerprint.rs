//! Content fingerprinting: a 64-bit FNV-style fold over the identity
//! fields of a snapshot, used to recognise a snapshot whose identity
//! content has not changed and skip all reconciliation work for it.

use vstd::prelude::*;
use vstd::string::StrSliceExecFns;

verus! {

/// Initial fingerprint value (the FNV-1a 64-bit offset basis).
pub const FP_OFFSET: u64 = 0xcbf2_9ce4_8422_2325;

/// Multiplier folded in after each word (the FNV 64-bit prime).
pub const FP_PRIME: u64 = 0x0000_0100_0000_01b3;

/// One fold step: xor the word in, then multiply, wrapping.
pub open spec fn fp_step(h: u64, v: u64) -> u64 {
    vstd::wrapping::u64_specs::wrapping_mul(h ^ v, FP_PRIME)
}

/// Executable fold step.
pub fn fp_mix(h: u64, v: u64) -> (r: u64)
    ensures
        r == fp_step(h, v),
{
    (h ^ v).wrapping_mul(FP_PRIME)
}

/// The fingerprint after folding in every character of `s`, first to last.
pub open spec fn fp_chars(h: u64, s: Seq<char>) -> u64
    decreases s.len(),
{
    if s.len() == 0 {
        h
    } else {
        fp_chars(fp_step(h, s[0] as u64), s.drop_first())
    }
}

/// The fingerprint after folding in a text: its length, then its characters.
pub open spec fn fp_text(h: u64, s: Seq<char>) -> u64 {
    fp_chars(fp_step(h, s.len() as u64), s)
}

/// Folds a string into the fingerprint: length first, then each character.
pub fn fp_str(h: u64, s: &str) -> (r: u64)
    ensures
        r == fp_text(h, s@),
{
    let n = s.unicode_len();
    let mut acc = fp_mix(h, n as u64);
    let mut i: usize = 0;
    proof {
        assert(s@.skip(0) =~= s@);
    }
    while i < n
        invariant
            i <= n,
            n == s@.len(),
            fp_text(h, s@) == fp_chars(acc, s@.skip(i as int)),
        decreases n - i,
    {
        let c = s.get_char(i);
        proof {
            assert(s@.skip(i as int)[0] == s@[i as int]);
            assert(s@.skip(i as int).drop_first() =~= s@.skip(i + 1));
        }
        acc = fp_mix(acc, c as u64);
        i = i + 1;
    }
    acc
}

} // verus!
