//! Hashing on machine words.

use crate::model::{mix, mix_chars, mix_signed, HASH_PRIME};
use vstd::prelude::*;
use vstd::string::StrSliceExecFns;

verus! {

/// One hashing step on machine words.
pub fn mix_word(h: u64, x: u64) -> (mixed: u64)
    ensures
        mixed == mix(h, x),
{
    (h ^ x).wrapping_mul(HASH_PRIME)
}

/// Feeds a signed integer to a hash state: its sign, then its distance from
/// zero (from minus one, when it is negative).
pub fn mix_signed_word(h: u64, n: i64) -> (mixed: u64)
    ensures
        mixed == mix_signed(h, n as int),
{
    if n < 0 {
        mix_word(mix_word(h, 1), (-(n + 1)) as u64)
    } else {
        mix_word(mix_word(h, 0), n as u64)
    }
}

/// Feeds a string to a hash state: its length, then each character.
pub fn mix_str(h: u64, s: &str) -> (mixed: u64)
    ensures
        mixed == mix_chars(mix(h, s@.len() as u64), s@, 0),
{
    let n = s.unicode_len();
    let mut state = mix_word(h, n as u64);
    let mut i: usize = 0;
    while i < n
        invariant
            n == s@.len(),
            i <= n,
            mix_chars(state, s@, i as int) == mix_chars(mix(h, s@.len() as u64), s@, 0),
        decreases n - i,
    {
        let c = s.get_char(i);
        state = mix_word(state, c as u64);
        i += 1;
    }
    state
}

} // verus!
