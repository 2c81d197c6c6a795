//! The ISO 7064 MOD 97-10 checksum over a canonical IBAN string.

use vstd::prelude::*;

use crate::chars::{is_digit, spec_is_digit, spec_is_upper};

verus! {

/// One step of the running MOD-97 remainder: a digit contributes one decimal
/// digit, a letter contributes its two-digit numeral (`A` = 10 .. `Z` = 35).
pub open spec fn checksum_step(acc: int, c: char) -> int {
    if spec_is_digit(c) {
        (acc * 10 + (c as int - 48)) % 97
    } else {
        (acc * 100 + (c as int - 55)) % 97
    }
}

/// Fold [`checksum_step`] over `s`, left to right, starting from `acc`.
pub open spec fn checksum_fold(s: Seq<char>, acc: int) -> int
    decreases s.len(),
{
    if s.len() == 0 {
        acc
    } else {
        checksum_fold(s.drop_first(), checksum_step(acc, s[0]))
    }
}

/// `s` with its first four characters (country code and check digits) moved
/// to the end, the order in which the checksum walks the string.
pub open spec fn rotate_head(s: Seq<char>) -> Seq<char>
    recommends
        s.len() >= 4,
{
    s.subrange(4, s.len() as int) + s.subrange(0, 4)
}

/// The MOD 97-10 remainder of `s`: the checksum fold over the rotated string.
pub open spec fn spec_checksum(s: Seq<char>) -> int {
    checksum_fold(rotate_head(s), 0)
}

/// Every character of `s` is an ASCII uppercase letter or an ASCII digit.
pub open spec fn all_checksum_chars(s: Seq<char>) -> bool {
    forall|i: int| 0 <= i < s.len() ==> spec_is_upper(#[trigger] s[i]) || spec_is_digit(s[i])
}

proof fn lemma_fold_unfold(s: Seq<char>, k: int, acc: int)
    requires
        0 <= k < s.len(),
    ensures
        checksum_fold(s.skip(k), acc) == checksum_fold(s.skip(k + 1), checksum_step(acc, s[k])),
{
    assert(s.skip(k).drop_first() =~= s.skip(k + 1));
    assert(s.skip(k)[0] == s[k]);
}

/// Apply one checksum step to a running remainder below 97.
fn step(acc: u32, c: char) -> (r: u32)
    requires
        acc < 97,
        spec_is_upper(c) || spec_is_digit(c),
    ensures
        r == checksum_step(acc as int, c),
        r < 97,
{
    let u = c as u32;
    if is_digit(c) {
        (acc * 10 + (u - 48)) % 97
    } else {
        (acc * 100 + (u - 55)) % 97
    }
}

/// Compute the MOD 97-10 remainder of the canonical string `s`: the
/// characters from index 4 on are processed first, the first four last.
pub fn compute_checksum(s: &str) -> (r: u32)
    requires
        s@.len() >= 4,
        all_checksum_chars(s@),
    ensures
        r == spec_checksum(s@),
        r < 97,
{
    let ghost rot = rotate_head(s@);
    proof {
        assert(rot.skip(0) =~= rot);
    }
    let n = s.unicode_len();
    let mut acc: u32 = 0;
    let mut i: usize = 4;
    while i < n
        invariant
            4 <= i <= n,
            n == s@.len(),
            all_checksum_chars(s@),
            rot == rotate_head(s@),
            acc < 97,
            spec_checksum(s@) == checksum_fold(rot.skip(i - 4), acc as int),
        decreases n - i,
    {
        let c = s.get_char(i);
        proof {
            assert(rot[i - 4] == c);
            lemma_fold_unfold(rot, i - 4, acc as int);
        }
        acc = step(acc, c);
        i = i + 1;
    }
    let mut j: usize = 0;
    while j < 4
        invariant
            0 <= j <= 4,
            n == s@.len(),
            4 <= n,
            all_checksum_chars(s@),
            rot == rotate_head(s@),
            acc < 97,
            spec_checksum(s@) == checksum_fold(rot.skip(n - 4 + j), acc as int),
        decreases 4 - j,
    {
        let c = s.get_char(j);
        proof {
            assert(rot[n - 4 + j] == c);
            lemma_fold_unfold(rot, n - 4 + j, acc as int);
        }
        acc = step(acc, c);
        j = j + 1;
    }
    proof {
        assert(rot.skip(rot.len() as int) =~= Seq::<char>::empty());
    }
    acc
}

} // verus!
