//! The two textual representations of an IBAN: the electronic format, with no
//! whitespace, and the paper format, spaced in groups of four characters.

use vstd::prelude::*;

use vstd::arithmetic::div_mod::{
    lemma_fundamental_div_mod, lemma_fundamental_div_mod_converse, lemma_div_is_ordered,
};

use crate::chars::{
    is_digit, is_lower, is_upper, spec_is_digit, spec_is_lower, spec_is_upper, spec_to_upper,
    to_upper,
};

verus! {

/// The longest canonical IBAN, by ISO 13616.
pub const MAX_IBAN_LEN: usize = 34;

/// The shortest canonical IBAN: country code, check digits, one BBAN character.
pub const MIN_IBAN_LEN: usize = 5;

/// A character that may appear in an IBAN as input: an ASCII letter of either
/// case or an ASCII digit. Lowercase is accepted only to be folded away.
pub open spec fn spec_is_input_char(c: char) -> bool {
    spec_is_upper(c) || spec_is_lower(c) || spec_is_digit(c)
}

/// `s` has the shape of the electronic format: length 5 to 34, two uppercase
/// letters, two digits, then ASCII letters or digits in either case.
pub open spec fn valid_electronic(s: Seq<char>) -> bool {
    &&& MIN_IBAN_LEN <= s.len() <= MAX_IBAN_LEN
    &&& spec_is_upper(s[0])
    &&& spec_is_upper(s[1])
    &&& spec_is_digit(s[2])
    &&& spec_is_digit(s[3])
    &&& forall|i: int| 4 <= i < s.len() ==> spec_is_input_char(#[trigger] s[i])
}

/// `s` with every lowercase letter folded to uppercase.
pub open spec fn fold_case(s: Seq<char>) -> Seq<char> {
    Seq::new(s.len(), |i: int| spec_to_upper(s[i]))
}

/// The space separators of the paper format sit exactly at the positions
/// congruent to 4 modulo 5, and the string does not end on one.
pub open spec fn paper_spaces_ok(s: Seq<char>) -> bool {
    &&& s.len() % 5 != 0
    &&& forall|i: int| 0 <= i < s.len() && i % 5 == 4 ==> #[trigger] s[i] == ' '
}

/// `s` without the characters at the positions congruent to 4 modulo 5:
/// what remains of a paper-format string once its separators are dropped.
pub open spec fn strip_spaces(s: Seq<char>) -> Seq<char> {
    Seq::new((s.len() - s.len() / 5) as nat, |j: int| s[j + j / 4])
}

/// The canonical string an input denotes: its electronic reading if that is
/// well-formed, otherwise its paper reading, otherwise nothing.
pub open spec fn spec_normalize(s: Seq<char>) -> Option<Seq<char>> {
    if valid_electronic(s) {
        Some(fold_case(s))
    } else if paper_spaces_ok(s) && valid_electronic(strip_spaces(s)) {
        Some(fold_case(strip_spaces(s)))
    } else {
        None
    }
}

/// The paper rendering of a canonical string: a space after every fourth
/// character, none at the end.
pub open spec fn display_of(s: Seq<char>) -> Seq<char> {
    Seq::new(
        (s.len() + (s.len() - 1) / 4) as nat,
        |i: int| if i % 5 == 4 {
            ' '
        } else {
            s[i - i / 5]
        },
    )
}

/// A position `i` not congruent to 4 modulo 5 is hit from the stripped
/// position `i - i/5` when the separators are reinserted.
proof fn lemma_strip_index(i: int)
    requires
        0 <= i,
        i % 5 != 4,
    ensures
        0 <= i - i / 5,
        (i - i / 5) + (i - i / 5) / 4 == i,
        (i - i / 5) % 4 == i % 5,
{
    let q = i / 5;
    let r = i % 5;
    lemma_fundamental_div_mod(i, 5);
    lemma_fundamental_div_mod_converse(i - q, 4, q, r);
}

/// A stripped position `j` lands at position `j + j/4` of the spaced string,
/// which is not a separator position.
proof fn lemma_display_index(j: int)
    requires
        0 <= j,
    ensures
        (j + j / 4) % 5 == j % 4,
        (j + j / 4) - (j + j / 4) / 5 == j,
{
    let a = j / 4;
    let b = j % 4;
    lemma_fundamental_div_mod(j, 4);
    lemma_fundamental_div_mod_converse(j + a, 5, a, b);
}

/// A separator stands right before every stripped position divisible by four.
proof fn lemma_separator_index(j: int)
    requires
        4 <= j,
        j % 4 == 0,
    ensures
        (j + j / 4 - 1) % 5 == 4,
{
    let a = j / 4;
    lemma_fundamental_div_mod(j, 4);
    lemma_fundamental_div_mod_converse(j + a - 1, 5, a - 1, 4);
}

/// `s` is a canonical IBAN string: electronic shape with no lowercase left.
pub open spec fn is_canonical_text(s: Seq<char>) -> bool {
    &&& valid_electronic(s)
    &&& forall|i: int| 0 <= i < s.len() ==> !spec_is_lower(#[trigger] s[i])
}

/// Case folding leaves a string without lowercase letters unchanged.
pub proof fn lemma_fold_case_id(s: Seq<char>)
    requires
        forall|i: int| 0 <= i < s.len() ==> !spec_is_lower(#[trigger] s[i]),
    ensures
        fold_case(s) == s,
{
    assert(fold_case(s) =~= s);
}

/// Canonical text is ASCII.
pub proof fn lemma_canonical_is_ascii(s: Seq<char>)
    requires
        is_canonical_text(s),
    ensures
        vstd::utf8::is_ascii_chars(s),
{
    assert forall|i: int| 0 <= i < s.len() implies '\0' <= #[trigger] s[i] <= '\u{7f}' by {
        assert(spec_is_input_char(s[i]) || i < 4);
    }
}

/// A canonical string normalizes to itself: it is already well-formed
/// electronic text with nothing to fold.
pub proof fn lemma_normalize_canonical(s: Seq<char>)
    requires
        is_canonical_text(s),
    ensures
        spec_normalize(s) == Option::Some(s),
{
    lemma_fold_case_id(s);
}

/// The paper rendering of a canonical string normalizes back to it: the
/// rendering is never valid electronic text, its separators sit where the
/// paper format requires, and stripping them recovers the original.
pub proof fn lemma_normalize_display(s: Seq<char>)
    requires
        is_canonical_text(s),
    ensures
        spec_normalize(display_of(s)) == Option::Some(s),
{
    let d = display_of(s);
    let l = s.len() as int;
    let a = (l - 1) / 4;
    let b = (l - 1) % 4;
    lemma_fundamental_div_mod(l - 1, 4);
    assert(d.len() == l + a);
    lemma_fundamental_div_mod_converse(l + a, 5, a, b + 1);
    assert(d[4] == ' ');
    assert(!spec_is_input_char(' '));
    if valid_electronic(d) {
        assert(spec_is_input_char(d[4]));
        assert(false);
    }
    assert(paper_spaces_ok(d));
    assert(strip_spaces(d).len() == l);
    assert forall|j: int| 0 <= j < l implies strip_spaces(d)[j] == s[j] by {
        lemma_display_index(j);
        lemma_div_is_ordered(j, l - 1, 4);
        assert(d[j + j / 4] == s[j]);
    }
    assert(strip_spaces(d) =~= s);
    lemma_fold_case_id(s);
}

/// The characters of `s`, one by one.
pub fn chars_of(s: &str) -> (v: Vec<char>)
    ensures
        v@ == s@,
{
    let n = s.unicode_len();
    let mut v: Vec<char> = Vec::new();
    let mut i: usize = 0;
    while i < n
        invariant
            0 <= i <= n,
            n == s@.len(),
            v@ =~= s@.take(i as int),
        decreases n - i,
    {
        v.push(s.get_char(i));
        i = i + 1;
    }
    proof {
        assert(s@.take(n as int) =~= s@);
    }
    v
}

/// Check the electronic shape of `v` and fold its case: the canonical string,
/// or nothing where `v` is not well-formed electronic input.
pub fn validate_electronic(v: &Vec<char>) -> (r: Option<Vec<char>>)
    ensures
        match r {
            Some(c) => valid_electronic(v@) && c@ == fold_case(v@),
            None => !valid_electronic(v@),
        },
{
    let n = v.len();
    if n < MIN_IBAN_LEN || n > MAX_IBAN_LEN {
        return None;
    }
    if !(is_upper(v[0]) && is_upper(v[1]) && is_digit(v[2]) && is_digit(v[3])) {
        return None;
    }
    let mut out: Vec<char> = Vec::new();
    let mut i: usize = 0;
    while i < n
        invariant
            0 <= i <= n,
            n == v@.len(),
            MIN_IBAN_LEN <= n <= MAX_IBAN_LEN,
            spec_is_upper(v@[0]) && spec_is_upper(v@[1]),
            spec_is_digit(v@[2]) && spec_is_digit(v@[3]),
            forall|k: int| 4 <= k < i ==> spec_is_input_char(#[trigger] v@[k]),
            out@ =~= fold_case(v@).take(i as int),
        decreases n - i,
    {
        let c = v[i];
        if i >= 4 && !(is_upper(c) || is_lower(c) || is_digit(c)) {
            return None;
        }
        out.push(to_upper(c));
        i = i + 1;
    }
    proof {
        assert(fold_case(v@).take(n as int) =~= fold_case(v@));
    }
    Some(out)
}

/// Check the separator positions of `v` and drop them: the unspaced
/// characters, or nothing where a separator is misplaced or trailing.
pub fn strip_paper(v: &Vec<char>) -> (r: Option<Vec<char>>)
    ensures
        match r {
            Some(st) => paper_spaces_ok(v@) && st@ == strip_spaces(v@),
            None => !paper_spaces_ok(v@),
        },
{
    let n = v.len();
    if n % 5 == 0 {
        return None;
    }
    let mut out: Vec<char> = Vec::new();
    let mut i: usize = 0;
    while i < n
        invariant
            0 <= i <= n,
            n == v@.len(),
            n % 5 != 0,
            forall|k: int| 0 <= k < i && k % 5 == 4 ==> #[trigger] v@[k] == ' ',
            out@.len() == i - i / 5,
            forall|j: int| 0 <= j < out@.len() ==> #[trigger] out@[j] == v@[j + j / 4],
        decreases n - i,
    {
        if i % 5 == 4 {
            if v[i] != ' ' {
                return None;
            }
            proof {
                lemma_fundamental_div_mod(i as int, 5);
                lemma_fundamental_div_mod_converse(i + 1, 5, i as int / 5 + 1, 0);
            }
        } else {
            let ghost j = out@.len() as int;
            proof {
                lemma_strip_index(i as int);
                lemma_fundamental_div_mod(i as int, 5);
                lemma_fundamental_div_mod_converse(
                    i + 1,
                    5,
                    i as int / 5,
                    i as int % 5 + 1,
                );
            }
            out.push(v[i]);
        }
        i = i + 1;
    }
    proof {
        assert(out@ =~= strip_spaces(v@));
    }
    Some(out)
}

/// Render the canonical string `s` in the paper format.
pub fn render_display(s: &str) -> (r: Vec<char>)
    requires
        1 <= s@.len(),
    ensures
        r@ == display_of(s@),
{
    let n = s.unicode_len();
    let mut out: Vec<char> = Vec::new();
    let mut j: usize = 0;
    while j < n
        invariant
            0 <= j <= n,
            n == s@.len(),
            1 <= n,
            out@.len() == (if j == 0 { 0int } else { j + (j - 1) as int / 4 }),
            forall|k: int| 0 <= k < out@.len() ==> #[trigger] out@[k] == display_of(s@)[k],
        decreases n - j,
    {
        proof {
            lemma_display_index(j as int);
            if j >= 1 {
                lemma_fundamental_div_mod(j as int, 4);
                lemma_fundamental_div_mod(j - 1, 4);
                if j % 4 == 0 {
                    lemma_separator_index(j as int);
                    lemma_fundamental_div_mod_converse(j - 1, 4, j as int / 4 - 1, 3);
                } else {
                    lemma_fundamental_div_mod_converse(
                        j - 1,
                        4,
                        j as int / 4,
                        j as int % 4 - 1,
                    );
                }
            }
            lemma_div_is_ordered(j as int, n - 1, 4);
        }
        if j > 0 && j % 4 == 0 {
            out.push(' ');
        }
        out.push(s.get_char(j));
        j = j + 1;
    }
    proof {
        lemma_fundamental_div_mod(n as int, 4);
        assert(out@ =~= display_of(s@));
    }
    out
}

} // verus!
