//! The registry of country-specific BBAN grammars, and the matcher that
//! checks a BBAN against such a grammar.
//!
//! Each recognized country code maps to an ordered sequence of segments, a
//! segment being a repeat count and a character class. A BBAN fits the
//! grammar when its length is the sum of the counts and every character
//! belongs to the class its position falls under.

use vstd::prelude::*;

use crate::chars::CharacterClass::{Alpha, AlphaOrDigit, Digit};
use crate::chars::{spec_class_matches, CharacterClass};

verus! {

/// One run of a BBAN grammar: `count` characters of class `class`.
#[derive(Clone, Copy, Debug, PartialEq, Eq, Structural)]
pub struct GrammarSegment {
    /// How many characters the run covers.
    pub count: usize,
    /// The class each of them must belong to.
    pub class: CharacterClass,
}

/// The segment of `count` characters of class `class`.
pub open spec fn sg(count: usize, class: CharacterClass) -> GrammarSegment {
    GrammarSegment { count, class }
}

/// The number of characters a grammar covers: the sum of its repeat counts.
pub open spec fn grammar_total_len(g: Seq<GrammarSegment>) -> int
    decreases g.len(),
{
    if g.len() == 0 {
        0
    } else {
        g[0].count + grammar_total_len(g.drop_first())
    }
}

/// The class governing position `i` of a BBAN under grammar `g`.
pub open spec fn spec_class_at(g: Seq<GrammarSegment>, i: int) -> CharacterClass
    decreases g.len(),
{
    if g.len() == 0 {
        AlphaOrDigit
    } else if i < g[0].count {
        g[0].class
    } else {
        spec_class_at(g.drop_first(), i - g[0].count)
    }
}

/// `b` fits the grammar `g`: the length is the sum of the counts and every
/// character belongs to the class of its position.
pub open spec fn grammar_matches(g: Seq<GrammarSegment>, b: Seq<char>) -> bool {
    &&& b.len() == grammar_total_len(g)
    &&& forall|i: int| 0 <= i < b.len() ==> spec_class_matches(spec_class_at(g, i), #[trigger] b[i])
}

/// Whatever BBAN a grammar accepts has exactly the grammar's total length:
/// the sum of the segment counts.
pub proof fn lemma_grammar_totality(g: Seq<GrammarSegment>, b: Seq<char>)
    requires
        grammar_matches(g, b),
    ensures
        b.len() == grammar_total_len(g),
{
}

/// A grammar never covers a negative number of characters.
pub proof fn lemma_total_nonneg(g: Seq<GrammarSegment>)
    ensures
        grammar_total_len(g) >= 0,
    decreases g.len(),
{
    if g.len() > 0 {
        lemma_total_nonneg(g.drop_first());
    }
}

/// Grammar totality over the registry: for every country code it holds, a
/// BBAN the country's grammar accepts is exactly as long as the sum of that
/// grammar's segment lengths.
pub proof fn lemma_registry_totality(c0: char, c1: char, b: Seq<char>)
    requires
        spec_country_grammar(c0, c1) is Some,
        grammar_matches(spec_country_grammar(c0, c1)->Some_0, b),
    ensures
        b.len() == grammar_total_len(spec_country_grammar(c0, c1)->Some_0),
{
}

/// Walking `k` segments into the grammar shifts BBAN positions by the
/// characters those segments cover.
proof fn lemma_class_at_skip(g: Seq<GrammarSegment>, k: int, j: int)
    requires
        0 <= k <= g.len(),
        0 <= j,
    ensures
        spec_class_at(g.skip(k), j) == spec_class_at(
            g,
            grammar_total_len(g) - grammar_total_len(g.skip(k)) + j,
        ),
    decreases k,
{
    if k > 0 {
        let d = g.drop_first();
        assert(g.skip(k) =~= d.skip(k - 1));
        lemma_class_at_skip(d, k - 1, j);
        lemma_total_split_prefix(d, k - 1);
        let i = grammar_total_len(g) - grammar_total_len(g.skip(k)) + j;
        assert(grammar_total_len(g) == g[0].count + grammar_total_len(d));
        assert(i - g[0].count == grammar_total_len(d) - grammar_total_len(d.skip(k - 1)) + j);
        assert(i >= g[0].count);
        assert(spec_class_at(g, i) == spec_class_at(d, i - g[0].count));
    } else {
        assert(g.skip(0) =~= g);
    }
}

/// The total of a grammar is at least the total of any of its suffixes.
proof fn lemma_total_split_prefix(g: Seq<GrammarSegment>, k: int)
    requires
        0 <= k <= g.len(),
    ensures
        grammar_total_len(g) - grammar_total_len(g.skip(k)) >= 0,
    decreases k,
{
    if k == 0 {
        assert(g.skip(0) =~= g);
    } else {
        let d = g.drop_first();
        assert(g.skip(k) =~= d.skip(k - 1));
        lemma_total_split_prefix(d, k - 1);
    }
}

/// One segment step: dropping segment `k` removes its count from the suffix
/// total.
proof fn lemma_total_step(g: Seq<GrammarSegment>, k: int)
    requires
        0 <= k < g.len(),
    ensures
        grammar_total_len(g.skip(k)) == g[k].count + grammar_total_len(g.skip(k + 1)),
{
    assert(g.skip(k).drop_first() =~= g.skip(k + 1));
    assert(g.skip(k)[0] == g[k]);
}

/// Check a BBAN against a grammar: the length must equal the sum of the
/// segment counts and each character must belong to its position's class.
pub fn bban_matches(g: &Vec<GrammarSegment>, b: &Vec<char>) -> (r: bool)
    ensures
        r == grammar_matches(g@, b@),
{
    proof {
        assert(g@.skip(0) =~= g@);
    }
    let mut pos: usize = 0;
    let mut k: usize = 0;
    while k < g.len()
        invariant
            0 <= k <= g@.len(),
            pos <= b@.len(),
            pos == grammar_total_len(g@) - grammar_total_len(g@.skip(k as int)),
            forall|i: int|
                0 <= i < pos ==> spec_class_matches(spec_class_at(g@, i), #[trigger] b@[i]),
        decreases g@.len() - k,
    {
        let seg = g[k];
        let ghost base = pos as int;
        let mut t: usize = 0;
        while t < seg.count
            invariant
                0 <= t <= seg.count,
                k < g@.len(),
                seg == g@[k as int],
                pos == base + t,
                pos <= b@.len(),
                base == grammar_total_len(g@) - grammar_total_len(g@.skip(k as int)),
                forall|i: int|
                    0 <= i < pos ==> spec_class_matches(spec_class_at(g@, i), #[trigger] b@[i]),
            decreases seg.count - t,
        {
            proof {
                lemma_total_step(g@, k as int);
                lemma_total_nonneg(g@.skip(k as int + 1));
            }
            if pos >= b.len() {
                return false;
            }
            proof {
                lemma_class_at_skip(g@, k as int, t as int);
            }
            if !seg.class.matches(b[pos]) {
                return false;
            }
            pos = pos + 1;
            t = t + 1;
        }
        proof {
            lemma_total_step(g@, k as int);
        }
        k = k + 1;
    }
    proof {
        assert(g@.skip(g@.len() as int) =~= Seq::<GrammarSegment>::empty());
    }
    pos == b.len()
}

fn g1(n1: usize, c1: CharacterClass) -> (v: Vec<GrammarSegment>)
    ensures
        v@ == seq![sg(n1, c1)],
{
    let mut v: Vec<GrammarSegment> = Vec::new();
    v.push(GrammarSegment { count: n1, class: c1 });
    proof {
        assert(v@ =~= seq![sg(n1, c1)]);
    }
    v
}

fn g2(n1: usize, c1: CharacterClass, n2: usize, c2: CharacterClass) -> (v: Vec<GrammarSegment>)
    ensures
        v@ == seq![sg(n1, c1), sg(n2, c2)],
{
    let mut v: Vec<GrammarSegment> = Vec::new();
    v.push(GrammarSegment { count: n1, class: c1 });
    v.push(GrammarSegment { count: n2, class: c2 });
    proof {
        assert(v@ =~= seq![sg(n1, c1), sg(n2, c2)]);
    }
    v
}

fn g3(
    n1: usize,
    c1: CharacterClass,
    n2: usize,
    c2: CharacterClass,
    n3: usize,
    c3: CharacterClass,
) -> (v: Vec<GrammarSegment>)
    ensures
        v@ == seq![sg(n1, c1), sg(n2, c2), sg(n3, c3)],
{
    let mut v: Vec<GrammarSegment> = Vec::new();
    v.push(GrammarSegment { count: n1, class: c1 });
    v.push(GrammarSegment { count: n2, class: c2 });
    v.push(GrammarSegment { count: n3, class: c3 });
    proof {
        assert(v@ =~= seq![sg(n1, c1), sg(n2, c2), sg(n3, c3)]);
    }
    v
}

/// The BBAN grammar of the country written `c0``c1`, for the countries of
/// the registry; `None` for a country code outside it.
pub open spec fn spec_country_grammar(c0: char, c1: char) -> Option<Seq<GrammarSegment>> {
    match (c0, c1) {
        ('A', 'D') => Option::Some(seq![sg(8, Digit), sg(12, AlphaOrDigit)]),
        ('A', 'E') => Option::Some(seq![sg(19, Digit)]),
        ('A', 'L') => Option::Some(seq![sg(8, Digit), sg(16, AlphaOrDigit)]),
        ('A', 'T') => Option::Some(seq![sg(16, Digit)]),
        ('A', 'Z') => Option::Some(seq![sg(4, Alpha), sg(20, AlphaOrDigit)]),
        ('B', 'A') => Option::Some(seq![sg(16, Digit)]),
        ('B', 'E') => Option::Some(seq![sg(12, Digit)]),
        ('B', 'G') => Option::Some(seq![sg(4, Alpha), sg(6, Digit), sg(8, AlphaOrDigit)]),
        ('B', 'H') => Option::Some(seq![sg(4, Alpha), sg(14, AlphaOrDigit)]),
        ('B', 'R') => Option::Some(seq![sg(23, Digit), sg(1, Alpha), sg(1, AlphaOrDigit)]),
        ('B', 'Y') => Option::Some(seq![sg(4, AlphaOrDigit), sg(4, Digit), sg(16, AlphaOrDigit)]),
        ('C', 'H') => Option::Some(seq![sg(5, Digit), sg(12, AlphaOrDigit)]),
        ('C', 'R') => Option::Some(seq![sg(18, Digit)]),
        ('C', 'Y') => Option::Some(seq![sg(8, Digit), sg(16, AlphaOrDigit)]),
        ('C', 'Z') => Option::Some(seq![sg(20, Digit)]),
        ('D', 'E') => Option::Some(seq![sg(18, Digit)]),
        ('D', 'K') => Option::Some(seq![sg(14, Digit)]),
        ('D', 'O') => Option::Some(seq![sg(4, AlphaOrDigit), sg(20, Digit)]),
        ('E', 'E') => Option::Some(seq![sg(16, Digit)]),
        ('E', 'S') => Option::Some(seq![sg(20, Digit)]),
        ('F', 'I') => Option::Some(seq![sg(14, Digit)]),
        ('F', 'O') => Option::Some(seq![sg(14, Digit)]),
        ('F', 'R') => Option::Some(seq![sg(10, Digit), sg(11, AlphaOrDigit), sg(2, Digit)]),
        ('G', 'B') => Option::Some(seq![sg(4, Alpha), sg(14, Digit)]),
        ('G', 'E') => Option::Some(seq![sg(2, Alpha), sg(16, Digit)]),
        ('G', 'I') => Option::Some(seq![sg(4, Alpha), sg(15, AlphaOrDigit)]),
        ('G', 'L') => Option::Some(seq![sg(14, Digit)]),
        ('G', 'R') => Option::Some(seq![sg(7, Digit), sg(16, AlphaOrDigit)]),
        ('G', 'T') => Option::Some(seq![sg(24, AlphaOrDigit)]),
        ('H', 'R') => Option::Some(seq![sg(17, Digit)]),
        ('H', 'U') => Option::Some(seq![sg(24, Digit)]),
        ('I', 'E') => Option::Some(seq![sg(4, Alpha), sg(14, Digit)]),
        ('I', 'L') => Option::Some(seq![sg(19, Digit)]),
        ('I', 'Q') => Option::Some(seq![sg(4, Alpha), sg(15, Digit)]),
        ('I', 'S') => Option::Some(seq![sg(22, Digit)]),
        ('I', 'T') => Option::Some(seq![sg(1, Alpha), sg(10, Digit), sg(12, AlphaOrDigit)]),
        ('J', 'O') => Option::Some(seq![sg(4, Alpha), sg(4, Digit), sg(18, AlphaOrDigit)]),
        ('K', 'W') => Option::Some(seq![sg(4, Alpha), sg(22, AlphaOrDigit)]),
        ('K', 'Z') => Option::Some(seq![sg(3, Digit), sg(13, AlphaOrDigit)]),
        ('L', 'B') => Option::Some(seq![sg(4, Digit), sg(20, AlphaOrDigit)]),
        ('L', 'C') => Option::Some(seq![sg(4, Alpha), sg(24, AlphaOrDigit)]),
        ('L', 'I') => Option::Some(seq![sg(5, Digit), sg(12, AlphaOrDigit)]),
        ('L', 'T') => Option::Some(seq![sg(16, Digit)]),
        ('L', 'U') => Option::Some(seq![sg(3, Digit), sg(13, AlphaOrDigit)]),
        ('L', 'V') => Option::Some(seq![sg(4, Alpha), sg(13, AlphaOrDigit)]),
        ('L', 'Y') => Option::Some(seq![sg(21, Digit)]),
        ('M', 'C') => Option::Some(seq![sg(10, Digit), sg(11, AlphaOrDigit), sg(2, Digit)]),
        ('M', 'D') => Option::Some(seq![sg(20, AlphaOrDigit)]),
        ('M', 'E') => Option::Some(seq![sg(18, Digit)]),
        ('M', 'K') => Option::Some(seq![sg(3, Digit), sg(10, AlphaOrDigit), sg(2, Digit)]),
        ('M', 'R') => Option::Some(seq![sg(23, Digit)]),
        ('M', 'T') => Option::Some(seq![sg(4, Alpha), sg(5, Digit), sg(18, AlphaOrDigit)]),
        ('M', 'U') => Option::Some(seq![sg(4, Alpha), sg(19, Digit), sg(3, Alpha)]),
        ('N', 'L') => Option::Some(seq![sg(4, Alpha), sg(10, Digit)]),
        ('N', 'O') => Option::Some(seq![sg(11, Digit)]),
        ('P', 'K') => Option::Some(seq![sg(4, Alpha), sg(16, AlphaOrDigit)]),
        ('P', 'L') => Option::Some(seq![sg(24, Digit)]),
        ('P', 'S') => Option::Some(seq![sg(4, Alpha), sg(21, AlphaOrDigit)]),
        ('P', 'T') => Option::Some(seq![sg(21, Digit)]),
        ('Q', 'A') => Option::Some(seq![sg(4, Alpha), sg(21, AlphaOrDigit)]),
        ('R', 'O') => Option::Some(seq![sg(4, Alpha), sg(16, AlphaOrDigit)]),
        ('R', 'S') => Option::Some(seq![sg(18, Digit)]),
        ('S', 'A') => Option::Some(seq![sg(2, Digit), sg(18, AlphaOrDigit)]),
        ('S', 'C') => Option::Some(seq![sg(4, Alpha), sg(20, Digit), sg(3, Alpha)]),
        ('S', 'E') => Option::Some(seq![sg(20, Digit)]),
        ('S', 'I') => Option::Some(seq![sg(15, Digit)]),
        ('S', 'K') => Option::Some(seq![sg(20, Digit)]),
        ('S', 'M') => Option::Some(seq![sg(1, Alpha), sg(10, Digit), sg(12, AlphaOrDigit)]),
        ('S', 'T') => Option::Some(seq![sg(21, Digit)]),
        ('S', 'V') => Option::Some(seq![sg(4, Alpha), sg(20, Digit)]),
        ('T', 'L') => Option::Some(seq![sg(19, Digit)]),
        ('T', 'N') => Option::Some(seq![sg(20, Digit)]),
        ('T', 'R') => Option::Some(seq![sg(6, Digit), sg(16, AlphaOrDigit)]),
        ('U', 'A') => Option::Some(seq![sg(6, Digit), sg(19, AlphaOrDigit)]),
        ('V', 'A') => Option::Some(seq![sg(3, Digit), sg(15, Digit)]),
        ('V', 'G') => Option::Some(seq![sg(4, Alpha), sg(16, Digit)]),
        ('X', 'K') => Option::Some(seq![sg(16, Digit)]),
        _ => Option::None,
    }
}

/// Look up the BBAN grammar of a country code.
pub fn country_grammar(c0: char, c1: char) -> (r: Option<Vec<GrammarSegment>>)
    ensures
        match r {
            Option::Some(v) => spec_country_grammar(c0, c1) == Option::Some(v@),
            Option::None => spec_country_grammar(c0, c1) is None,
        },
{
    match (c0, c1) {
        ('A', 'D') => Option::Some(g2(8, Digit, 12, AlphaOrDigit)),
        ('A', 'E') => Option::Some(g1(19, Digit)),
        ('A', 'L') => Option::Some(g2(8, Digit, 16, AlphaOrDigit)),
        ('A', 'T') => Option::Some(g1(16, Digit)),
        ('A', 'Z') => Option::Some(g2(4, Alpha, 20, AlphaOrDigit)),
        ('B', 'A') => Option::Some(g1(16, Digit)),
        ('B', 'E') => Option::Some(g1(12, Digit)),
        ('B', 'G') => Option::Some(g3(4, Alpha, 6, Digit, 8, AlphaOrDigit)),
        ('B', 'H') => Option::Some(g2(4, Alpha, 14, AlphaOrDigit)),
        ('B', 'R') => Option::Some(g3(23, Digit, 1, Alpha, 1, AlphaOrDigit)),
        ('B', 'Y') => Option::Some(g3(4, AlphaOrDigit, 4, Digit, 16, AlphaOrDigit)),
        ('C', 'H') => Option::Some(g2(5, Digit, 12, AlphaOrDigit)),
        ('C', 'R') => Option::Some(g1(18, Digit)),
        ('C', 'Y') => Option::Some(g2(8, Digit, 16, AlphaOrDigit)),
        ('C', 'Z') => Option::Some(g1(20, Digit)),
        ('D', 'E') => Option::Some(g1(18, Digit)),
        ('D', 'K') => Option::Some(g1(14, Digit)),
        ('D', 'O') => Option::Some(g2(4, AlphaOrDigit, 20, Digit)),
        ('E', 'E') => Option::Some(g1(16, Digit)),
        ('E', 'S') => Option::Some(g1(20, Digit)),
        ('F', 'I') => Option::Some(g1(14, Digit)),
        ('F', 'O') => Option::Some(g1(14, Digit)),
        ('F', 'R') => Option::Some(g3(10, Digit, 11, AlphaOrDigit, 2, Digit)),
        ('G', 'B') => Option::Some(g2(4, Alpha, 14, Digit)),
        ('G', 'E') => Option::Some(g2(2, Alpha, 16, Digit)),
        ('G', 'I') => Option::Some(g2(4, Alpha, 15, AlphaOrDigit)),
        ('G', 'L') => Option::Some(g1(14, Digit)),
        ('G', 'R') => Option::Some(g2(7, Digit, 16, AlphaOrDigit)),
        ('G', 'T') => Option::Some(g1(24, AlphaOrDigit)),
        ('H', 'R') => Option::Some(g1(17, Digit)),
        ('H', 'U') => Option::Some(g1(24, Digit)),
        ('I', 'E') => Option::Some(g2(4, Alpha, 14, Digit)),
        ('I', 'L') => Option::Some(g1(19, Digit)),
        ('I', 'Q') => Option::Some(g2(4, Alpha, 15, Digit)),
        ('I', 'S') => Option::Some(g1(22, Digit)),
        ('I', 'T') => Option::Some(g3(1, Alpha, 10, Digit, 12, AlphaOrDigit)),
        ('J', 'O') => Option::Some(g3(4, Alpha, 4, Digit, 18, AlphaOrDigit)),
        ('K', 'W') => Option::Some(g2(4, Alpha, 22, AlphaOrDigit)),
        ('K', 'Z') => Option::Some(g2(3, Digit, 13, AlphaOrDigit)),
        ('L', 'B') => Option::Some(g2(4, Digit, 20, AlphaOrDigit)),
        ('L', 'C') => Option::Some(g2(4, Alpha, 24, AlphaOrDigit)),
        ('L', 'I') => Option::Some(g2(5, Digit, 12, AlphaOrDigit)),
        ('L', 'T') => Option::Some(g1(16, Digit)),
        ('L', 'U') => Option::Some(g2(3, Digit, 13, AlphaOrDigit)),
        ('L', 'V') => Option::Some(g2(4, Alpha, 13, AlphaOrDigit)),
        ('L', 'Y') => Option::Some(g1(21, Digit)),
        ('M', 'C') => Option::Some(g3(10, Digit, 11, AlphaOrDigit, 2, Digit)),
        ('M', 'D') => Option::Some(g1(20, AlphaOrDigit)),
        ('M', 'E') => Option::Some(g1(18, Digit)),
        ('M', 'K') => Option::Some(g3(3, Digit, 10, AlphaOrDigit, 2, Digit)),
        ('M', 'R') => Option::Some(g1(23, Digit)),
        ('M', 'T') => Option::Some(g3(4, Alpha, 5, Digit, 18, AlphaOrDigit)),
        ('M', 'U') => Option::Some(g3(4, Alpha, 19, Digit, 3, Alpha)),
        ('N', 'L') => Option::Some(g2(4, Alpha, 10, Digit)),
        ('N', 'O') => Option::Some(g1(11, Digit)),
        ('P', 'K') => Option::Some(g2(4, Alpha, 16, AlphaOrDigit)),
        ('P', 'L') => Option::Some(g1(24, Digit)),
        ('P', 'S') => Option::Some(g2(4, Alpha, 21, AlphaOrDigit)),
        ('P', 'T') => Option::Some(g1(21, Digit)),
        ('Q', 'A') => Option::Some(g2(4, Alpha, 21, AlphaOrDigit)),
        ('R', 'O') => Option::Some(g2(4, Alpha, 16, AlphaOrDigit)),
        ('R', 'S') => Option::Some(g1(18, Digit)),
        ('S', 'A') => Option::Some(g2(2, Digit, 18, AlphaOrDigit)),
        ('S', 'C') => Option::Some(g3(4, Alpha, 20, Digit, 3, Alpha)),
        ('S', 'E') => Option::Some(g1(20, Digit)),
        ('S', 'I') => Option::Some(g1(15, Digit)),
        ('S', 'K') => Option::Some(g1(20, Digit)),
        ('S', 'M') => Option::Some(g3(1, Alpha, 10, Digit, 12, AlphaOrDigit)),
        ('S', 'T') => Option::Some(g1(21, Digit)),
        ('S', 'V') => Option::Some(g2(4, Alpha, 20, Digit)),
        ('T', 'L') => Option::Some(g1(19, Digit)),
        ('T', 'N') => Option::Some(g1(20, Digit)),
        ('T', 'R') => Option::Some(g2(6, Digit, 16, AlphaOrDigit)),
        ('U', 'A') => Option::Some(g2(6, Digit, 19, AlphaOrDigit)),
        ('V', 'A') => Option::Some(g2(3, Digit, 15, Digit)),
        ('V', 'G') => Option::Some(g2(4, Alpha, 16, Digit)),
        ('X', 'K') => Option::Some(g1(16, Digit)),
        _ => Option::None,
    }
}

} // verus!
