//! Generation of fresh SPARQL variable names: `?a`, `?b`, ..., `?z`, `?aa`, ...

use vstd::prelude::*;

use crate::text::{push_char, push_str, string_from_chars};

verus! {

/// The letter standing for digit `d` (0 = 'a', ..., 25 = 'z').
pub open spec fn letter(d: int) -> char {
    (97 + d) as char
}

/// Bijective base-26 numeral of `n` written with the letters 'a' to 'z'
/// (1 = "a", 26 = "z", 27 = "aa", ...; 0 is the empty word).
pub open spec fn base26(n: nat) -> Seq<char>
    decreases n,
{
    if n == 0 {
        Seq::empty()
    } else {
        base26(((n - 1) / 26) as nat).push(letter((n - 1) % 26))
    }
}

/// The name of the `n`-th generated variable: `?` followed by `base26(n)`.
pub open spec fn variable_name(n: nat) -> Seq<char> {
    seq!['?'] + base26(n)
}

/// Encodes a number in base 26 using letters 'a' to 'z'.
pub fn encode_base_26(n: usize) -> (s: String)
    ensures
        s@ == base26(n as nat),
{
    let mut rest = n;
    // digits, least significant first
    let mut digits: Vec<char> = Vec::new();
    while rest > 0
        invariant
            base26(n as nat) == base26(rest as nat) + digits@.reverse(),
        decreases rest,
    {
        let rem = (rest - 1) % 26;
        let c = ((97u8 + rem as u8) as char);
        assert(c == letter(rem as int));
        let ghost before = digits@;
        digits.push(c);
        assert(digits@.reverse() =~= seq![c] + before.reverse());
        assert(base26(rest as nat) == base26(((rest - 1) / 26) as nat).push(c));
        assert(base26(((rest - 1) / 26) as nat).push(c) + before.reverse()
            =~= base26(((rest - 1) / 26) as nat) + (seq![c] + before.reverse()));
        rest = (rest - 1) / 26;
    }
    assert(base26(0) =~= Seq::<char>::empty());
    assert(base26(n as nat) =~= digits@.reverse());
    let mut ordered: Vec<char> = Vec::new();
    let mut i: usize = digits.len();
    while i > 0
        invariant
            i <= digits.len(),
            ordered@ == digits@.reverse().take(digits.len() - i),
        decreases i,
    {
        i = i - 1;
        proof {
            let k = digits.len() - i - 1;
            assert(digits@.reverse()[k] == digits@[i as int]);
            assert(digits@.reverse().take(k + 1) =~= digits@.reverse().take(k).push(
                digits@[i as int],
            ));
        }
        ordered.push(digits[i]);
    }
    assert(digits@.reverse().take(digits.len() as int) =~= digits@.reverse());
    string_from_chars(&ordered)
}

/// Hands out fresh SPARQL variables `?a`, `?b`, ... in order; the `k`-th call
/// of `next` gives `variable_name(k)`.
#[derive(Debug)]
pub struct SparqlVariableGenerator {
    current: usize,
}

impl Clone for SparqlVariableGenerator {
    fn clone(&self) -> (g: Self)
        ensures
            g.count() == self.count(),
    {
        SparqlVariableGenerator { current: self.current }
    }
}

impl Default for SparqlVariableGenerator {
    /// A generator that has handed out nothing yet.
    fn default() -> (g: Self)
        ensures
            g.count() == 0,
    {
        SparqlVariableGenerator { current: 0 }
    }
}

impl SparqlVariableGenerator {
    /// How many variables have been handed out so far.
    pub closed spec fn count(&self) -> nat {
        self.current as nat
    }

    /// A generator that has handed out nothing yet.
    pub fn new() -> (g: Self)
        ensures
            g.count() == 0,
    {
        SparqlVariableGenerator { current: 0 }
    }

    /// Hands out the next variable name.
    pub fn next(&mut self) -> (v: Option<String>)
        requires
            old(self).count() < usize::MAX,
        ensures
            final(self).count() == old(self).count() + 1,
            v is Some,
            v.unwrap()@ == variable_name(final(self).count()),
    {
        self.current = self.current + 1;
        let name = encode_base_26(self.current);
        let mut v = String::new();
        push_char(&mut v, '?');
        push_str(&mut v, name.as_str());
        assert(v@ =~= variable_name(self.current as nat));
        Some(v)
    }

    /// Hands out the next variable's name without its leading `?`, as a
    /// triple pattern node or a `VALUES ?name` clause writes it.
    pub fn next_variable(&mut self) -> (v: String)
        requires
            old(self).count() < usize::MAX,
        ensures
            final(self).count() == old(self).count() + 1,
            v@ == base26(final(self).count()),
    {
        self.current = self.current + 1;
        encode_base_26(self.current)
    }

    /// Skips `n` variables and hands out the one after them.
    pub fn nth(&mut self, n: usize) -> (v: Option<String>)
        requires
            old(self).count() + n < usize::MAX,
        ensures
            final(self).count() == old(self).count() + n + 1,
            v is Some,
            v.unwrap()@ == variable_name(final(self).count()),
    {
        let mut i: usize = 0;
        while i < n
            invariant
                i <= n,
                self.count() == old(self).count() + i,
                old(self).count() + n < usize::MAX,
            decreases n - i,
        {
            let _ = self.next();
            i = i + 1;
        }
        self.next()
    }
}

/// Distinct numbers have distinct base-26 numerals.
pub proof fn lemma_base26_injective(a: nat, b: nat)
    requires
        a != b,
    ensures
        base26(a) != base26(b),
    decreases a + b,
{
    if a == 0 || b == 0 {
        if a != 0 {
            assert(base26(a).len() > 0);
        }
        if b != 0 {
            assert(base26(b).len() > 0);
        }
    } else {
        let qa = ((a - 1) / 26) as nat;
        let qb = ((b - 1) / 26) as nat;
        let ra = (a - 1) % 26;
        let rb = (b - 1) % 26;
        if base26(a) == base26(b) {
            assert(base26(a).last() == letter(ra));
            assert(base26(b).last() == letter(rb));
            assert(ra == rb);
            assert(base26(a).drop_last() =~= base26(qa));
            assert(base26(b).drop_last() =~= base26(qb));
            assert(qa != qb);
            lemma_base26_injective(qa, qb);
        }
    }
}

/// A generator never hands out the same variable twice: the names of
/// distinct call counts differ.
pub proof fn lemma_variable_names_distinct(i: nat, j: nat)
    requires
        i != j,
    ensures
        variable_name(i) != variable_name(j),
{
    lemma_base26_injective(i, j);
    if variable_name(i) == variable_name(j) {
        assert(variable_name(i).drop_first() =~= base26(i));
        assert(variable_name(j).drop_first() =~= base26(j));
    }
}

/// A bare variable name is made of the letters 'a' to 'z' only (so it holds
/// no `?`: the query texts put a single one in front of it).
pub proof fn lemma_base26_letters(n: nat)
    ensures
        forall|i: int| 0 <= i < base26(n).len() ==> 'a' <= #[trigger] base26(n)[i] <= 'z',
    decreases n,
{
    if n > 0 {
        let q = ((n - 1) / 26) as nat;
        lemma_base26_letters(q);
        let d = (n - 1) % 26;
        assert(0 <= d < 26);
        assert('a' <= letter(d) <= 'z');
        assert forall|i: int| 0 <= i < base26(n).len() implies 'a' <= #[trigger] base26(n)[i] <= 'z' by {
            if i < base26(q).len() {
                assert(base26(n)[i] == base26(q)[i]);
            }
        }
    }
}

/// Whether `a` comes strictly before `b` in shortlex order: shorter words
/// first, words of one length in dictionary order.
pub open spec fn shortlex_less(a: Seq<char>, b: Seq<char>) -> bool {
    ||| a.len() < b.len()
    ||| (a.len() == b.len() && exists|i: int|
        0 <= i < a.len() && a.take(i) == b.take(i) && (a[i] as int) < (#[trigger] b[i] as int))
}

/// The generator hands out its names in shortlex order: a smaller count
/// gives a name that comes strictly before.
pub proof fn lemma_base26_shortlex(n: nat, m: nat)
    requires
        n < m,
    ensures
        shortlex_less(base26(n), base26(m)),
    decreases m,
{
    if n == 0 {
        assert(base26(m).len() > 0);
    } else {
        let qn = ((n - 1) / 26) as nat;
        let qm = ((m - 1) / 26) as nat;
        let rn = (n - 1) % 26;
        let rm = (m - 1) % 26;
        assert(base26(n) == base26(qn).push(letter(rn)));
        assert(base26(m) == base26(qm).push(letter(rm)));
        if qn == qm {
            assert(rn < rm);
            let a = base26(n);
            let b = base26(m);
            let i = base26(qn).len() as int;
            assert(a.take(i) =~= b.take(i));
            assert((a[i] as int) < (b[i] as int));
        } else {
            assert(qn < qm);
            lemma_base26_shortlex(qn, qm);
            let pa = base26(qn);
            let pb = base26(qm);
            if pa.len() == pb.len() {
                let i = choose|i: int| 0 <= i < pa.len() && pa.take(i) == pb.take(i) && (pa[i] as int) < (#[trigger] pb[i] as int);
                let a = base26(n);
                let b = base26(m);
                assert(a.take(i) =~= pa.take(i));
                assert(b.take(i) =~= pb.take(i));
                assert(a[i] == pa[i] && b[i] == pb[i]);
            }
        }
    }
}

/// The number whose bijective base-26 numeral is the word `s` of letters.
pub open spec fn base26_value(s: Seq<char>) -> nat
    decreases s.len(),
{
    if s.len() == 0 {
        0
    } else {
        (26 * base26_value(s.drop_last()) + (s.last() as int - 96)) as nat
    }
}

/// Every word of the letters 'a' to 'z' is the numeral of one number
/// (`base26_value`), at least 1 when the word is not empty; by
/// `lemma_base26_injective`, of no other.
pub proof fn lemma_base26_onto(s: Seq<char>)
    requires
        forall|i: int| 0 <= i < s.len() ==> 'a' <= #[trigger] s[i] <= 'z',
    ensures
        base26(base26_value(s)) == s,
        s.len() > 0 ==> base26_value(s) >= 1,
    decreases s.len(),
{
    if s.len() > 0 {
        let p = s.drop_last();
        assert forall|i: int| 0 <= i < p.len() implies 'a' <= #[trigger] p[i] <= 'z' by {
            assert(p[i] == s[i]);
        }
        lemma_base26_onto(p);
        let v = base26_value(p);
        let d = s.last() as int - 97;
        assert('a' <= s[s.len() - 1] <= 'z');
        assert(0 <= d < 26);
        let n = base26_value(s);
        assert(n == 26 * v + d + 1);
        assert((26 * v + d) / 26 == v && (26 * v + d) % 26 == d) by (nonlinear_arith)
            requires
                0 <= d < 26,
                v >= 0,
        ;
        assert(letter(d) == s.last());
        assert(base26(n) =~= base26(v).push(letter(d)));
    }
}

} // verus!
