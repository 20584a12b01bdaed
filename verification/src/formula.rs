use std::collections::HashMap;
use std::marker::PhantomData;
use vstd::prelude::*;
use vstd::std_specs::cmp::{PartialOrdIs, PartialOrdSpec};
use vstd::string::*;
use crate::names::{by_name, VarName};
use crate::grammar::{lemma_scan_finds_layout, ltn_layout, reads_ltn, scanned, skip_blanks, skip_name};

verus! {

/// `lhs < rhs` between two variables whose names are values of `N`.
pub struct LTn<N, V> {
    lhs: N,
    rhs: N,
    _p: PhantomData<V>,
}

impl<N: VarName, V: PartialOrd> LTn<N, V> {
    /// The variable on the left.
    pub closed spec fn left(&self) -> N {
        self.lhs
    }

    /// The variable on the right.
    pub closed spec fn right(&self) -> N {
        self.rhs
    }

    /// Whether `lhs < rhs` holds on the valuation `m`: both variables
    /// have a value, and the left one is smaller.
    pub open spec fn holds(&self, m: Map<N, V>) -> bool {
        let b = by_name(m);
        &&& b.contains_key(self.left().id())
        &&& b.contains_key(self.right().id())
        &&& b[self.left().id()].is_lt(&b[self.right().id()])
    }

    /// The predicate `lhs < rhs`.
    pub fn new(lhs: N, rhs: N) -> (p: Self)
        ensures
            p.left() == lhs,
            p.right() == rhs,
    {
        LTn { lhs, rhs, _p: PhantomData }
    }

    /// Checks `lhs < rhs` on the current values in `m`: `Ok(())` if both
    /// variables have a value and the left one is smaller, `Err(())` if not.
    pub fn check(&self, m: &HashMap<N, V>) -> (r: Result<(), ()>)
        ensures
            !by_name(m@).contains_key(self.left().id()) || !by_name(m@).contains_key(
                self.right().id(),
            ) ==> r is Err,
            V::obeys_partial_cmp_spec() ==> (r is Ok <==> self.holds(m@)),
    {
        let lhs = match N::lookup(m, &self.lhs) {
            Some(v) => v,
            None => return Err(()),
        };
        let rhs = match N::lookup(m, &self.rhs) {
            Some(v) => v,
            None => return Err(()),
        };
        if lhs < rhs {
            Ok(())
        } else {
            Err(())
        }
    }
}

impl<V: PartialOrd> LTn<String, V> {
    /// The predicate `lhs < rhs` between the variables named by the two texts.
    pub fn from_names(lhs: &str, rhs: &str) -> (p: Self)
        ensures
            p.left()@ == lhs@,
            p.right()@ == rhs@,
    {
        LTn::new(lhs.to_owned(), rhs.to_owned())
    }
}

/// A formula over variables named by `N` with values of type `V`.
pub enum Formula<N, V> {
    /// `lhs < rhs`.
    LTn(LTn<N, V>),
}

/// The text given to `Formula::try_from` is not a formula.
#[derive(Debug, Clone, Copy, PartialEq, Eq, Structural)]
pub struct ParseError;

impl<V: PartialOrd> Formula<String, V> {
    /// Reads a formula from its text: `lhs < rhs`, where `lhs` and `rhs` are
    /// names made of ASCII letters, digits and `_`, with blanks allowed
    /// around each token. Fails with `ParseError` on any other text.
    pub fn try_from(s: &str) -> (r: Result<Formula<String, V>, ParseError>)
        ensures
            match r {
                Ok(Formula::LTn(f)) => forall|lhs: Seq<char>, rhs: Seq<char>|
                    reads_ltn(s@, lhs, rhs) <==> (lhs == f.left()@ && rhs == f.right()@),
                Err(_) => forall|lhs: Seq<char>, rhs: Seq<char>| !reads_ltn(s@, lhs, rhs),
            },
    {
        let n = s.unicode_len();
        let a0 = skip_blanks(s, n, 0);
        let a1 = skip_name(s, n, a0);
        let p0 = skip_blanks(s, n, a1);
        let after = if p0 < n { p0 + 1 } else { n };
        let b0 = skip_blanks(s, n, after);
        let b1 = skip_name(s, n, b0);
        let e = skip_blanks(s, n, b1);
        let ghost t = s@;
        assert(scanned(t, a0 as int, a1 as int, p0 as int, b0 as int, b1 as int, e as int));
        if a0 < a1 && p0 < n && b0 < b1 && e == n {
            if s.get_char(p0) == '<' {
                let f = LTn::from_names(s.substring_char(a0, a1), s.substring_char(b0, b1));
                proof {
                    let lhs = t.subrange(a0 as int, a1 as int);
                    let rhs = t.subrange(b0 as int, b1 as int);
                    assert(ltn_layout(t, lhs, rhs, a0 as int, p0 as int, b0 as int));
                    assert forall|l: Seq<char>, r: Seq<char>|
                        reads_ltn(t, l, r) implies (l == lhs && r == rhs) by {
                        let (i, p, j) = choose|i: int, p: int, j: int| ltn_layout(t, l, r, i, p, j);
                        lemma_scan_finds_layout(t, l, r, i, p, j, a0 as int, a1 as int, p0 as int,
                            b0 as int, b1 as int, e as int);
                    }
                }
                return Ok(Formula::LTn(f));
            }
        }
        proof {
            assert forall|l: Seq<char>, r: Seq<char>| !reads_ltn(t, l, r) by {
                if reads_ltn(t, l, r) {
                    let (i, p, j) = choose|i: int, p: int, j: int| ltn_layout(t, l, r, i, p, j);
                    lemma_scan_finds_layout(t, l, r, i, p, j, a0 as int, a1 as int, p0 as int,
                        b0 as int, b1 as int, e as int);
                }
            }
        }
        Err(ParseError)
    }
}

} // verus!
