use vstd::laws_cmp::{obeys_cmp, obeys_cmp_ord, obeys_cmp_partial_ord, obeys_partial_cmp_spec_properties};
use vstd::laws_eq::{obeys_eq, obeys_eq_spec_properties};
use vstd::prelude::*;
use vstd::std_specs::cmp::{OrdSpec, PartialEqIs, PartialOrdIs, PartialOrdSpec};
use crate::formula::LTn;
use crate::names::VarName;
use crate::grammar::{
    blank_run, is_blank, is_name, is_name_char, lemma_layout_is_scanned, lemma_scan_finds_layout, ltn_layout, reads_ltn,
};
use crate::predicate::{
    EqualConst, EqualVar, GTnConst, GTnThree, GTnVar, LTnConst, LTnThree, LTnVar, Predicate,
};

verus! {

/// `lhs > rhs` holds exactly where `rhs < lhs` holds, for a value type
/// whose order follows the laws of an order.
pub proof fn law_gtn_var_is_flipped_ltn_var<V: Ord>(g: GTnVar<V>, l: LTnVar<V>, m: Map<char, V>)
    requires
        obeys_cmp::<V>(),
        g.left() == l.right(),
        g.right() == l.left(),
    ensures
        g.holds(m) <==> l.holds(m),
        g.exact(),
        l.exact(),
{
    reveal(obeys_partial_cmp_spec_properties);
    reveal(obeys_cmp_partial_ord);
    if m.contains_key(g.left()) && m.contains_key(g.right()) {
        let x = m[g.left()];
        let y = m[g.right()];
        assert(x.is_gt(&y) <==> y.is_lt(&x));
    }
}

/// `lhs == rhs` holds exactly where `rhs == lhs` holds, for a value type
/// whose equality is symmetric.
pub proof fn law_equal_var_is_symmetric<V: Ord>(a: EqualVar<V>, b: EqualVar<V>, m: Map<char, V>)
    requires
        obeys_eq::<V>(),
        a.left() == b.right(),
        a.right() == b.left(),
    ensures
        a.holds(m) <==> b.holds(m),
        a.exact(),
        b.exact(),
{
    reveal(obeys_eq_spec_properties);
    if m.contains_key(a.left()) && m.contains_key(a.right()) {
        let x = m[a.left()];
        let y = m[a.right()];
        assert(x.is_eq(&y) <==> y.is_eq(&x));
    }
}

/// `lhs < mid < rhs` holds exactly where both `lhs < mid` and `mid < rhs` hold.
pub proof fn law_ltn_three_is_chain<V: Ord>(t: LTnThree<V>, a: LTnVar<V>, b: LTnVar<V>, m: Map<char, V>)
    requires
        a.left() == t.left(),
        a.right() == t.middle(),
        b.left() == t.middle(),
        b.right() == t.right(),
    ensures
        t.holds(m) <==> (a.holds(m) && b.holds(m)),
        t.exact() == a.exact(),
        t.exact() == b.exact(),
{
}

/// `lhs > mid > rhs` holds exactly where both `lhs > mid` and `mid > rhs` hold.
pub proof fn law_gtn_three_is_chain<V: Ord>(t: GTnThree<V>, a: GTnVar<V>, b: GTnVar<V>, m: Map<char, V>)
    requires
        a.left() == t.left(),
        a.right() == t.middle(),
        b.left() == t.middle(),
        b.right() == t.right(),
    ensures
        t.holds(m) <==> (a.holds(m) && b.holds(m)),
        t.exact() == a.exact(),
        t.exact() == b.exact(),
{
}

/// `lhs > mid > rhs` holds exactly where `rhs < mid < lhs` holds, for a
/// value type whose order follows the laws of an order.
pub proof fn law_gtn_three_is_flipped_ltn_three<V: Ord>(g: GTnThree<V>, l: LTnThree<V>, m: Map<char, V>)
    requires
        obeys_cmp::<V>(),
        g.left() == l.right(),
        g.middle() == l.middle(),
        g.right() == l.left(),
    ensures
        g.holds(m) <==> l.holds(m),
        g.exact(),
        l.exact(),
{
    reveal(obeys_partial_cmp_spec_properties);
    reveal(obeys_cmp_partial_ord);
    if m.contains_key(g.left()) && m.contains_key(g.middle()) && m.contains_key(g.right()) {
        let x = m[g.left()];
        let y = m[g.middle()];
        let z = m[g.right()];
        assert(x.is_gt(&y) <==> y.is_lt(&x));
        assert(y.is_gt(&z) <==> z.is_lt(&y));
    }
}

/// Where `lhs < mid < rhs` holds, `lhs < rhs` holds too and `rhs < lhs`
/// does not, for a value type whose order follows the laws of an order.
pub proof fn law_ltn_three_is_transitive<V: Ord>(
    t: LTnThree<V>,
    l: LTnVar<V>,
    back: LTnVar<V>,
    m: Map<char, V>,
)
    requires
        obeys_cmp::<V>(),
        l.left() == t.left(),
        l.right() == t.right(),
        back.left() == t.right(),
        back.right() == t.left(),
        t.holds(m),
    ensures
        l.holds(m),
        !back.holds(m),
        t.exact(),
        l.exact(),
        back.exact(),
{
    reveal(obeys_partial_cmp_spec_properties);
    reveal(obeys_cmp_partial_ord);
    let x = m[t.left()];
    let y = m[t.middle()];
    let z = m[t.right()];
    assert(x.is_lt(&y) && y.is_lt(&z));
    assert(x.is_lt(&z));
    assert(z.is_lt(&x) <==> x.is_gt(&z));
}

/// Where `lhs < rhs` holds, `rhs < lhs` does not, for a value type whose
/// order follows the laws of an order.
pub proof fn law_ltn_var_is_asymmetric<V: Ord>(p: LTnVar<V>, q: LTnVar<V>, m: Map<char, V>)
    requires
        obeys_cmp::<V>(),
        q.left() == p.right(),
        q.right() == p.left(),
    ensures
        p.holds(m) ==> !q.holds(m),
        p.exact(),
        q.exact(),
{
    reveal(obeys_partial_cmp_spec_properties);
    reveal(obeys_cmp_partial_ord);
    if m.contains_key(p.left()) && m.contains_key(p.right()) {
        let x = m[p.left()];
        let y = m[p.right()];
        assert(y.is_lt(&x) <==> x.is_gt(&y));
    }
}

/// A variable is never smaller than itself, for a value type whose order
/// follows the laws of an order.
pub proof fn law_ltn_var_is_irreflexive<V: Ord>(p: LTnVar<V>, m: Map<char, V>)
    requires
        obeys_cmp::<V>(),
        p.left() == p.right(),
    ensures
        !p.holds(m),
        p.exact(),
{
    reveal(obeys_partial_cmp_spec_properties);
    reveal(obeys_cmp_partial_ord);
    if m.contains_key(p.left()) {
        let x = m[p.left()];
        assert(x.is_lt(&x) <==> x.is_gt(&x));
    }
}

/// The two valuations give variable `x` the same value, or both none.
pub open spec fn agree_at<V>(m1: Map<char, V>, m2: Map<char, V>, x: char) -> bool {
    &&& m1.contains_key(x) == m2.contains_key(x)
    &&& m1.contains_key(x) ==> m1[x] == m2[x]
}

/// Whether `lhs < rhs` holds depends only on the values of `lhs` and `rhs`.
pub proof fn law_ltn_var_reads_only_its_variables<V: Ord>(
    p: LTnVar<V>,
    m1: Map<char, V>,
    m2: Map<char, V>,
)
    requires
        agree_at(m1, m2, p.left()),
        agree_at(m1, m2, p.right()),
    ensures
        p.holds(m1) == p.holds(m2),
{
}

/// Whether `lhs < mid < rhs` holds depends only on the values of its three
/// variables.
pub proof fn law_ltn_three_reads_only_its_variables<V: Ord>(
    p: LTnThree<V>,
    m1: Map<char, V>,
    m2: Map<char, V>,
)
    requires
        agree_at(m1, m2, p.left()),
        agree_at(m1, m2, p.middle()),
        agree_at(m1, m2, p.right()),
    ensures
        p.holds(m1) == p.holds(m2),
{
}

/// Whether a comparison of a variable with a constant holds depends only on
/// the value of that variable.
pub proof fn law_const_reads_only_its_variable(
    lt: LTnConst,
    eq: EqualConst,
    gt: GTnConst,
    m1: Map<char, i32>,
    m2: Map<char, i32>,
)
    requires
        agree_at(m1, m2, lt.var()),
        agree_at(m1, m2, eq.var()),
        agree_at(m1, m2, gt.var()),
    ensures
        lt.holds(m1) == lt.holds(m2),
        eq.holds(m1) == eq.holds(m2),
        gt.holds(m1) == gt.holds(m2),
{
}

/// For two variables that both have a value, exactly one of `<`, `==` and
/// `>` holds; when either has none, none of them holds. This is for a value
/// type whose order follows the laws of a total order.
pub proof fn law_var_trichotomy<V: Ord>(lt: LTnVar<V>, eq: EqualVar<V>, gt: GTnVar<V>, m: Map<char, V>)
    requires
        obeys_cmp::<V>(),
        eq.left() == lt.left(),
        gt.left() == lt.left(),
        eq.right() == lt.right(),
        gt.right() == lt.right(),
    ensures
        m.contains_key(lt.left()) && m.contains_key(lt.right()) ==> {
            &&& lt.holds(m) || eq.holds(m) || gt.holds(m)
            &&& !(lt.holds(m) && eq.holds(m))
            &&& !(lt.holds(m) && gt.holds(m))
            &&& !(eq.holds(m) && gt.holds(m))
        },
        !(m.contains_key(lt.left()) && m.contains_key(lt.right())) ==> !lt.holds(m) && !eq.holds(m)
            && !gt.holds(m),
        lt.exact(),
        eq.exact(),
        gt.exact(),
{
    reveal(obeys_partial_cmp_spec_properties);
    reveal(obeys_cmp_partial_ord);
    reveal(obeys_cmp_ord);
    if m.contains_key(lt.left()) && m.contains_key(lt.right()) {
        let x = m[lt.left()];
        let y = m[lt.right()];
        assert(x.partial_cmp_spec(&y) == Some(x.cmp_spec(&y)));
    }
}

/// For a variable and a constant, exactly one of `<`, `==` and `>` holds
/// when the variable has a value, and none when it has not.
pub proof fn law_const_trichotomy(lt: LTnConst, eq: EqualConst, gt: GTnConst, m: Map<char, i32>)
    requires
        eq.var() == lt.var(),
        gt.var() == lt.var(),
        eq.bound() == lt.bound(),
        gt.bound() == lt.bound(),
    ensures
        m.contains_key(lt.var()) ==> {
            &&& lt.holds(m) || eq.holds(m) || gt.holds(m)
            &&& !(lt.holds(m) && eq.holds(m))
            &&& !(lt.holds(m) && gt.holds(m))
            &&& !(eq.holds(m) && gt.holds(m))
        },
        !m.contains_key(lt.var()) ==> !lt.holds(m) && !eq.holds(m) && !gt.holds(m),
{
}

/// A formula `lhs < rhs` and the predicate `lhs < rhs` between the same
/// variables hold on the same valuations.
pub proof fn law_ltn_agrees_with_ltn_var<V: Ord>(f: LTn<char, V>, p: LTnVar<V>, m: Map<char, V>)
    requires
        f.left() == p.left(),
        f.right() == p.right(),
    ensures
        f.holds(m) <==> p.holds(m),
{
}

/// A text reads as at most one formula.
pub proof fn law_reading_is_unique(
    s: Seq<char>,
    lhs: Seq<char>,
    rhs: Seq<char>,
    lhs2: Seq<char>,
    rhs2: Seq<char>,
)
    requires
        reads_ltn(s, lhs, rhs),
        reads_ltn(s, lhs2, rhs2),
    ensures
        lhs == lhs2,
        rhs == rhs2,
{
    let (i, p, j) = choose|i: int, p: int, j: int| ltn_layout(s, lhs, rhs, i, p, j);
    let (i2, p2, j2) = choose|i: int, p: int, j: int| ltn_layout(s, lhs2, rhs2, i, p, j);
    lemma_layout_is_scanned(s, lhs, rhs, i, p, j);
    lemma_scan_finds_layout(
        s,
        lhs2,
        rhs2,
        i2,
        p2,
        j2,
        i,
        i + lhs.len(),
        p,
        j,
        j + rhs.len(),
        s.len() as int,
    );
}

/// Two names joined by `<`, with any blanks before, between and after the
/// tokens, read as the formula between those names.
pub proof fn law_written_formula_reads_back(
    lhs: Seq<char>,
    rhs: Seq<char>,
    w1: Seq<char>,
    w2: Seq<char>,
    w3: Seq<char>,
    w4: Seq<char>,
)
    requires
        is_name(lhs),
        is_name(rhs),
        blank_run(w1, 0, w1.len() as int),
        blank_run(w2, 0, w2.len() as int),
        blank_run(w3, 0, w3.len() as int),
        blank_run(w4, 0, w4.len() as int),
    ensures
        reads_ltn(w1 + lhs + w2 + seq!['<'] + w3 + rhs + w4, lhs, rhs),
{
    let s = w1 + lhs + w2 + seq!['<'] + w3 + rhs + w4;
    let i = w1.len() as int;
    let p = i + lhs.len() + w2.len();
    let j = p + 1 + w3.len();
    let e = j + rhs.len();
    assert(s.subrange(i, i + lhs.len()) =~= lhs);
    assert(s.subrange(j, j + rhs.len()) =~= rhs);
    assert(s[p] == '<');
    assert(blank_run(s, 0, i)) by {
        assert forall|k: int| 0 <= k < i implies #[trigger] crate::grammar::is_blank(s[k]) by {
            assert(s[k] == w1[k]);
        }
    }
    assert(blank_run(s, i + lhs.len(), p)) by {
        assert forall|k: int| i + lhs.len() <= k < p implies #[trigger] crate::grammar::is_blank(s[k]) by {
            assert(s[k] == w2[k - i - lhs.len()]);
        }
    }
    assert(blank_run(s, p + 1, j)) by {
        assert forall|k: int| p + 1 <= k < j implies #[trigger] crate::grammar::is_blank(s[k]) by {
            assert(s[k] == w3[k - p - 1]);
        }
    }
    assert(blank_run(s, e, s.len() as int)) by {
        assert forall|k: int| e <= k < s.len() implies #[trigger] crate::grammar::is_blank(s[k]) by {
            assert(s[k] == w4[k - e]);
        }
    }
    assert(ltn_layout(s, lhs, rhs, i, p, j));
}

/// `c` is an ASCII letter, an ASCII digit or `_`.
pub open spec fn ascii_word_char(c: char) -> bool {
    ||| ('a' <= c && c <= 'z')
    ||| ('A' <= c && c <= 'Z')
    ||| ('0' <= c && c <= '9')
    ||| c == '_'
}

/// `c` is a space, a tab, a line feed or a carriage return.
pub open spec fn space_char(c: char) -> bool {
    c == ' ' || c == '\t' || c == '\n' || c == '\r'
}

/// `s` is a non-empty run of ASCII letters, digits and `_`.
pub open spec fn ascii_word(s: Seq<char>) -> bool {
    &&& s.len() > 0
    &&& forall|k: int| 0 <= k < s.len() ==> ascii_word_char(#[trigger] s[k])
}

/// `s` is made of spaces, tabs, line feeds and carriage returns only.
pub open spec fn spaces(s: Seq<char>) -> bool {
    forall|k: int| 0 <= k < s.len() ==> space_char(#[trigger] s[k])
}

/// Variable names are exactly the non-empty runs of ASCII letters, digits
/// and `_`, and blanks are exactly spaces, tabs, line feeds and carriage
/// returns.
pub proof fn law_name_and_blank_characters(c: char)
    ensures
        is_name_char(c) <==> ascii_word_char(c),
        is_blank(c) <==> space_char(c),
{
}

/// Any two runs of ASCII letters, digits and `_`, joined by `<` with any
/// spaces, tabs and line breaks before, between and after, read as the
/// formula between exactly those two names.
pub proof fn law_words_joined_by_less_read_as_formula(
    lhs: Seq<char>,
    rhs: Seq<char>,
    w1: Seq<char>,
    w2: Seq<char>,
    w3: Seq<char>,
    w4: Seq<char>,
)
    requires
        ascii_word(lhs),
        ascii_word(rhs),
        spaces(w1),
        spaces(w2),
        spaces(w3),
        spaces(w4),
    ensures
        reads_ltn(w1 + lhs + w2 + seq!['<'] + w3 + rhs + w4, lhs, rhs),
        forall|l: Seq<char>, r: Seq<char>|
            reads_ltn(w1 + lhs + w2 + seq!['<'] + w3 + rhs + w4, l, r) ==> l == lhs && r == rhs,
{
    assert(is_name(lhs)) by {
        assert forall|k: int| 0 <= k < lhs.len() implies is_name_char(#[trigger] lhs[k]) by {
            assert(ascii_word_char(lhs[k]));
        }
    }
    assert(is_name(rhs)) by {
        assert forall|k: int| 0 <= k < rhs.len() implies is_name_char(#[trigger] rhs[k]) by {
            assert(ascii_word_char(rhs[k]));
        }
    }
    assert forall|w: Seq<char>| spaces(w) implies blank_run(w, 0, w.len() as int) by {
        assert forall|k: int| 0 <= k < w.len() implies is_blank(#[trigger] w[k]) by {
            assert(space_char(w[k]));
        }
    }
    law_written_formula_reads_back(lhs, rhs, w1, w2, w3, w4);
    let s = w1 + lhs + w2 + seq!['<'] + w3 + rhs + w4;
    assert forall|l: Seq<char>, r: Seq<char>| reads_ltn(s, l, r) implies l == lhs && r == rhs by {
        law_reading_is_unique(s, lhs, rhs, l, r);
    }
}

/// Every text that reads as the formula `lhs < rhs` is those two names,
/// runs of ASCII letters, digits and `_`, joined by a single `<`, with only
/// spaces, tabs and line breaks before, between and after. The result gives
/// the four runs of blanks.
pub proof fn law_reading_is_words_joined_by_less(s: Seq<char>, lhs: Seq<char>, rhs: Seq<char>)
    -> (w: (Seq<char>, Seq<char>, Seq<char>, Seq<char>))
    requires
        reads_ltn(s, lhs, rhs),
    ensures
        ascii_word(lhs),
        ascii_word(rhs),
        spaces(w.0),
        spaces(w.1),
        spaces(w.2),
        spaces(w.3),
        s == w.0 + lhs + w.1 + seq!['<'] + w.2 + rhs + w.3,
{
    let (i, p, j) = choose|i: int, p: int, j: int| ltn_layout(s, lhs, rhs, i, p, j);
    let a1 = i + lhs.len();
    let b1 = j + rhs.len();
    let w0 = s.subrange(0, i);
    let w1 = s.subrange(a1, p);
    let w2 = s.subrange(p + 1, j);
    let w3 = s.subrange(b1, s.len() as int);
    assert forall|k: int| 0 <= k < lhs.len() implies ascii_word_char(#[trigger] lhs[k]) by {
        assert(is_name_char(lhs[k]));
    }
    assert forall|k: int| 0 <= k < rhs.len() implies ascii_word_char(#[trigger] rhs[k]) by {
        assert(is_name_char(rhs[k]));
    }
    assert forall|k: int| 0 <= k < w0.len() implies space_char(#[trigger] w0[k]) by {
        assert(is_blank(s[k]));
    }
    assert forall|k: int| 0 <= k < w1.len() implies space_char(#[trigger] w1[k]) by {
        assert(is_blank(s[a1 + k]));
    }
    assert forall|k: int| 0 <= k < w2.len() implies space_char(#[trigger] w2[k]) by {
        assert(is_blank(s[p + 1 + k]));
    }
    assert forall|k: int| 0 <= k < w3.len() implies space_char(#[trigger] w3[k]) by {
        assert(is_blank(s[b1 + k]));
    }
    assert(s =~= w0 + lhs + w1 + seq!['<'] + w2 + rhs + w3) by {
        assert(s.subrange(i, a1) == lhs);
        assert(s.subrange(j, b1) == rhs);
    }
    (w0, w1, w2, w3)
}

/// A text holding a character that is neither an ASCII letter, digit or
/// `_`, nor a space, tab or line break, nor `<`, reads as no formula.
pub proof fn law_stray_character_reads_as_nothing(s: Seq<char>, k: int)
    requires
        0 <= k < s.len(),
        !ascii_word_char(s[k]),
        !space_char(s[k]),
        s[k] != '<',
    ensures
        forall|l: Seq<char>, r: Seq<char>| !reads_ltn(s, l, r),
{
    assert forall|l: Seq<char>, r: Seq<char>| !reads_ltn(s, l, r) by {
        if reads_ltn(s, l, r) {
            let w = law_reading_is_words_joined_by_less(s, l, r);
            let t = w.0 + l + w.1 + seq!['<'] + w.2 + r + w.3;
            let n0 = w.0.len() as int;
            let n1 = n0 + l.len();
            let n2 = n1 + w.1.len();
            let n3 = n2 + 1;
            let n4 = n3 + w.2.len();
            let n5 = n4 + r.len();
            if k < n0 {
                assert(s[k] == w.0[k]);
            } else if k < n1 {
                assert(s[k] == l[k - n0]);
            } else if k < n2 {
                assert(s[k] == w.1[k - n1]);
            } else if k < n3 {
                assert(s[k] == '<');
            } else if k < n4 {
                assert(s[k] == w.2[k - n3]);
            } else if k < n5 {
                assert(s[k] == r[k - n4]);
            } else {
                assert(s[k] == w.3[k - n5]);
            }
        }
    }
}

/// A text holding `<` twice reads as no formula.
pub proof fn law_two_less_signs_read_as_nothing(s: Seq<char>, k1: int, k2: int)
    requires
        0 <= k1 < k2 < s.len(),
        s[k1] == '<',
        s[k2] == '<',
    ensures
        forall|l: Seq<char>, r: Seq<char>| !reads_ltn(s, l, r),
{
    assert forall|l: Seq<char>, r: Seq<char>| !reads_ltn(s, l, r) by {
        if reads_ltn(s, l, r) {
            let w = law_reading_is_words_joined_by_less(s, l, r);
            let n0 = w.0.len() as int;
            let n1 = n0 + l.len();
            let n2 = n1 + w.1.len();
            let n3 = n2 + 1;
            let n4 = n3 + w.2.len();
            let n5 = n4 + r.len();
            assert forall|k: int| 0 <= k < s.len() && k != n2 implies #[trigger] s[k] != '<' by {
                if k < n0 {
                    assert(s[k] == w.0[k]);
                } else if k < n1 {
                    assert(s[k] == l[k - n0]);
                } else if k < n2 {
                    assert(s[k] == w.1[k - n1]);
                } else if k < n4 {
                    assert(s[k] == w.2[k - n3]);
                } else if k < n5 {
                    assert(s[k] == r[k - n4]);
                } else {
                    assert(s[k] == w.3[k - n5]);
                }
            }
        }
    }
}

/// `x < k` holds exactly where `x` has a value that is smaller than `k` as
/// an integer.
pub proof fn law_ltn_const_compares_integers(p: LTnConst, m: Map<char, i32>)
    ensures
        p.holds(m) <==> m.contains_key(p.var()) && (m[p.var()] as int) < (p.bound() as int),
        p.exact(),
{
}

/// `x > k` holds exactly where `x` has a value that is greater than `k` as
/// an integer.
pub proof fn law_gtn_const_compares_integers(p: GTnConst, m: Map<char, i32>)
    ensures
        p.holds(m) <==> m.contains_key(p.var()) && (m[p.var()] as int) > (p.bound() as int),
        p.exact(),
{
}

/// `x == k` holds exactly where `x` has a value that equals `k` as an
/// integer.
pub proof fn law_equal_const_compares_integers(p: EqualConst, m: Map<char, i32>)
    ensures
        p.holds(m) <==> m.contains_key(p.var()) && (m[p.var()] as int) == (p.bound() as int),
        p.exact(),
{
}

/// On `i32` values, `x < y` holds exactly where both have values and the
/// first is smaller as an integer.
pub proof fn law_ltn_var_on_integers(p: LTnVar<i32>, m: Map<char, i32>)
    ensures
        p.holds(m) <==> m.contains_key(p.left()) && m.contains_key(p.right())
            && (m[p.left()] as int) < (m[p.right()] as int),
        p.exact(),
{
}

/// On `i32` values, `x > y` holds exactly where both have values and the
/// first is greater as an integer.
pub proof fn law_gtn_var_on_integers(p: GTnVar<i32>, m: Map<char, i32>)
    ensures
        p.holds(m) <==> m.contains_key(p.left()) && m.contains_key(p.right())
            && (m[p.left()] as int) > (m[p.right()] as int),
        p.exact(),
{
}

/// On `i32` values, `x == y` holds exactly where both have values and they
/// are equal as integers.
pub proof fn law_equal_var_on_integers(p: EqualVar<i32>, m: Map<char, i32>)
    ensures
        p.holds(m) <==> m.contains_key(p.left()) && m.contains_key(p.right())
            && (m[p.left()] as int) == (m[p.right()] as int),
        p.exact(),
{
}

/// On `i32` values, `x < y < z` holds exactly where all three have values
/// and they increase strictly as integers.
pub proof fn law_ltn_three_on_integers(p: LTnThree<i32>, m: Map<char, i32>)
    ensures
        p.holds(m) <==> m.contains_key(p.left()) && m.contains_key(p.middle()) && m.contains_key(
            p.right(),
        ) && (m[p.left()] as int) < (m[p.middle()] as int) && (m[p.middle()] as int) < (
        m[p.right()] as int),
        p.exact(),
{
}

/// On `i32` values, `x > y > z` holds exactly where all three have values
/// and they decrease strictly as integers.
pub proof fn law_gtn_three_on_integers(p: GTnThree<i32>, m: Map<char, i32>)
    ensures
        p.holds(m) <==> m.contains_key(p.left()) && m.contains_key(p.middle()) && m.contains_key(
            p.right(),
        ) && (m[p.left()] as int) > (m[p.middle()] as int) && (m[p.middle()] as int) > (
        m[p.right()] as int),
        p.exact(),
{
}

/// On `i32` values with `char` names, `lhs < rhs` holds exactly where both
/// variables have values and the left one is smaller as an integer.
pub proof fn law_ltn_on_char_names(f: LTn<char, i32>, m: Map<char, i32>)
    ensures
        f.holds(m) <==> m.contains_key(f.left()) && m.contains_key(f.right())
            && (m[f.left()] as int) < (m[f.right()] as int),
{
    assert(m.contains_key(f.left()) ==> f.left().id() == f.left());
    assert(m.contains_key(f.right()) ==> f.right().id() == f.right());
}

/// On `i32` values with `String` names, the variable named by a text is the
/// stored key with that text: where the keys `a` and `b` carry the texts of
/// `lhs` and `rhs` and no other key carries either text, `lhs < rhs` holds
/// exactly where the value under `a` is smaller than that under `b` as
/// integers; where no key carries the text of `lhs`, or none that of `rhs`,
/// it does not hold.
pub proof fn law_ltn_on_text_names(f: LTn<String, i32>, m: Map<String, i32>, a: String, b: String)
    ensures
        ({
            &&& m.contains_key(a) && a@ == f.left()@
            &&& m.contains_key(b) && b@ == f.right()@
            &&& forall|k: String| #[trigger] m.contains_key(k) && k@ == a@ ==> k == a
            &&& forall|k: String| #[trigger] m.contains_key(k) && k@ == b@ ==> k == b
        }) ==> (f.holds(m) <==> (m[a] as int) < (m[b] as int)),
        (forall|k: String| #[trigger] m.contains_key(k) ==> k@ != f.left()@) ==> !f.holds(m),
        (forall|k: String| #[trigger] m.contains_key(k) ==> k@ != f.right()@) ==> !f.holds(m),
{
    if m.contains_key(a) && a@ == f.left()@ {
        assert(a.id() == f.left().id());
    }
    if m.contains_key(b) && b@ == f.right()@ {
        assert(b.id() == f.right().id());
    }
}

} // verus!
