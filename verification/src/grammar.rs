use vstd::prelude::*;
use vstd::string::*;

verus! {

/// Blank characters, allowed around the tokens of a formula.
pub open spec fn is_blank(c: char) -> bool {
    c == ' ' || c == '\t' || c == '\n' || c == '\r'
}

/// Characters of a variable name: ASCII letters, digits and `_`.
pub open spec fn is_name_char(c: char) -> bool {
    ('a' <= c && c <= 'z') || ('A' <= c && c <= 'Z') || ('0' <= c && c <= '9') || c == '_'
}

/// A variable name: a non-empty run of name characters.
pub open spec fn is_name(s: Seq<char>) -> bool {
    &&& s.len() > 0
    &&& forall|k: int| 0 <= k < s.len() ==> is_name_char(#[trigger] s[k])
}

/// Every character of `s` from `x` (included) to `y` (excluded) is blank.
pub open spec fn blank_run(s: Seq<char>, x: int, y: int) -> bool {
    forall|k: int| x <= k < y ==> is_blank(#[trigger] s[k])
}

/// Every character of `s` from `x` (included) to `y` (excluded) is a name character.
pub open spec fn name_run(s: Seq<char>, x: int, y: int) -> bool {
    forall|k: int| x <= k < y ==> is_name_char(#[trigger] s[k])
}

/// A run of blanks cannot go on at position `y` of `s`.
pub open spec fn stops_blank(s: Seq<char>, y: int) -> bool {
    y == s.len() || !is_blank(s[y])
}

/// A run of name characters cannot go on at position `y` of `s`.
pub open spec fn stops_name(s: Seq<char>, y: int) -> bool {
    y == s.len() || !is_name_char(s[y])
}

/// `s` spells `lhs < rhs`: the name `lhs` starts at `i`, `<` stands at `p`
/// and the name `rhs` starts at `j`; everything else is blank.
pub open spec fn ltn_layout(s: Seq<char>, lhs: Seq<char>, rhs: Seq<char>, i: int, p: int, j: int) -> bool {
    &&& 0 <= i
    &&& i + lhs.len() <= p
    &&& p + 1 <= j
    &&& j + rhs.len() <= s.len()
    &&& is_name(lhs)
    &&& is_name(rhs)
    &&& blank_run(s, 0, i)
    &&& s.subrange(i, i + lhs.len()) == lhs
    &&& blank_run(s, i + lhs.len(), p)
    &&& s[p] == '<'
    &&& blank_run(s, p + 1, j)
    &&& s.subrange(j, j + rhs.len()) == rhs
    &&& blank_run(s, j + rhs.len(), s.len() as int)
}

/// The text `s` is the formula `lhs < rhs`, with blanks allowed before,
/// between and after the three tokens.
pub open spec fn reads_ltn(s: Seq<char>, lhs: Seq<char>, rhs: Seq<char>) -> bool {
    exists|i: int, p: int, j: int| ltn_layout(s, lhs, rhs, i, p, j)
}

/// The positions that a left-to-right scan of `s` finds: the first
/// non-blank at `a0`, the end `a1` of the name there, the first non-blank
/// `p0` after it, the first non-blank `b0` after `p0`, the end `b1` of the
/// name there and the first non-blank `e` after it.
pub open spec fn scanned(s: Seq<char>, a0: int, a1: int, p0: int, b0: int, b1: int, e: int) -> bool {
    let q = if p0 < s.len() { p0 + 1 } else { s.len() as int };
    &&& 0 <= a0 <= a1 <= p0 <= s.len()
    &&& q <= b0 <= b1 <= e <= s.len()
    &&& blank_run(s, 0, a0) && stops_blank(s, a0)
    &&& name_run(s, a0, a1) && stops_name(s, a1)
    &&& blank_run(s, a1, p0) && stops_blank(s, p0)
    &&& blank_run(s, q, b0) && stops_blank(s, b0)
    &&& name_run(s, b0, b1) && stops_name(s, b1)
    &&& blank_run(s, b1, e) && stops_blank(s, e)
}

proof fn lemma_blank_run_end_unique(s: Seq<char>, x: int, y: int, k: int)
    requires
        y <= s.len(),
        k <= s.len(),
        blank_run(s, x, y),
        stops_blank(s, y),
        blank_run(s, x, k),
        stops_blank(s, k),
        x <= y,
        x <= k,
    ensures
        y == k,
{
    if y < k {
        assert(is_blank(s[y]));
    }
    if k < y {
        assert(is_blank(s[k]));
    }
}

proof fn lemma_name_run_end_unique(s: Seq<char>, x: int, y: int, k: int)
    requires
        y <= s.len(),
        k <= s.len(),
        name_run(s, x, y),
        stops_name(s, y),
        name_run(s, x, k),
        stops_name(s, k),
        x <= y,
        x <= k,
    ensures
        y == k,
{
    if y < k {
        assert(is_name_char(s[y]));
    }
    if k < y {
        assert(is_name_char(s[k]));
    }
}

/// A layout of `lhs < rhs` in `s` gives the positions a scan finds.
pub proof fn lemma_layout_is_scanned(s: Seq<char>, lhs: Seq<char>, rhs: Seq<char>, i: int, p: int, j: int)
    requires
        ltn_layout(s, lhs, rhs, i, p, j),
    ensures
        scanned(s, i, i + lhs.len(), p, j, j + rhs.len(), s.len() as int),
{
    let a1 = i + lhs.len();
    let b1 = j + rhs.len();
    assert(s[i] == lhs[0]);
    assert(name_run(s, i, a1)) by {
        assert forall|k: int| i <= k < a1 implies is_name_char(#[trigger] s[k]) by {
            assert(s[k] == s.subrange(i, a1)[k - i]);
        }
    }
    assert(stops_name(s, a1)) by {
        if a1 < p {
            assert(is_blank(s[a1]));
        }
    }
    assert(s[j] == rhs[0]);
    assert(name_run(s, j, b1)) by {
        assert forall|k: int| j <= k < b1 implies is_name_char(#[trigger] s[k]) by {
            assert(s[k] == s.subrange(j, b1)[k - j]);
        }
    }
    assert(stops_name(s, b1)) by {
        if b1 < s.len() {
            assert(is_blank(s[b1]));
        }
    }
}

/// What a scan finds is the layout of `lhs < rhs`, if `s` has one.
pub proof fn lemma_scan_finds_layout(
    s: Seq<char>,
    lhs: Seq<char>,
    rhs: Seq<char>,
    i: int,
    p: int,
    j: int,
    a0: int,
    a1: int,
    p0: int,
    b0: int,
    b1: int,
    e: int,
)
    requires
        ltn_layout(s, lhs, rhs, i, p, j),
        scanned(s, a0, a1, p0, b0, b1, e),
    ensures
        a0 == i,
        a1 == i + lhs.len(),
        p0 == p,
        b0 == j,
        b1 == j + rhs.len(),
        e == s.len(),
        lhs == s.subrange(a0, a1),
        rhs == s.subrange(b0, b1),
{
    lemma_layout_is_scanned(s, lhs, rhs, i, p, j);
    lemma_blank_run_end_unique(s, 0, a0, i);
    lemma_name_run_end_unique(s, a0, a1, i + lhs.len());
    lemma_blank_run_end_unique(s, a1, p0, p);
    lemma_blank_run_end_unique(s, p + 1, b0, j);
    lemma_name_run_end_unique(s, b0, b1, j + rhs.len());
    lemma_blank_run_end_unique(s, b1, e, s.len() as int);
}

/// Whether `c` is blank.
pub fn blank_char(c: char) -> (b: bool)
    ensures
        b == is_blank(c),
{
    c == ' ' || c == '\t' || c == '\n' || c == '\r'
}

/// Whether `c` may stand in a variable name.
pub fn name_char(c: char) -> (b: bool)
    ensures
        b == is_name_char(c),
{
    ('a' <= c && c <= 'z') || ('A' <= c && c <= 'Z') || ('0' <= c && c <= '9') || c == '_'
}

/// The end of the run of blanks of `s` that starts at `from`.
pub fn skip_blanks(s: &str, n: usize, from: usize) -> (k: usize)
    requires
        n == s@.len(),
        from <= n,
    ensures
        from <= k <= n,
        blank_run(s@, from as int, k as int),
        stops_blank(s@, k as int),
{
    let mut k = from;
    while k < n && blank_char(s.get_char(k))
        invariant
            n == s@.len(),
            from <= k <= n,
            blank_run(s@, from as int, k as int),
        decreases n - k,
    {
        k = k + 1;
    }
    k
}

/// The end of the run of name characters of `s` that starts at `from`.
pub fn skip_name(s: &str, n: usize, from: usize) -> (k: usize)
    requires
        n == s@.len(),
        from <= n,
    ensures
        from <= k <= n,
        name_run(s@, from as int, k as int),
        stops_name(s@, k as int),
{
    let mut k = from;
    while k < n && name_char(s.get_char(k))
        invariant
            n == s@.len(),
            from <= k <= n,
            name_run(s@, from as int, k as int),
        decreases n - k,
    {
        k = k + 1;
    }
    k
}

} // verus!
