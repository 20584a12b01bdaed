use std::collections::HashMap;
use std::marker::PhantomData;
use vstd::prelude::*;
use vstd::std_specs::cmp::{PartialEqIs, PartialOrdIs, PartialEqSpec, PartialOrdSpec};
use crate::names::value_of;

verus! {

/// A property of the current values of some variables.
///
/// `holds` is the truth value of the predicate on a valuation; `check`
/// decides it on a concrete map. `exact` says when the decision of `check`
/// is fully determined by `holds`: for predicates that compare values of a
/// generic type, this is when that type's comparison follows its
/// specification (as it does for all integer types).
///
/// Every `check` accepts a valuation on which the predicate holds, where it
/// is exact. The provided `check` accepts every valuation; the predicates of
/// this library replace it, and each states in its own contract that it
/// refuses exactly the valuations on which it does not hold.
pub trait Predicate {
    type Name;
    type Value;
    type Error: std::fmt::Debug;

    /// Whether the predicate holds on the valuation `m`.
    spec fn holds(&self, m: Map<Self::Name, Self::Value>) -> bool;

    /// Whether `check` answers exactly according to `holds`.
    spec fn exact(&self) -> bool;

    /// Checks whether the predicate holds on the current values in `m`:
    /// `Ok(())` if it holds, an error if not. The provided implementation
    /// always answers `Ok(())`.
    fn check(&self, m: &HashMap<Self::Name, Self::Value>) -> (r: Result<(), Self::Error>)
        ensures
            self.exact() && self.holds(m@) ==> r is Ok,
        default_ensures
            r is Ok,
    {
        Ok(())
    }
}

/// The predicate that always holds.
pub struct Tautology<N, V> {
    _ph: PhantomData<(N, V)>,
}

impl<N, V> Default for Tautology<N, V> {
    fn default() -> (t: Self)
        ensures
            forall|m: Map<N, V>| t.holds(m),
    {
        Tautology { _ph: PhantomData }
    }
}

impl<N, V> Predicate for Tautology<N, V> {
    type Name = N;
    type Value = V;
    type Error = ();

    open spec fn holds(&self, m: Map<N, V>) -> bool {
        true
    }

    open spec fn exact(&self) -> bool {
        true
    }
}

/// `lhs < rhs`, where both sides are variables.
pub struct LTnVar<V: Ord> {
    lhs: char,
    rhs: char,
    _p: PhantomData<V>,
}

impl<V: Ord> LTnVar<V> {
    /// The variable on the left.
    pub closed spec fn left(&self) -> char {
        self.lhs
    }

    /// The variable on the right.
    pub closed spec fn right(&self) -> char {
        self.rhs
    }

    /// The predicate `lhs < rhs`.
    pub fn new(lhs: char, rhs: char) -> (p: Self)
        ensures
            p.left() == lhs,
            p.right() == rhs,
    {
        LTnVar { lhs, rhs, _p: PhantomData }
    }
}

impl<V: Ord> Predicate for LTnVar<V> {
    type Name = char;
    type Value = V;
    type Error = ();

    open spec fn holds(&self, m: Map<char, V>) -> bool {
        &&& m.contains_key(self.left())
        &&& m.contains_key(self.right())
        &&& m[self.left()].is_lt(&m[self.right()])
    }

    open spec fn exact(&self) -> bool {
        V::obeys_partial_cmp_spec()
    }

    fn check(&self, m: &HashMap<char, V>) -> (r: Result<(), ()>)
        ensures
            self.exact() ==> (r is Ok <==> self.holds(m@)),
            !m@.contains_key(self.left()) || !m@.contains_key(self.right()) ==> r is Err,
    {
        let lhs = match value_of(m, self.lhs) {
            Some(v) => v,
            None => return Err(()),
        };
        let rhs = match value_of(m, self.rhs) {
            Some(v) => v,
            None => return Err(()),
        };
        if lhs < rhs {
            Ok(())
        } else {
            Err(())
        }
    }
}

/// `lhs > rhs`, where both sides are variables.
pub struct GTnVar<V: Ord> {
    lhs: char,
    rhs: char,
    _p: PhantomData<V>,
}

impl<V: Ord> GTnVar<V> {
    /// The variable on the left.
    pub closed spec fn left(&self) -> char {
        self.lhs
    }

    /// The variable on the right.
    pub closed spec fn right(&self) -> char {
        self.rhs
    }

    /// The predicate `lhs > rhs`.
    pub fn new(lhs: char, rhs: char) -> (p: Self)
        ensures
            p.left() == lhs,
            p.right() == rhs,
    {
        GTnVar { lhs, rhs, _p: PhantomData }
    }
}

impl<V: Ord> Predicate for GTnVar<V> {
    type Name = char;
    type Value = V;
    type Error = ();

    open spec fn holds(&self, m: Map<char, V>) -> bool {
        &&& m.contains_key(self.left())
        &&& m.contains_key(self.right())
        &&& m[self.left()].is_gt(&m[self.right()])
    }

    open spec fn exact(&self) -> bool {
        V::obeys_partial_cmp_spec()
    }

    fn check(&self, m: &HashMap<char, V>) -> (r: Result<(), ()>)
        ensures
            self.exact() ==> (r is Ok <==> self.holds(m@)),
            !m@.contains_key(self.left()) || !m@.contains_key(self.right()) ==> r is Err,
    {
        let lhs = match value_of(m, self.lhs) {
            Some(v) => v,
            None => return Err(()),
        };
        let rhs = match value_of(m, self.rhs) {
            Some(v) => v,
            None => return Err(()),
        };
        if lhs > rhs {
            Ok(())
        } else {
            Err(())
        }
    }
}

/// `lhs < rhs`, where `lhs` is a variable and `rhs` a constant.
pub struct LTnConst {
    lhs: char,
    rhs: i32,
}

impl LTnConst {
    /// The variable compared.
    pub closed spec fn var(&self) -> char {
        self.lhs
    }

    /// The constant it is compared with.
    pub closed spec fn bound(&self) -> i32 {
        self.rhs
    }

    /// The predicate `lhs < rhs`.
    pub fn new(lhs: char, rhs: i32) -> (p: Self)
        ensures
            p.var() == lhs,
            p.bound() == rhs,
    {
        LTnConst { lhs, rhs }
    }
}

impl Predicate for LTnConst {
    type Name = char;
    type Value = i32;
    type Error = ();

    open spec fn holds(&self, m: Map<char, i32>) -> bool {
        &&& m.contains_key(self.var())
        &&& m[self.var()] < self.bound()
    }

    open spec fn exact(&self) -> bool {
        true
    }

    fn check(&self, m: &HashMap<char, i32>) -> (r: Result<(), ()>)
        ensures
            r is Ok <==> self.holds(m@),
    {
        let lhs = match value_of(m, self.lhs) {
            Some(v) => v,
            None => return Err(()),
        };
        if *lhs < self.rhs {
            Ok(())
        } else {
            Err(())
        }
    }
}

/// `lhs > rhs`, where `lhs` is a variable and `rhs` a constant.
pub struct GTnConst {
    lhs: char,
    rhs: i32,
}

impl GTnConst {
    /// The variable compared.
    pub closed spec fn var(&self) -> char {
        self.lhs
    }

    /// The constant it is compared with.
    pub closed spec fn bound(&self) -> i32 {
        self.rhs
    }

    /// The predicate `lhs > rhs`.
    pub fn new(lhs: char, rhs: i32) -> (p: Self)
        ensures
            p.var() == lhs,
            p.bound() == rhs,
    {
        GTnConst { lhs, rhs }
    }
}

impl Predicate for GTnConst {
    type Name = char;
    type Value = i32;
    type Error = ();

    open spec fn holds(&self, m: Map<char, i32>) -> bool {
        &&& m.contains_key(self.var())
        &&& m[self.var()] > self.bound()
    }

    open spec fn exact(&self) -> bool {
        true
    }

    fn check(&self, m: &HashMap<char, i32>) -> (r: Result<(), ()>)
        ensures
            r is Ok <==> self.holds(m@),
    {
        let lhs = match value_of(m, self.lhs) {
            Some(v) => v,
            None => return Err(()),
        };
        if *lhs > self.rhs {
            Ok(())
        } else {
            Err(())
        }
    }
}

/// `lhs == rhs`, where both sides are variables.
pub struct EqualVar<V: Ord> {
    lhs: char,
    rhs: char,
    _p: PhantomData<V>,
}

impl<V: Ord> EqualVar<V> {
    /// The variable on the left.
    pub closed spec fn left(&self) -> char {
        self.lhs
    }

    /// The variable on the right.
    pub closed spec fn right(&self) -> char {
        self.rhs
    }

    /// The predicate `lhs == rhs`.
    pub fn new(lhs: char, rhs: char) -> (p: Self)
        ensures
            p.left() == lhs,
            p.right() == rhs,
    {
        EqualVar { lhs, rhs, _p: PhantomData }
    }
}

impl<V: Ord> Predicate for EqualVar<V> {
    type Name = char;
    type Value = V;
    type Error = ();

    open spec fn holds(&self, m: Map<char, V>) -> bool {
        &&& m.contains_key(self.left())
        &&& m.contains_key(self.right())
        &&& m[self.left()].is_eq(&m[self.right()])
    }

    open spec fn exact(&self) -> bool {
        V::obeys_eq_spec()
    }

    fn check(&self, m: &HashMap<char, V>) -> (r: Result<(), ()>)
        ensures
            self.exact() ==> (r is Ok <==> self.holds(m@)),
            !m@.contains_key(self.left()) || !m@.contains_key(self.right()) ==> r is Err,
    {
        let lhs = match value_of(m, self.lhs) {
            Some(v) => v,
            None => return Err(()),
        };
        let rhs = match value_of(m, self.rhs) {
            Some(v) => v,
            None => return Err(()),
        };
        if lhs == rhs {
            Ok(())
        } else {
            Err(())
        }
    }
}

/// `lhs == rhs`, where `lhs` is a variable and `rhs` a constant.
pub struct EqualConst {
    lhs: char,
    rhs: i32,
}

impl EqualConst {
    /// The variable compared.
    pub closed spec fn var(&self) -> char {
        self.lhs
    }

    /// The constant it is compared with.
    pub closed spec fn bound(&self) -> i32 {
        self.rhs
    }

    /// The predicate `lhs == rhs`.
    pub fn new(lhs: char, rhs: i32) -> (p: Self)
        ensures
            p.var() == lhs,
            p.bound() == rhs,
    {
        EqualConst { lhs, rhs }
    }
}

impl Predicate for EqualConst {
    type Name = char;
    type Value = i32;
    type Error = ();

    open spec fn holds(&self, m: Map<char, i32>) -> bool {
        &&& m.contains_key(self.var())
        &&& m[self.var()] == self.bound()
    }

    open spec fn exact(&self) -> bool {
        true
    }

    fn check(&self, m: &HashMap<char, i32>) -> (r: Result<(), ()>)
        ensures
            r is Ok <==> self.holds(m@),
    {
        let lhs = match value_of(m, self.lhs) {
            Some(v) => v,
            None => return Err(()),
        };
        if *lhs == self.rhs {
            Ok(())
        } else {
            Err(())
        }
    }
}

/// `lhs < mid < rhs`, where all three operands are variables.
pub struct LTnThree<V: Ord> {
    lhs: char,
    mid: char,
    rhs: char,
    _p: PhantomData<V>,
}

impl<V: Ord> LTnThree<V> {
    /// The variable on the left.
    pub closed spec fn left(&self) -> char {
        self.lhs
    }

    /// The variable in the middle.
    pub closed spec fn middle(&self) -> char {
        self.mid
    }

    /// The variable on the right.
    pub closed spec fn right(&self) -> char {
        self.rhs
    }

    /// The predicate `lhs < mid < rhs`.
    pub fn new(lhs: char, mid: char, rhs: char) -> (p: Self)
        ensures
            p.left() == lhs,
            p.middle() == mid,
            p.right() == rhs,
    {
        LTnThree { lhs, mid, rhs, _p: PhantomData }
    }
}

impl<V: Ord> Predicate for LTnThree<V> {
    type Name = char;
    type Value = V;
    type Error = ();

    open spec fn holds(&self, m: Map<char, V>) -> bool {
        &&& m.contains_key(self.left())
        &&& m.contains_key(self.middle())
        &&& m.contains_key(self.right())
        &&& m[self.left()].is_lt(&m[self.middle()])
        &&& m[self.middle()].is_lt(&m[self.right()])
    }

    open spec fn exact(&self) -> bool {
        V::obeys_partial_cmp_spec()
    }

    fn check(&self, m: &HashMap<char, V>) -> (r: Result<(), ()>)
        ensures
            self.exact() ==> (r is Ok <==> self.holds(m@)),
            !m@.contains_key(self.left()) || !m@.contains_key(self.middle())
                || !m@.contains_key(self.right()) ==> r is Err,
    {
        let lhs = match value_of(m, self.lhs) {
            Some(v) => v,
            None => return Err(()),
        };
        let mid = match value_of(m, self.mid) {
            Some(v) => v,
            None => return Err(()),
        };
        let rhs = match value_of(m, self.rhs) {
            Some(v) => v,
            None => return Err(()),
        };
        if lhs < mid && mid < rhs {
            Ok(())
        } else {
            Err(())
        }
    }
}

/// `lhs > mid > rhs`, where all three operands are variables.
pub struct GTnThree<V: Ord> {
    lhs: char,
    mid: char,
    rhs: char,
    _p: PhantomData<V>,
}

impl<V: Ord> GTnThree<V> {
    /// The variable on the left.
    pub closed spec fn left(&self) -> char {
        self.lhs
    }

    /// The variable in the middle.
    pub closed spec fn middle(&self) -> char {
        self.mid
    }

    /// The variable on the right.
    pub closed spec fn right(&self) -> char {
        self.rhs
    }

    /// The predicate `lhs > mid > rhs`.
    pub fn new(lhs: char, mid: char, rhs: char) -> (p: Self)
        ensures
            p.left() == lhs,
            p.middle() == mid,
            p.right() == rhs,
    {
        GTnThree { lhs, mid, rhs, _p: PhantomData }
    }
}

impl<V: Ord> Predicate for GTnThree<V> {
    type Name = char;
    type Value = V;
    type Error = ();

    open spec fn holds(&self, m: Map<char, V>) -> bool {
        &&& m.contains_key(self.left())
        &&& m.contains_key(self.middle())
        &&& m.contains_key(self.right())
        &&& m[self.left()].is_gt(&m[self.middle()])
        &&& m[self.middle()].is_gt(&m[self.right()])
    }

    open spec fn exact(&self) -> bool {
        V::obeys_partial_cmp_spec()
    }

    fn check(&self, m: &HashMap<char, V>) -> (r: Result<(), ()>)
        ensures
            self.exact() ==> (r is Ok <==> self.holds(m@)),
            !m@.contains_key(self.left()) || !m@.contains_key(self.middle())
                || !m@.contains_key(self.right()) ==> r is Err,
    {
        let lhs = match value_of(m, self.lhs) {
            Some(v) => v,
            None => return Err(()),
        };
        let mid = match value_of(m, self.mid) {
            Some(v) => v,
            None => return Err(()),
        };
        let rhs = match value_of(m, self.rhs) {
            Some(v) => v,
            None => return Err(()),
        };
        if lhs > mid && mid > rhs {
            Ok(())
        } else {
            Err(())
        }
    }
}

} // verus!
