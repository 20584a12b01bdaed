use std::collections::HashMap;
use std::hash::Hash;
use vstd::prelude::*;

verus! {

broadcast use vstd::std_specs::hash::group_hash_axioms;

/// Looks up the value of variable `name` in the valuation `m`, by
/// `HashMap::get`.
///
/// Trusted: `std::collections::HashMap::get` returns the value stored under
/// a key equal to `name`, and `None` when no such key is stored. The claim
/// is stated over the abstract map `m@`. vstd states it for integer keys
/// only; `char` hashes deterministically and compares by its code point, so
/// the same holds for it.
#[verifier::external_body]
pub(crate) fn value_of<V>(m: &HashMap<char, V>, name: char) -> (r: Option<&V>)
    ensures
        match r {
            Some(v) => m@.contains_key(name) && m@[name] == *v,
            None => !m@.contains_key(name),
        },
{
    m.get(&name)
}

/// Looks up the value of the variable named by the text `name` in `m`, by
/// `HashMap::get`.
///
/// Trusted: `std::collections::HashMap::get` on `String` keys returns the
/// value stored under the key whose text equals that of `name`, and `None`
/// when no stored key has that text. A `HashMap` holds at most one key per
/// text, since `String` compares by its text; the claim is stated over the
/// stored key whose text is that of `name`.
#[verifier::external_body]
fn value_of_named<'a, V>(m: &'a HashMap<String, V>, name: &String) -> (r: Option<&'a V>)
    ensures
        match r {
            Some(v) => {
                &&& exists|k: String| #[trigger] m@.contains_key(k) && k.id() == name.id()
                &&& m@[choose|k: String| #[trigger] m@.contains_key(k) && k.id() == name.id()] == *v
            },
            None => !exists|k: String| #[trigger] m@.contains_key(k) && k.id() == name.id(),
        },
{
    m.get(name)
}

/// A type whose values name variables: each value identifies a variable by
/// `id`, and the values of a map keyed by such names can be looked up.
pub trait VarName: Eq + Hash + Sized {
    /// What identifies a variable.
    type Id;

    /// The variable that this value names.
    spec fn id(&self) -> Self::Id;

    /// The value of variable `name` in `m`, if it has one.
    fn lookup<'a, V>(m: &'a HashMap<Self, V>, name: &Self) -> (r: Option<&'a V>)
        ensures
            match r {
                Some(v) => {
                    &&& exists|k: Self| #[trigger] m@.contains_key(k) && k.id() == name.id()
                    &&& m@[choose|k: Self| #[trigger] m@.contains_key(k) && k.id() == name.id()]
                        == *v
                },
                None => !exists|k: Self| #[trigger] m@.contains_key(k) && k.id() == name.id(),
            },
    ;
}

/// The valuation `m`, keyed by the variables that its keys name.
pub open spec fn by_name<N: VarName, V>(m: Map<N, V>) -> Map<N::Id, V> {
    Map::new(
        |i: N::Id| exists|k: N| #[trigger] m.contains_key(k) && k.id() == i,
        |i: N::Id| m[choose|k: N| #[trigger] m.contains_key(k) && k.id() == i],
    )
}

impl VarName for char {
    type Id = char;

    open spec fn id(&self) -> char {
        *self
    }

    fn lookup<'a, V>(m: &'a HashMap<char, V>, name: &char) -> (r: Option<&'a V>) {
        let r = value_of(m, *name);
        proof {
            if r is Some {
                assert(m@.contains_key(*name) && (*name).id() == name.id());
            }
        }
        r
    }
}

impl VarName for String {
    type Id = Seq<char>;

    open spec fn id(&self) -> Seq<char> {
        self@
    }

    fn lookup<'a, V>(m: &'a HashMap<String, V>, name: &String) -> (r: Option<&'a V>) {
        value_of_named(m, name)
    }
}

impl VarName for u32 {
    type Id = u32;

    open spec fn id(&self) -> u32 {
        *self
    }

    fn lookup<'a, V>(m: &'a HashMap<u32, V>, name: &u32) -> (r: Option<&'a V>) {
        let r = m.get(name);
        proof {
            if r is Some {
                assert(m@.contains_key(*name) && (*name).id() == name.id());
            }
        }
        r
    }
}

impl VarName for u64 {
    type Id = u64;

    open spec fn id(&self) -> u64 {
        *self
    }

    fn lookup<'a, V>(m: &'a HashMap<u64, V>, name: &u64) -> (r: Option<&'a V>) {
        let r = m.get(name);
        proof {
            if r is Some {
                assert(m@.contains_key(*name) && (*name).id() == name.id());
            }
        }
        r
    }
}

impl VarName for usize {
    type Id = usize;

    open spec fn id(&self) -> usize {
        *self
    }

    fn lookup<'a, V>(m: &'a HashMap<usize, V>, name: &usize) -> (r: Option<&'a V>) {
        let r = m.get(name);
        proof {
            if r is Some {
                assert(m@.contains_key(*name) && (*name).id() == name.id());
            }
        }
        r
    }
}

impl VarName for i32 {
    type Id = i32;

    open spec fn id(&self) -> i32 {
        *self
    }

    fn lookup<'a, V>(m: &'a HashMap<i32, V>, name: &i32) -> (r: Option<&'a V>) {
        let r = m.get(name);
        proof {
            if r is Some {
                assert(m@.contains_key(*name) && (*name).id() == name.id());
            }
        }
        r
    }
}

impl VarName for i64 {
    type Id = i64;

    open spec fn id(&self) -> i64 {
        *self
    }

    fn lookup<'a, V>(m: &'a HashMap<i64, V>, name: &i64) -> (r: Option<&'a V>) {
        let r = m.get(name);
        proof {
            if r is Some {
                assert(m@.contains_key(*name) && (*name).id() == name.id());
            }
        }
        r
    }
}

} // verus!
