use std::collections::HashMap;

use rumpsteak_predicate::predicate::{
    EqualConst, EqualVar, GTnConst, GTnThree, GTnVar, LTnConst, LTnThree, LTnVar, Predicate,
    Tautology,
};

fn vals(pairs: &[(char, i32)]) -> HashMap<char, i32> {
    pairs.iter().cloned().collect()
}

#[test]
fn tautology_holds_on_every_map() {
    let t: Tautology<char, i32> = Tautology::default();
    assert_eq!(t.check(&HashMap::new()), Ok(()));
    assert_eq!(t.check(&vals(&[('x', 1), ('y', -3)])), Ok(()));
}

#[test]
fn ltn_var_compares_two_variables() {
    let p = LTnVar::<i32>::new('x', 'y');
    assert_eq!(p.check(&vals(&[('x', 1), ('y', 2)])), Ok(()));
    assert_eq!(p.check(&vals(&[('x', 2), ('y', 2)])), Err(()));
    assert_eq!(p.check(&vals(&[('x', 3), ('y', 2)])), Err(()));
    assert_eq!(p.check(&vals(&[('x', i32::MIN), ('y', i32::MAX)])), Ok(()));
}

#[test]
fn ltn_var_fails_on_a_missing_variable() {
    let p = LTnVar::<i32>::new('x', 'y');
    assert_eq!(p.check(&vals(&[('y', 2)])), Err(()));
    assert_eq!(p.check(&vals(&[('x', 1)])), Err(()));
    assert_eq!(p.check(&HashMap::new()), Err(()));
}

#[test]
fn ltn_var_on_other_value_types() {
    let p = LTnVar::<u64>::new('a', 'b');
    let mut m = HashMap::new();
    m.insert('a', 7u64);
    m.insert('b', 70u64);
    assert_eq!(p.check(&m), Ok(()));
    let q = LTnVar::<String>::new('a', 'b');
    let mut s = HashMap::new();
    s.insert('a', "apple".to_string());
    s.insert('b', "banana".to_string());
    assert_eq!(q.check(&s), Ok(()));
    s.insert('a', "cherry".to_string());
    assert_eq!(q.check(&s), Err(()));
}

#[test]
fn gtn_var_compares_two_variables() {
    let p = GTnVar::<i32>::new('x', 'y');
    assert_eq!(p.check(&vals(&[('x', 3), ('y', 2)])), Ok(()));
    assert_eq!(p.check(&vals(&[('x', 2), ('y', 2)])), Err(()));
    assert_eq!(p.check(&vals(&[('x', 1), ('y', 2)])), Err(()));
    assert_eq!(p.check(&vals(&[('x', 3)])), Err(()));
}

#[test]
fn gtn_var_is_flipped_ltn_var() {
    let g = GTnVar::<i32>::new('x', 'y');
    let l = LTnVar::<i32>::new('y', 'x');
    for (a, b) in [(1, 2), (2, 2), (3, 2), (-5, 5)] {
        let m = vals(&[('x', a), ('y', b)]);
        assert_eq!(g.check(&m), l.check(&m));
    }
}

#[test]
fn ltn_const_compares_with_a_constant() {
    let p = LTnConst::new('x', 10);
    assert_eq!(p.check(&vals(&[('x', 9)])), Ok(()));
    assert_eq!(p.check(&vals(&[('x', 10)])), Err(()));
    assert_eq!(p.check(&vals(&[('x', 11)])), Err(()));
    assert_eq!(p.check(&vals(&[('y', 1)])), Err(()));
}

#[test]
fn gtn_const_compares_with_a_constant() {
    let p = GTnConst::new('x', 11);
    assert_eq!(p.check(&vals(&[('x', 12)])), Ok(()));
    assert_eq!(p.check(&vals(&[('x', 11)])), Err(()));
    assert_eq!(p.check(&vals(&[('x', -12)])), Err(()));
    assert_eq!(p.check(&HashMap::new()), Err(()));
}

#[test]
fn equal_const_compares_with_a_constant() {
    let p = EqualConst::new('x', -4);
    assert_eq!(p.check(&vals(&[('x', -4)])), Ok(()));
    assert_eq!(p.check(&vals(&[('x', 4)])), Err(()));
    assert_eq!(p.check(&vals(&[('z', -4)])), Err(()));
}

#[test]
fn exactly_one_constant_comparison_holds() {
    for v in [-20, 9, 10, 11, 20] {
        let m = vals(&[('x', v)]);
        let hits = [
            LTnConst::new('x', 10).check(&m).is_ok(),
            EqualConst::new('x', 10).check(&m).is_ok(),
            GTnConst::new('x', 10).check(&m).is_ok(),
        ];
        assert_eq!(hits.iter().filter(|h| **h).count(), 1);
    }
    let empty = vals(&[]);
    assert!(LTnConst::new('x', 10).check(&empty).is_err());
    assert!(EqualConst::new('x', 10).check(&empty).is_err());
    assert!(GTnConst::new('x', 10).check(&empty).is_err());
}

#[test]
fn equal_var_compares_two_variables() {
    let p = EqualVar::<i32>::new('x', 'y');
    assert_eq!(p.check(&vals(&[('x', 2), ('y', 2)])), Ok(()));
    assert_eq!(p.check(&vals(&[('x', 2), ('y', 3)])), Err(()));
    assert_eq!(p.check(&vals(&[('x', 2)])), Err(()));
    let q = EqualVar::<i32>::new('y', 'x');
    for (a, b) in [(1, 1), (1, 2)] {
        let m = vals(&[('x', a), ('y', b)]);
        assert_eq!(p.check(&m), q.check(&m));
    }
}

#[test]
fn equal_var_with_the_same_variable_twice() {
    let p = EqualVar::<i32>::new('x', 'x');
    assert_eq!(p.check(&vals(&[('x', 5)])), Ok(()));
    assert_eq!(p.check(&vals(&[])), Err(()));
}

#[test]
fn ltn_three_needs_a_strict_chain() {
    let p = LTnThree::<i32>::new('a', 'b', 'c');
    assert_eq!(p.check(&vals(&[('a', 1), ('b', 2), ('c', 3)])), Ok(()));
    assert_eq!(p.check(&vals(&[('a', 1), ('b', 2), ('c', 2)])), Err(()));
    assert_eq!(p.check(&vals(&[('a', 2), ('b', 2), ('c', 3)])), Err(()));
    assert_eq!(p.check(&vals(&[('a', 3), ('b', 2), ('c', 1)])), Err(()));
    assert_eq!(p.check(&vals(&[('a', 1), ('c', 3)])), Err(()));
}

#[test]
fn gtn_three_needs_a_strict_chain() {
    let p = GTnThree::<i32>::new('a', 'b', 'c');
    assert_eq!(p.check(&vals(&[('a', 3), ('b', 2), ('c', 1)])), Ok(()));
    assert_eq!(p.check(&vals(&[('a', 3), ('b', 3), ('c', 1)])), Err(()));
    assert_eq!(p.check(&vals(&[('a', 1), ('b', 2), ('c', 3)])), Err(()));
    assert_eq!(p.check(&vals(&[('a', 3), ('b', 2)])), Err(()));
    let flipped = LTnThree::<i32>::new('c', 'b', 'a');
    for (x, y, z) in [(3, 2, 1), (1, 2, 3), (2, 2, 2), (5, 1, 0)] {
        let m = vals(&[('a', x), ('b', y), ('c', z)]);
        assert_eq!(p.check(&m), flipped.check(&m));
    }
}

#[test]
fn ltn_three_is_two_ltn_vars() {
    let t = LTnThree::<i32>::new('a', 'b', 'c');
    let ab = LTnVar::<i32>::new('a', 'b');
    let bc = LTnVar::<i32>::new('b', 'c');
    let ac = LTnVar::<i32>::new('a', 'c');
    for (x, y, z) in [(1, 2, 3), (1, 3, 2), (2, 1, 3), (0, 0, 0)] {
        let m = vals(&[('a', x), ('b', y), ('c', z)]);
        assert_eq!(t.check(&m).is_ok(), ab.check(&m).is_ok() && bc.check(&m).is_ok());
        if t.check(&m).is_ok() {
            assert!(ac.check(&m).is_ok());
        }
    }
}
