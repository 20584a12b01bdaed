use std::collections::HashMap;

use rumpsteak_predicate::formula::{Formula, LTn, ParseError};
use rumpsteak_predicate::predicate::{LTnVar, Predicate};

fn named(pairs: &[(&str, i32)]) -> HashMap<String, i32> {
    pairs.iter().map(|(k, v)| (k.to_string(), *v)).collect()
}

fn parse(s: &str) -> Result<Formula<String, i32>, ParseError> {
    Formula::try_from(s)
}

fn check(f: &Formula<String, i32>, m: &HashMap<String, i32>) -> Result<(), ()> {
    match f {
        Formula::LTn(l) => l.check(m),
    }
}

#[test]
fn ltn_checks_two_named_variables() {
    let p: LTn<String, i32> = LTn::new("x".to_string(), "y".to_string());
    let mut m = named(&[("x", 1), ("y", 2)]);
    assert_eq!(p.check(&m), Ok(()));
    m.insert("x".to_string(), 2);
    assert_eq!(p.check(&m), Err(()));
    m.remove("y");
    assert_eq!(p.check(&m), Err(()));
}

#[test]
fn ltn_with_char_names() {
    let p: LTn<char, i64> = LTn::new('x', 'y');
    let mut m = HashMap::new();
    m.insert('x', -1i64);
    m.insert('y', 0i64);
    assert_eq!(p.check(&m), Ok(()));
    m.insert('y', -1i64);
    assert_eq!(p.check(&m), Err(()));
}

#[test]
fn ltn_with_char_names_agrees_with_ltn_var() {
    let f: LTn<char, i32> = LTn::new('x', 'y');
    let p = LTnVar::<i32>::new('x', 'y');
    for pairs in [
        vec![('x', 1), ('y', 2)],
        vec![('x', 2), ('y', 1)],
        vec![('x', 1), ('y', 1)],
        vec![('x', 1)],
        vec![],
    ] {
        let m: HashMap<char, i32> = pairs.into_iter().collect();
        assert_eq!(f.check(&m), p.check(&m));
    }
}

#[test]
fn ltn_with_integer_names() {
    let p: LTn<u64, i32> = LTn::new(3, 4);
    let mut m = HashMap::new();
    m.insert(3u64, 10);
    m.insert(4u64, 20);
    assert_eq!(p.check(&m), Ok(()));
    m.insert(4u64, 10);
    assert_eq!(p.check(&m), Err(()));
    m.remove(&3u64);
    assert_eq!(p.check(&m), Err(()));
}

#[test]
fn from_names_reads_both_names() {
    let p: LTn<String, i32> = LTn::from_names("low", "high");
    assert_eq!(p.check(&named(&[("low", 1), ("high", 2)])), Ok(()));
    assert_eq!(p.check(&named(&[("low", 2), ("high", 1)])), Err(()));
}

#[test]
fn parses_a_bare_formula() {
    let f = parse("a<b").unwrap();
    assert_eq!(check(&f, &named(&[("a", 1), ("b", 2)])), Ok(()));
    assert_eq!(check(&f, &named(&[("a", 2), ("b", 1)])), Err(()));
    assert_eq!(check(&f, &named(&[("a", 1)])), Err(()));
}

#[test]
fn parses_a_formula_with_blanks_and_long_names() {
    let f = parse("  x_1 <\ty2\n").unwrap();
    assert_eq!(check(&f, &named(&[("x_1", -3), ("y2", 0)])), Ok(()));
    assert_eq!(check(&f, &named(&[("x_1", 3), ("y2", 0)])), Err(()));
    assert_eq!(check(&f, &named(&[("x", -3), ("y2", 0)])), Err(()));
}

#[test]
fn names_are_kept_whole() {
    let f = parse("ab<cd").unwrap();
    assert_eq!(check(&f, &named(&[("ab", 1), ("cd", 2)])), Ok(()));
    assert_eq!(check(&f, &named(&[("a", 1), ("cd", 2)])), Err(()));
    assert_eq!(check(&f, &named(&[("ab", 1), ("c", 2)])), Err(()));
}

#[test]
fn rejects_text_that_is_not_a_formula() {
    for s in [
        "", " ", "a", "a<", "<b", "a<b<c", "a>b", "a b<c", "a<b c", "a-b<c", "é<b", "a<<b", "a = b",
    ] {
        assert_eq!(parse(s).err(), Some(ParseError), "{:?}", s);
    }
}
