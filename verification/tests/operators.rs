use vcore::ast::{DecompAST, E, wrVar};
use vcore::expr::{_NumOut, _StrOut};

fn sig(name: &str) -> Box<E> {
    let mut v = wrVar::new();
    v.Wire(name, 8)
}

fn text(e: &Box<E>) -> String {
    DecompAST(false, &**e, "", 0)
}

#[test]
fn binary_operators_build_operations() {
    let a = sig("a");
    let b = sig("b");
    assert_eq!(text(&(a.clone() + b.clone())), "a+b");
    assert_eq!(text(&(a.clone() - 1)), "a-1");
    assert_eq!(text(&(a.clone() * (b.clone() + 1))), "a*(b+1)");
    assert_eq!(text(&(a.clone() / b.clone())), "a/b");
    assert_eq!(text(&(a.clone() % 4)), "a%4");
    assert_eq!(text(&(a.clone() | b.clone())), "a|b");
    assert_eq!(text(&(a.clone() & b.clone())), "a&b");
    assert_eq!(text(&(a.clone() ^ 3)), "a^3");
    assert_eq!(text(&(a.clone() << 2)), "a<<2");
    assert_eq!(text(&(a.clone() >> b.clone())), "a>>b");
    assert_eq!(_StrOut(a.clone() + b.clone()), "add");
    assert_eq!(_StrOut(a.clone() % b.clone()), "mod");
}

#[test]
fn operators_on_borrowed_expressions() {
    let a = sig("a");
    let b = sig("b");
    assert_eq!(text(&(&a + b.clone())), "a+b");
    assert_eq!(text(&(&a - 1)), "a-1");
    assert_eq!(text(&(&a << 1)), "a<<1");
    assert_eq!(_StrOut(a), "a");
}

#[test]
fn not_operator() {
    let a = sig("a");
    assert_eq!(text(&!a), "~a");
}

#[test]
fn conversions_into_expressions() {
    let five: Box<E> = Box::from(5);
    assert_eq!(_NumOut(five), 5);
    let seven: Box<E> = Box::from(&7);
    assert_eq!(_NumOut(seven), 7);
    let a = sig("a");
    let copy: Box<E> = Box::from(&a);
    assert_eq!(_StrOut(copy), "a");
    let mut m = sig("m");
    let copy2: Box<E> = Box::from(&mut m);
    assert_eq!(_StrOut(copy2), "m");
}
