//! Building expressions and statements: numbers, operators, assignments,
//! conditionals, memory and bit-range selections, and statement lists.

use vstd::prelude::*;
use crate::ast::{E, EV, clone_box, views_of, lemma_views_of};

verus! {

/// A signal as an expression.
pub fn _V(V: crate::ast::wrVar) -> (r: Box<E>)
    ensures
        *r == E::Ldc(V),
{
    Box::new(E::Ldc(V))
}

/// A number.
pub fn _Num(num: i32) -> (r: Box<E>)
    ensures
        r@ == EV::Num(num),
{
    Box::new(E::Num(num))
}

/// The assignment `L = R` (`L <= R` in a non-blocking block).
pub fn _Veq(L: Box<E>, R: Box<E>) -> (r: Box<E>)
    ensures
        r@ == EV::SB(Box::new(L@), Box::new(R@)),
{
    Box::new(E::SB(L, R))
}

/// The conditional `(Terms)? TrueNode: FalseNode`.
pub fn _Branch(Terms: Box<E>, TrueNode: Box<E>, FalseNode: Box<E>) -> (r: Box<E>)
    ensures
        r@ == EV::PL(Box::new(Terms@), Box::new(TrueNode@), Box::new(FalseNode@)),
{
    Box::new(E::PL(Terms, TrueNode, FalseNode))
}

/// The model of the binary operation named `op`.
pub open spec fn bin(op: Seq<char>, l: EV, r: EV) -> EV {
    EV::Bin(op, Box::new(l), Box::new(r))
}

fn bin_node(op: &str, L: Box<E>, R: Box<E>) -> (r: Box<E>)
    ensures
        r@ == bin(op@, L@, R@),
{
    Box::new(E::Bin(op.to_owned(), L, R))
}

/// `L + R`.
pub fn _Add(L: Box<E>, R: Box<E>) -> (r: Box<E>)
    ensures
        r@ == bin("add"@, L@, R@),
{
    bin_node("add", L, R)
}

/// `L - R`.
pub fn _Sub(L: Box<E>, R: Box<E>) -> (r: Box<E>)
    ensures
        r@ == bin("sub"@, L@, R@),
{
    bin_node("sub", L, R)
}

/// `L * R`.
pub fn _Mul(L: Box<E>, R: Box<E>) -> (r: Box<E>)
    ensures
        r@ == bin("mul"@, L@, R@),
{
    bin_node("mul", L, R)
}

/// `L / R`.
pub fn _Div(L: Box<E>, R: Box<E>) -> (r: Box<E>)
    ensures
        r@ == bin("div"@, L@, R@),
{
    bin_node("div", L, R)
}

/// `L % R`.
pub fn _Mod(L: Box<E>, R: Box<E>) -> (r: Box<E>)
    ensures
        r@ == bin("mod"@, L@, R@),
{
    bin_node("mod", L, R)
}

/// `L || R`.
pub fn _LOr(L: Box<E>, R: Box<E>) -> (r: Box<E>)
    ensures
        r@ == bin("lor"@, L@, R@),
{
    bin_node("lor", L, R)
}

/// `L && R`.
pub fn _LAnd(L: Box<E>, R: Box<E>) -> (r: Box<E>)
    ensures
        r@ == bin("land"@, L@, R@),
{
    bin_node("land", L, R)
}

/// `L | R`.
pub fn _Or(L: Box<E>, R: Box<E>) -> (r: Box<E>)
    ensures
        r@ == bin("or"@, L@, R@),
{
    bin_node("or", L, R)
}

/// `L & R`.
pub fn _And(L: Box<E>, R: Box<E>) -> (r: Box<E>)
    ensures
        r@ == bin("and"@, L@, R@),
{
    bin_node("and", L, R)
}

/// `L ^ R`.
pub fn _Xor(L: Box<E>, R: Box<E>) -> (r: Box<E>)
    ensures
        r@ == bin("xor"@, L@, R@),
{
    bin_node("xor", L, R)
}

/// `L == R`.
pub fn _Eq(L: Box<E>, R: Box<E>) -> (r: Box<E>)
    ensures
        r@ == bin("equal"@, L@, R@),
{
    bin_node("equal", L, R)
}

/// `L != R`.
pub fn _Neq(L: Box<E>, R: Box<E>) -> (r: Box<E>)
    ensures
        r@ == bin("Not equal"@, L@, R@),
{
    bin_node("Not equal", L, R)
}

/// `L << R`.
pub fn _LSH(L: Box<E>, R: Box<E>) -> (r: Box<E>)
    ensures
        r@ == bin("lshift"@, L@, R@),
{
    bin_node("lshift", L, R)
}

/// `L >> R`.
pub fn _RSH(L: Box<E>, R: Box<E>) -> (r: Box<E>)
    ensures
        r@ == bin("rshift"@, L@, R@),
{
    bin_node("rshift", L, R)
}

/// `L >>> R` (arithmetic shift).
pub fn _RSHA(L: Box<E>, R: Box<E>) -> (r: Box<E>)
    ensures
        r@ == bin("rshifta"@, L@, R@),
{
    bin_node("rshifta", L, R)
}

/// `L < R`.
pub fn _MTH(L: Box<E>, R: Box<E>) -> (r: Box<E>)
    ensures
        r@ == bin("more_than"@, L@, R@),
{
    bin_node("more_than", L, R)
}

/// `L > R`.
pub fn _LTH(L: Box<E>, R: Box<E>) -> (r: Box<E>)
    ensures
        r@ == bin("less_than"@, L@, R@),
{
    bin_node("less_than", L, R)
}

/// `L <= R`.
pub fn _OMR(L: Box<E>, R: Box<E>) -> (r: Box<E>)
    ensures
        r@ == bin("or_more"@, L@, R@),
{
    bin_node("or_more", L, R)
}

/// `L >= R`.
pub fn _OLS(L: Box<E>, R: Box<E>) -> (r: Box<E>)
    ensures
        r@ == bin("or_less"@, L@, R@),
{
    bin_node("or_less", L, R)
}

/// Bitwise negation `~x`.
pub trait Notc {
    fn not(&self) -> Box<E>;
}

impl Notc for Box<E> {
    fn not(&self) -> (r: Box<E>)
        ensures
            r@ == EV::No(Box::new(self@)),
    {
        Box::new(E::No(clone_box(self)))
    }
}

/// Comparison for equality, building `==` and `!=` expressions.
pub trait PartialEq<Rhs = Self> {
    fn eq(self, other: Rhs) -> Box<E>;

    fn ne(self, other: Rhs) -> Box<E>;
}

impl PartialEq<Box<E>> for Box<E> {
    fn eq(self, other: Box<E>) -> (r: Box<E>)
        ensures
            r@ == bin("equal"@, self@, other@),
    {
        _Eq(self, other)
    }

    fn ne(self, other: Box<E>) -> (r: Box<E>)
        ensures
            r@ == bin("Not equal"@, self@, other@),
    {
        _Neq(self, other)
    }
}

impl PartialEq<i32> for Box<E> {
    fn eq(self, other: i32) -> (r: Box<E>)
        ensures
            r@ == bin("equal"@, self@, EV::Num(other)),
    {
        _Eq(self, _Num(other))
    }

    fn ne(self, other: i32) -> (r: Box<E>)
        ensures
            r@ == bin("Not equal"@, self@, EV::Num(other)),
    {
        _Neq(self, _Num(other))
    }
}

/// Ordering comparisons, building `<`, `<=`, `>` and `>=` expressions.
pub trait PartialOrd<Rhs = Self> {
    fn lt(self, other: Rhs) -> Box<E>;

    fn le(self, other: Rhs) -> Box<E>;

    fn gt(self, other: Rhs) -> Box<E>;

    fn ge(self, other: Rhs) -> Box<E>;
}

impl PartialOrd<Box<E>> for Box<E> {
    /// `self > other`, the way round the operator names have it.
    fn lt(self, other: Box<E>) -> (r: Box<E>)
        ensures
            r@ == bin("less_than"@, self@, other@),
    {
        _LTH(self, other)
    }

    fn le(self, other: Box<E>) -> (r: Box<E>)
        ensures
            r@ == bin("or_less"@, self@, other@),
    {
        _OLS(self, other)
    }

    fn gt(self, other: Box<E>) -> (r: Box<E>)
        ensures
            r@ == bin("more_than"@, self@, other@),
    {
        _MTH(self, other)
    }

    fn ge(self, other: Box<E>) -> (r: Box<E>)
        ensures
            r@ == bin("or_more"@, self@, other@),
    {
        _OMR(self, other)
    }
}

impl PartialOrd<i32> for Box<E> {
    fn lt(self, other: i32) -> (r: Box<E>)
        ensures
            r@ == bin("less_than"@, self@, EV::Num(other)),
    {
        _LTH(self, _Num(other))
    }

    fn le(self, other: i32) -> (r: Box<E>)
        ensures
            r@ == bin("or_less"@, self@, EV::Num(other)),
    {
        _OLS(self, _Num(other))
    }

    fn gt(self, other: i32) -> (r: Box<E>)
        ensures
            r@ == bin("more_than"@, self@, EV::Num(other)),
    {
        _MTH(self, _Num(other))
    }

    fn ge(self, other: i32) -> (r: Box<E>)
        ensures
            r@ == bin("or_more"@, self@, EV::Num(other)),
    {
        _OMR(self, _Num(other))
    }
}

/// Building an assignment statement.
pub trait Subs<Rhs = Self> {
    fn sst(&self, other: Rhs) -> Box<E>;
}

impl Subs<Box<E>> for Box<E> {
    fn sst(&self, other: Box<E>) -> (r: Box<E>)
        ensures
            r@ == EV::SB(Box::new(self@), Box::new(other@)),
    {
        _Veq(clone_box(self), other)
    }
}

impl Subs<i32> for Box<E> {
    fn sst(&self, other: i32) -> (r: Box<E>)
        ensures
            r@ == EV::SB(Box::new(self@), Box::new(EV::Num(other))),
    {
        _Veq(clone_box(self), _Num(other))
    }
}

/// Building logical `&&` and `||` expressions.
pub trait Logi<Rhs = Self> {
    fn land(&self, other: Rhs) -> Box<E>;

    fn lor(&self, other: Rhs) -> Box<E>;
}

impl Logi<Box<E>> for Box<E> {
    fn land(&self, other: Box<E>) -> (r: Box<E>)
        ensures
            r@ == bin("land"@, self@, other@),
    {
        _LAnd(clone_box(self), other)
    }

    fn lor(&self, other: Box<E>) -> (r: Box<E>)
        ensures
            r@ == bin("lor"@, self@, other@),
    {
        _LOr(clone_box(self), other)
    }
}

impl Logi<i32> for Box<E> {
    fn land(&self, other: i32) -> (r: Box<E>)
        ensures
            r@ == bin("land"@, self@, EV::Num(other)),
    {
        _LAnd(clone_box(self), _Num(other))
    }

    fn lor(&self, other: i32) -> (r: Box<E>)
        ensures
            r@ == bin("lor"@, self@, EV::Num(other)),
    {
        _LOr(clone_box(self), _Num(other))
    }
}

/// Selecting a memory word: `self[address]`.
pub trait Addr<Rs = Self> {
    fn addr(&self, address: Rs) -> Box<E>;
}

impl Addr<Box<E>> for Box<E> {
    fn addr(&self, address: Box<E>) -> (r: Box<E>)
        ensures
            r@ == EV::MEM(Box::new(self@), Box::new(address@)),
    {
        Box::new(E::MEM(clone_box(self), address))
    }
}

impl Addr<i32> for Box<E> {
    fn addr(&self, address: i32) -> (r: Box<E>)
        ensures
            r@ == EV::MEM(Box::new(self@), Box::new(EV::Num(address))),
    {
        Box::new(E::MEM(clone_box(self), _Num(address)))
    }
}

/// Selecting a bit range: `self[hbit:lbit]`.
pub trait MBit<Rs = Self> {
    fn range(&self, hbit: Rs, lbit: Rs) -> Box<E>;
}

impl MBit<Box<E>> for Box<E> {
    fn range(&self, hbit: Box<E>, lbit: Box<E>) -> (r: Box<E>)
        ensures
            r@ == EV::MBT(Box::new(self@), Box::new(hbit@), Box::new(lbit@)),
    {
        Box::new(E::MBT(clone_box(self), hbit, lbit))
    }
}

impl MBit<i32> for Box<E> {
    fn range(&self, hbit: i32, lbit: i32) -> (r: Box<E>)
        ensures
            r@ == EV::MBT(Box::new(self@), Box::new(EV::Num(hbit)), Box::new(EV::Num(lbit))),
    {
        Box::new(E::MBT(clone_box(self), _Num(hbit), _Num(lbit)))
    }
}

/// A statement list holding one statement.
pub fn Form(formu: Box<E>) -> (r: Vec<Box<E>>)
    ensures
        r@ == seq![formu],
{
    let mut tmp = Vec::new();
    tmp.push(formu);
    tmp
}

/// Adding a statement to a statement list.
pub trait addForm<T> {
    fn Form(self, formu: T) -> Vec<Box<E>>;
}

impl addForm<Box<E>> for Vec<Box<E>> {
    fn Form(self, formu: Box<E>) -> (r: Vec<Box<E>>)
        ensures
            r@ == self@.push(formu),
    {
        let mut tmp = self;
        tmp.push(formu);
        tmp
    }
}

impl addForm<i32> for Vec<Box<E>> {
    fn Form(self, formu: i32) -> (r: Vec<Box<E>>)
        ensures
            views_of(r@) == views_of(self@).push(EV::Num(formu)),
    {
        let mut tmp = self;
        let ghost s0 = tmp@;
        tmp.push(_Num(formu));
        proof {
            lemma_views_of(s0);
            lemma_views_of(tmp@);
        }
        assert(views_of(tmp@) =~= views_of(s0).push(EV::Num(formu)));
        tmp
    }
}

/// One part of a binary operation ("L", "R"), of a conditional ("D", "T", "F"),
/// or of an assignment ("L", "R"); `Null` for anything else.
pub open spec fn decomp_part(e: EV, sel: Seq<char>) -> EV {
    match e {
        EV::Bin(_, l, r) => if sel == "L"@ { *l } else if sel == "R"@ { *r } else { EV::Null },
        EV::PL(d, t, f) => if sel == "D"@ { *d } else if sel == "T"@ { *t } else if sel == "F"@ {
            *f
        } else {
            EV::Null
        },
        EV::SB(l, r) => if sel == "L"@ { *l } else if sel == "R"@ { *r } else { EV::Null },
        _ => EV::Null,
    }
}

/// Takes an expression apart.
pub fn _Decomp(e: Box<E>, Sel: &str) -> (r: Box<E>)
    ensures
        r@ == decomp_part(e@, Sel@),
{
    match *e {
        E::Bin(_, L, R) => {
            if crate::text::str_eq(Sel, "L") {
                L
            } else if crate::text::str_eq(Sel, "R") {
                R
            } else {
                Box::new(E::Null)
            }
        },
        E::PL(D, T, F) => {
            if crate::text::str_eq(Sel, "D") {
                D
            } else if crate::text::str_eq(Sel, "T") {
                T
            } else if crate::text::str_eq(Sel, "F") {
                F
            } else {
                Box::new(E::Null)
            }
        },
        E::SB(L, R) => {
            if crate::text::str_eq(Sel, "L") {
                L
            } else if crate::text::str_eq(Sel, "R") {
                R
            } else {
                Box::new(E::Null)
            }
        },
        _ => Box::new(E::Null),
    }
}

/// The name of a signal, the operator of a binary operation, else "Null".
pub open spec fn str_out(e: EV) -> Seq<char> {
    match e {
        EV::Ldc(w) => w.name,
        EV::Bin(op, _, _) => op,
        _ => "Null"@,
    }
}

/// The name of a signal, the operator of a binary operation, else "Null".
pub fn _StrOut(e: Box<E>) -> (r: String)
    ensures
        r@ == str_out(e@),
{
    match &*e {
        E::Ldc(WR) => WR.getName(),
        E::Bin(Op, _, _) => Op.as_str().to_owned(),
        _ => "Null".to_owned(),
    }
}

/// The width of a signal, the value of a number, else 0.
pub open spec fn num_out(e: EV) -> i32 {
    match e {
        EV::Ldc(w) => w.width,
        EV::Num(i) => i,
        _ => 0,
    }
}

/// The width of a signal, the value of a number, else 0.
pub fn _NumOut(e: Box<E>) -> (r: i32)
    ensures
        r == num_out(e@),
{
    match &*e {
        E::Ldc(WR) => WR.getWidth(),
        E::Num(i) => *i,
        _ => 0,
    }
}

} // verus!
