use vcore::ast::{Case, Caseset, DecompAST, E, If, Ifset, io_p, wrVar};
use vcore::expr::{
    _Add, _And, _Branch, _Decomp, _Eq, _LAnd, _MTH, _Mul, _NumOut, _Num, _OLS, _RSHA, _StrOut, _Sub,
    _Veq, Addr, Form, Logi, MBit, Notc, Subs, addForm,
};
use vcore::stmt::{Assign, func};

fn sig(name: &str, width: i32) -> Box<E> {
    let mut v = wrVar::new();
    v.Wire(name, width)
}

fn text(e: &Box<E>, cnfg: &str, indent: i32) -> String {
    DecompAST(false, &**e, cnfg, indent)
}

#[test]
fn decomp_gives_back_the_parts() {
    let a = sig("a", 1);
    let b = sig("b", 1);
    let sum = _Add(a.clone(), b.clone());
    assert_eq!(_StrOut(_Decomp(sum.clone(), "L")), "a");
    assert_eq!(_StrOut(_Decomp(sum.clone(), "R")), "b");
    assert!(matches!(*_Decomp(sum.clone(), "X"), E::Null));
    assert_eq!(_StrOut(sum), "add");
    let asg = _Veq(a.clone(), b.clone());
    assert_eq!(_StrOut(_Decomp(asg.clone(), "L")), "a");
    assert_eq!(_StrOut(_Decomp(asg, "R")), "b");
    let c = sig("c", 1);
    let br = _Branch(c.clone(), a.clone(), b.clone());
    assert_eq!(_StrOut(_Decomp(br.clone(), "D")), "c");
    assert_eq!(_StrOut(_Decomp(br.clone(), "T")), "a");
    assert_eq!(_StrOut(_Decomp(br, "F")), "b");
    assert!(matches!(*_Decomp(a, "L"), E::Null));
}

#[test]
fn numbers_and_names_out() {
    let a = sig("a", 4);
    assert_eq!(_NumOut(a.clone()), 4);
    assert_eq!(_NumOut(_Num(9)), 9);
    assert_eq!(_NumOut(Box::new(E::Null)), 0);
    assert_eq!(_StrOut(a), "a");
    assert_eq!(_StrOut(_Num(9)), "Null");
}

#[test]
fn operators_and_parentheses() {
    let a = sig("a", 8);
    let b = sig("b", 8);
    let c = sig("c", 8);
    assert_eq!(text(&_Mul(a.clone(), _Add(b.clone(), c.clone())), "", 0), "a*(b+c)");
    assert_eq!(text(&_Sub(a.clone(), _Sub(b.clone(), c.clone())), "", 0), "a-b-c");
    assert_eq!(DecompAST(true, &*_Add(a.clone(), b.clone()), "", 0), "(a+b)");
    assert_eq!(DecompAST(true, &*_And(a.clone(), b.clone()), "", 0), "a&b");
    assert_eq!(text(&_RSHA(a.clone(), _Num(2)), "", 0), "a>>>2");
    assert_eq!(text(&_LAnd(a.clone(), b.clone()), "", 0), "a&&b");
    assert_eq!(text(&_Eq(a.clone(), _Num(-5)), "", 0), "a==-5");
    // the comparison names read the other way round
    assert_eq!(text(&_MTH(a.clone(), b.clone()), "", 0), "a<b");
    assert_eq!(text(&_OLS(a.clone(), b.clone()), "", 0), "a>=b");
    assert_eq!(text(&vcore::expr::PartialOrd::lt(a.clone(), b.clone()), "", 0), "a>b");
    assert_eq!(text(&vcore::expr::PartialOrd::ge(a.clone(), 3), "", 0), "a<=3");
    assert_eq!(text(&a.land(b.clone()), "", 0), "a&&b");
    assert_eq!(text(&a.lor(1), "", 0), "a||1");
    assert_eq!(text(&a.not(), "", 0), "~a");
    assert_eq!(text(&_Branch(c.clone(), a.clone(), b.clone()), "", 0), "(c)? a: b");
    assert_eq!(text(&a.addr(3), "", 0), "a[3]");
    assert_eq!(text(&a.range(7, 0), "", 0), "a[7:0]");
    assert_eq!(text(&a.range(b.clone(), c.clone()), "", 0), "a[b:c]");
}

#[test]
fn assignments_blocking_and_not() {
    let y = sig("y", 1);
    let a = sig("a", 1);
    assert_eq!(text(&_Veq(y.clone(), a.clone()), "brock", 1), "    y = a;\n");
    assert_eq!(text(&_Veq(y.clone(), a.clone()), "Non", 1), "    y <= a;\n");
    assert_eq!(text(&y.sst(0), "Non", 2), "        y <= 0;\n");
}

#[test]
fn if_else_if_else() {
    let y = sig("y", 1);
    let c = sig("c", 1);
    let d = sig("d", 1);
    let e = If(c, Form(_Veq(y.clone(), _Num(1))))
        .Else_If(d, Form(_Veq(y.clone(), _Num(2))))
        .Else(Form(_Veq(y.clone(), _Num(3))));
    assert_eq!(
        text(&e, "Non", 1),
        "    if(c) begin\n        y <= 1;\n    end\n    else if(d) begin\n        y <= 2;\n    end\n    else begin\n        y <= 3;\n    end\n"
    );
}

#[test]
fn if_without_condition_writes_its_statements_only() {
    let y = sig("y", 1);
    let e = If(Box::new(E::Null), Form(_Veq(y.clone(), _Num(1))).Form(_Veq(y, _Num(2))));
    assert_eq!(text(&e, "Non", 1), "    y <= 1;\n    y <= 2;\n");
}

#[test]
fn else_on_something_else_gives_null() {
    let c = sig("c", 1);
    assert!(matches!(*_Num(1).Else_If(c, Vec::new()), E::Null));
    assert!(matches!(*_Num(1).Else(Vec::new()), E::Null));
    assert!(matches!(*_Num(1).S(_Num(0), Vec::new()), E::Null));
    assert!(matches!(*_Num(1).Default(Vec::new()), E::Null));
}

#[test]
fn case_with_default() {
    let sel = sig("sel", 2);
    let y = sig("y", 1);
    let e = Case(sel).S(_Num(1), Form(_Veq(y.clone(), _Num(1)))).Default(Form(_Veq(y.clone(), _Num(0))));
    assert_eq!(text(&e, "brock", 0), "case (sel)\n    1 :y = 1;\n    default  :y = 0;\nendcase\n");
}

#[test]
fn function_call() {
    let mut f = func("inc", 8);
    let a = sig("a", 1);
    let b = sig("b", 1);
    let call = f.using(vec![a, b]);
    assert_eq!(text(&call, "", 0), "inc(a, b)");
}

#[test]
fn signal_builders_and_getters() {
    let mut v = wrVar::new();
    assert_eq!(v.getName(), "None");
    assert_eq!(v.getWP(), "_");
    v.Mem("m", 8, 16);
    assert_eq!(v.getName(), "m");
    assert_eq!(v.getWidth(), 8);
    assert_eq!(v.getLength(), 16);
    assert!(v.getReg());
    let mut p = wrVar::new();
    p.Parameter("N", 3);
    assert_eq!(p.getValue(), 3);
    assert!(matches!(p.getIO(), io_p::param_));
    let mut o = wrVar::new();
    o.OutputReg("q", 2);
    assert!(matches!(o.getIO(), io_p::output_));
    assert!(o.getReg());
    let mut l = wrVar::new();
    let l2 = l.Length("L");
    assert_eq!(l2.getLP(), "L");
}

#[test]
fn assign_builder() {
    let mut a = Assign::new();
    // each setter changes the assignment and returns a copy of it
    let mut b = a.L(sig("x", 1));
    let mut c = b.R(_Num(4));
    assert_eq!(_StrOut(c.LOut()), "x");
    assert_eq!(_NumOut(c.ROut()), 4);
    assert_eq!(_StrOut(a.LOut()), "x");
    assert_eq!(_NumOut(a.ROut()), 0);
}
