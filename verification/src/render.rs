//! What Verilog text an expression or statement model stands for, and on which
//! models writing it out succeeds.

use vstd::prelude::*;
use crate::ast::{EV, IfModel, CaseModel, ArmModel};
use crate::text::{spec_dec, spec_indent};

verus! {

/// `t` when `b` holds, else nothing.
pub open spec fn opt_text(b: bool, t: Seq<char>) -> Seq<char> {
    if b { t } else { Seq::empty() }
}

/// The binary operator names that have a Verilog symbol.
pub open spec fn is_bin_op(op: Seq<char>) -> bool {
    ||| op == "add"@
    ||| op == "sub"@
    ||| op == "mul"@
    ||| op == "div"@
    ||| op == "mod"@
    ||| op == "or"@
    ||| op == "and"@
    ||| op == "xor"@
    ||| op == "lor"@
    ||| op == "land"@
    ||| op == "lshift"@
    ||| op == "rshift"@
    ||| op == "rshifta"@
    ||| op == "equal"@
    ||| op == "Not equal"@
    ||| op == "more_than"@
    ||| op == "less_than"@
    ||| op == "or_more"@
    ||| op == "or_less"@
}

/// The Verilog symbol of a binary operator name.
pub open spec fn bin_text(op: Seq<char>) -> Seq<char> {
    if op == "add"@ { "+"@ }
    else if op == "sub"@ { "-"@ }
    else if op == "mul"@ { "*"@ }
    else if op == "div"@ { "/"@ }
    else if op == "mod"@ { "%"@ }
    else if op == "or"@ { "|"@ }
    else if op == "and"@ { "&"@ }
    else if op == "xor"@ { "^"@ }
    else if op == "lor"@ { "||"@ }
    else if op == "land"@ { "&&"@ }
    else if op == "lshift"@ { "<<"@ }
    else if op == "rshift"@ { ">>"@ }
    else if op == "rshifta"@ { ">>>"@ }
    else if op == "equal"@ { "=="@ }
    else if op == "Not equal"@ { "!="@ }
    else if op == "more_than"@ { "<"@ }
    else if op == "less_than"@ { ">"@ }
    else if op == "or_more"@ { "<="@ }
    else if op == "or_less"@ { ">="@ }
    else { Seq::empty() }
}

/// Operators that are put in parentheses when the caller asks for it.
pub open spec fn opens_paren(op: Seq<char>) -> bool {
    op == "add"@ || op == "sub"@ || op == "or"@ || op == "lor"@
}

/// Operators whose right operand is written with parentheses requested.
pub open spec fn right_paren(op: Seq<char>) -> bool {
    op == "mul"@ || op == "div"@ || op == "mod"@
}

/// The reduction operator names that have a Verilog symbol.
pub open spec fn is_red_op(op: Seq<char>) -> bool {
    ||| op == "and"@
    ||| op == "or"@
    ||| op == "xor"@
    ||| op == "nand"@
    ||| op == "nor"@
    ||| op == "xnor"@
}

/// The Verilog symbol of a reduction operator name.
pub open spec fn red_text(op: Seq<char>) -> Seq<char> {
    if op == "and"@ { "&"@ }
    else if op == "or"@ { "|"@ }
    else if op == "xor"@ { "^"@ }
    else if op == "nand"@ { "~&"@ }
    else if op == "nor"@ { "~|"@ }
    else if op == "xnor"@ { "~^"@ }
    else { Seq::empty() }
}

/// The assignment operator of a statement block: " = " in a blocking
/// ("brock") block, " <= " otherwise.
pub open spec fn assign_op(cnfg: Seq<char>) -> Seq<char> {
    if cnfg == "brock"@ { " = "@ } else { " <= "@ }
}

/// The Verilog text of an expression or statement, written at `ind` levels of
/// indentation in a block of kind `cnfg`; `paren` asks for parentheses round a
/// sum, difference, or, or logical or.
pub open spec fn decomp(paren: bool, e: EV, cnfg: Seq<char>, ind: int) -> Seq<char>
    decreases e,
{
    match e {
        EV::Bin(op, l, r) => {
            let opened = paren && opens_paren(op);
            spec_indent(ind) + opt_text(opened, "("@) + decomp(false, *l, cnfg, 0) + bin_text(op)
                + decomp(right_paren(op), *r, cnfg, 0) + opt_text(opened, ")"@)
        },
        EV::Ldc(w) => w.name,
        EV::Num(i) => spec_dec(i as int),
        EV::PL(d, t, f) => "("@ + decomp(false, *d, cnfg, 0) + ")? "@ + decomp(false, *t, cnfg, 0)
            + ": "@ + decomp(false, *f, cnfg, 0),
        EV::SB(l, r) => spec_indent(ind) + decomp(false, *l, cnfg, ind) + assign_op(cnfg)
            + decomp(false, *r, cnfg, 0) + ";\n"@,
        EV::CS(c) => print_case(c, cnfg, ind),
        EV::BL(v) => print_if(v, cnfg, ind),
        EV::MEM(m, a) => decomp(false, *m, cnfg, ind) + "["@ + decomp(false, *a, cnfg, 0) + "]"@,
        EV::MBT(m, a, b) => decomp(false, *m, cnfg, ind) + "["@ + decomp(false, *a, cnfg, 0) + ":"@
            + decomp(false, *b, cnfg, 0) + "]"@,
        EV::Func(a, v) => decomp(false, *a, cnfg, 0) + "("@ + args_text(v, cnfg) + ")"@,
        EV::No(b) => "~"@ + decomp(false, *b, cnfg, 0),
        EV::Red(op, a) => if is_red_op(op) {
            red_text(op) + decomp(false, *a, cnfg, 0)
        } else {
            Seq::empty()
        },
        _ => Seq::empty(),
    }
}

/// Function-call arguments, separated by ", ".
pub open spec fn args_text(s: Seq<EV>, cnfg: Seq<char>) -> Seq<char>
    decreases s,
{
    if s.len() == 0 {
        Seq::empty()
    } else if s.len() == 1 {
        decomp(false, s[0], cnfg, 0)
    } else {
        args_text(s.drop_last(), cnfg) + ", "@ + decomp(false, s.last(), cnfg, 0)
    }
}

/// A list of statements, one after the other.
pub open spec fn stmts_text(s: Seq<EV>, cnfg: Seq<char>, ind: int) -> Seq<char>
    decreases s,
{
    if s.len() == 0 {
        Seq::empty()
    } else {
        stmts_text(s.drop_last(), cnfg, ind) + decomp(false, s.last(), cnfg, ind)
    }
}

/// An `if` / `else if` / `else` chain. When the first branch has no condition
/// its statements are written on their own and the rest is dropped.
pub open spec fn print_if(v: Seq<IfModel>, cnfg: Seq<char>, ind: int) -> Seq<char>
    decreases v,
{
    if v.len() == 0 {
        Seq::empty()
    } else if v[0].cond is Null {
        stmts_text(v[0].stmts, cnfg, ind)
    } else if v.len() == 1 {
        if_first(v[0], cnfg, ind)
    } else {
        print_if(v.drop_last(), cnfg, ind) + if_later(v.last(), cnfg, ind)
    }
}

/// The first branch of an `if` chain.
pub open spec fn if_first(x: IfModel, cnfg: Seq<char>, ind: int) -> Seq<char>
    decreases x,
{
    spec_indent(ind) + "if("@ + decomp(false, x.cond, ""@, 0) + ") begin\n"@
        + stmts_text(x.stmts, cnfg, ind + 1) + spec_indent(ind) + "end\n"@
}

/// A later branch of an `if` chain: `else if` or `else`.
pub open spec fn if_later(x: IfModel, cnfg: Seq<char>, ind: int) -> Seq<char>
    decreases x,
{
    spec_indent(ind) + (if x.is_if {
        "else if("@ + decomp(false, x.cond, ""@, 0) + ") begin\n"@
    } else {
        "else begin\n"@
    }) + stmts_text(x.stmts, cnfg, ind + 1) + spec_indent(ind) + "end\n"@
}

/// A `case` block.
pub open spec fn print_case(c: CaseModel, cnfg: Seq<char>, ind: int) -> Seq<char>
    decreases c,
{
    spec_indent(ind) + "case ("@ + c.var.name + ")\n"@ + arms_text(c.select, cnfg, ind)
        + spec_indent(ind) + "endcase\n"@
}

/// The branches of a `case` block.
pub open spec fn arms_text(s: Seq<ArmModel>, cnfg: Seq<char>, ind: int) -> Seq<char>
    decreases s,
{
    if s.len() == 0 {
        Seq::empty()
    } else {
        arms_text(s.drop_last(), cnfg, ind) + arm_text(s.last(), cnfg, ind)
    }
}

/// One branch of a `case` block; several statements are put in `begin` / `end`.
pub open spec fn arm_text(x: ArmModel, cnfg: Seq<char>, ind: int) -> Seq<char>
    decreases x,
{
    let many = x.stmts.len() > 1;
    spec_indent(ind + 1) + (if x.label is Null {
        "default "@
    } else {
        decomp(false, x.label, cnfg, ind + 1)
    }) + " :"@ + opt_text(many, "begin \n"@) + stmts_text(x.stmts, cnfg, if many { ind + 2 } else { 0 })
        + (if many { spec_indent(ind + 1) + "end \n"@ } else { Seq::empty() })
}

/// Writing out `e` at `ind` levels of indentation succeeds: every operator that
/// is written has a symbol, and every indentation level that is computed fits
/// in an `i32`.
pub open spec fn printable(e: EV, ind: int) -> bool
    decreases e,
{
    match e {
        EV::Bin(op, l, r) => printable(*l, 0) && is_bin_op(op) && printable(*r, 0),
        EV::PL(d, t, f) => printable(*d, 0) && printable(*t, 0) && printable(*f, 0),
        EV::SB(l, r) => printable(*l, ind) && printable(*r, 0),
        EV::CS(c) => arms_printable(c.select, ind),
        EV::BL(v) => if_printable(v, ind),
        EV::MEM(m, a) => printable(*m, ind) && printable(*a, 0),
        EV::MBT(m, a, b) => printable(*m, ind) && printable(*a, 0) && printable(*b, 0),
        EV::Func(a, v) => printable(*a, 0) && stmts_printable(v, 0),
        EV::No(b) => printable(*b, 0),
        EV::Red(op, a) => is_red_op(op) ==> printable(*a, 0),
        _ => true,
    }
}

/// Every statement of the list can be written out.
pub open spec fn stmts_printable(s: Seq<EV>, ind: int) -> bool
    decreases s,
{
    if s.len() == 0 {
        true
    } else {
        stmts_printable(s.drop_last(), ind) && printable(s.last(), ind)
    }
}

/// An `if` chain can be written out.
pub open spec fn if_printable(v: Seq<IfModel>, ind: int) -> bool
    decreases v,
{
    if v.len() == 0 {
        true
    } else if v[0].cond is Null {
        stmts_printable(v[0].stmts, ind)
    } else if v.len() == 1 {
        branch_printable(v[0], true, ind)
    } else {
        if_printable(v.drop_last(), ind) && branch_printable(v.last(), false, ind)
    }
}

/// One branch of an `if` chain can be written out.
pub open spec fn branch_printable(x: IfModel, first: bool, ind: int) -> bool
    decreases x,
{
    &&& (first || x.is_if) ==> printable(x.cond, 0)
    &&& x.stmts.len() > 0 ==> ind + 1 <= i32::MAX
    &&& stmts_printable(x.stmts, ind + 1)
}

/// The branches of a `case` block can be written out.
pub open spec fn arms_printable(s: Seq<ArmModel>, ind: int) -> bool
    decreases s,
{
    if s.len() == 0 {
        true
    } else {
        arms_printable(s.drop_last(), ind) && arm_printable(s.last(), ind)
    }
}

/// One `case` branch can be written out.
pub open spec fn arm_printable(x: ArmModel, ind: int) -> bool
    decreases x,
{
    let many = x.stmts.len() > 1;
    &&& ind + 1 <= i32::MAX
    &&& !(x.label is Null) ==> printable(x.label, ind + 1)
    &&& many ==> ind + 2 <= i32::MAX
    &&& stmts_printable(x.stmts, if many { ind + 2 } else { 0 })
}

/// A statement list can be written out exactly when each of its statements can.
pub proof fn lemma_stmts_printable(s: Seq<EV>, ind: int)
    ensures
        stmts_printable(s, ind) <==> forall|i: int| 0 <= i < s.len() ==> #[trigger] printable(s[i], ind),
    decreases s.len(),
{
    if s.len() > 0 {
        let t = s.drop_last();
        lemma_stmts_printable(t, ind);
        if stmts_printable(s, ind) {
            assert forall|i: int| 0 <= i < s.len() implies #[trigger] printable(s[i], ind) by {
                if i < s.len() - 1 {
                    assert(t[i] == s[i]);
                    assert(printable(t[i], ind));
                }
            }
        }
        if forall|i: int| 0 <= i < s.len() ==> #[trigger] printable(s[i], ind) {
            assert forall|i: int| 0 <= i < t.len() implies #[trigger] printable(t[i], ind) by {
                assert(t[i] == s[i]);
                assert(printable(s[i], ind));
            }
            assert(printable(s.last(), ind));
        }
    }
}

/// The branches of a `case` block can be written out exactly when each can.
pub proof fn lemma_arms_printable(s: Seq<ArmModel>, ind: int)
    ensures
        arms_printable(s, ind) <==> forall|i: int| 0 <= i < s.len() ==> #[trigger] arm_printable(s[i], ind),
    decreases s.len(),
{
    if s.len() > 0 {
        let t = s.drop_last();
        lemma_arms_printable(t, ind);
        if arms_printable(s, ind) {
            assert forall|i: int| 0 <= i < s.len() implies #[trigger] arm_printable(s[i], ind) by {
                if i < s.len() - 1 {
                    assert(t[i] == s[i]);
                    assert(arm_printable(t[i], ind));
                }
            }
        }
        if forall|i: int| 0 <= i < s.len() ==> #[trigger] arm_printable(s[i], ind) {
            assert forall|i: int| 0 <= i < t.len() implies #[trigger] arm_printable(t[i], ind) by {
                assert(t[i] == s[i]);
                assert(arm_printable(s[i], ind));
            }
            assert(arm_printable(s.last(), ind));
        }
    }
}

/// An `if` chain whose first branch has a condition can be written out exactly
/// when its first branch can as a first branch and each later one as a later one.
pub proof fn lemma_if_printable(v: Seq<IfModel>, ind: int)
    requires
        v.len() > 0,
        !(v[0].cond is Null),
    ensures
        if_printable(v, ind) <==> (branch_printable(v[0], true, ind) && forall|i: int|
            1 <= i < v.len() ==> #[trigger] branch_printable(v[i], false, ind)),
    decreases v.len(),
{
    if v.len() > 1 {
        let t = v.drop_last();
        assert(t[0] == v[0]);
        lemma_if_printable(t, ind);
        if if_printable(v, ind) {
            assert forall|i: int| 1 <= i < v.len() implies #[trigger] branch_printable(v[i], false, ind) by {
                if i < v.len() - 1 {
                    assert(t[i] == v[i]);
                    assert(branch_printable(t[i], false, ind));
                }
            }
        }
        if branch_printable(v[0], true, ind) && forall|i: int| 1 <= i < v.len() ==> #[trigger] branch_printable(v[i], false, ind) {
            assert forall|i: int| 1 <= i < t.len() implies #[trigger] branch_printable(t[i], false, ind) by {
                assert(t[i] == v[i]);
                assert(branch_printable(v[i], false, ind));
            }
            assert(branch_printable(v.last(), false, ind));
        }
    }
}

} // verus!
