//! Properties of the Verilog text itself: the symbol each operator is
//! written with, where the local writes of an AXI4-Lite port land, which
//! edges an `always` block waits on, how the inputs of a function are
//! separated, and which clock and reset the blocks of an AXI port use.

use vstd::prelude::*;
use crate::ast::EV;
use crate::render::decomp;
use crate::text::{spec_indent, spec_dec};
use crate::expr::str_out;
use crate::axi::{
    AxisModel, LiteModel, axis_text, lite_text, addr_bits, local_writes, local_write_text, read_regs,
    write_regs,
};
use crate::axi_text::{lite_read_reg, lite_write_reg};
use crate::text::spec_hex2;
use crate::ast::VarModel;
use crate::render::opt_text;
use crate::stmt::{
    AlwaysModel, FuncModel, always_block, always_blocks, print_always, edge_list, func_block, func_blocks,
    print_function, input_decls, input_decl, var_count,
};

verus! {

/// `t` occurs in `s`.
pub open spec fn contains(s: Seq<char>, t: Seq<char>) -> bool {
    exists|i: int| 0 <= i && i + t.len() <= s.len() && #[trigger] s.subrange(i, i + t.len()) == t
}

/// A text contains itself.
pub broadcast proof fn lemma_contains_self(t: Seq<char>)
    ensures
        #[trigger] contains(t, t),
{
    let z: int = 0;
    assert(t.subrange(z, z + t.len()) =~= t);
}

/// What occurs in either part of a text occurs in the whole.
pub broadcast proof fn lemma_contains_concat(a: Seq<char>, b: Seq<char>, t: Seq<char>)
    ensures
        (contains(a, t) || contains(b, t)) ==> #[trigger] contains(a + b, t),
{
    if contains(a, t) {
        let i = choose|i: int| 0 <= i && i + t.len() <= a.len() && #[trigger] a.subrange(i, i + t.len()) == t;
        assert((a + b).subrange(i, i + t.len()) =~= a.subrange(i, i + t.len()));
    } else if contains(b, t) {
        let i = choose|i: int| 0 <= i && i + t.len() <= b.len() && #[trigger] b.subrange(i, i + t.len()) == t;
        let j = i + a.len();
        assert((a + b).subrange(j, j + t.len()) =~= b.subrange(i, i + t.len()));
    }
}

/// What occurs in a part of a text occurs in the text.
pub proof fn lemma_contains_trans(s: Seq<char>, u: Seq<char>, t: Seq<char>)
    requires
        contains(s, u),
        contains(u, t),
    ensures
        contains(s, t),
{
    let i = choose|i: int| 0 <= i && i + u.len() <= s.len() && #[trigger] s.subrange(i, i + u.len()) == u;
    let j = choose|j: int| 0 <= j && j + t.len() <= u.len() && #[trigger] u.subrange(j, j + t.len()) == t;
    assert(s.subrange(i + j, i + j + t.len()) =~= u.subrange(j, j + t.len()));
}

/// The operator names are all different from one another.
proof fn lemma_op_names_differ()
    ensures
        "add"@ != "sub"@,
        "add"@ != "mul"@,
        "add"@ != "div"@,
        "add"@ != "mod"@,
        "add"@ != "or"@,
        "add"@ != "and"@,
        "add"@ != "xor"@,
        "add"@ != "lor"@,
        "add"@ != "land"@,
        "add"@ != "lshift"@,
        "add"@ != "rshift"@,
        "add"@ != "rshifta"@,
        "add"@ != "equal"@,
        "add"@ != "Not equal"@,
        "add"@ != "more_than"@,
        "add"@ != "less_than"@,
        "add"@ != "or_more"@,
        "add"@ != "or_less"@,
        "sub"@ != "mul"@,
        "sub"@ != "div"@,
        "sub"@ != "mod"@,
        "sub"@ != "or"@,
        "sub"@ != "and"@,
        "sub"@ != "xor"@,
        "sub"@ != "lor"@,
        "sub"@ != "land"@,
        "sub"@ != "lshift"@,
        "sub"@ != "rshift"@,
        "sub"@ != "rshifta"@,
        "sub"@ != "equal"@,
        "sub"@ != "Not equal"@,
        "sub"@ != "more_than"@,
        "sub"@ != "less_than"@,
        "sub"@ != "or_more"@,
        "sub"@ != "or_less"@,
        "mul"@ != "div"@,
        "mul"@ != "mod"@,
        "mul"@ != "or"@,
        "mul"@ != "and"@,
        "mul"@ != "xor"@,
        "mul"@ != "lor"@,
        "mul"@ != "land"@,
        "mul"@ != "lshift"@,
        "mul"@ != "rshift"@,
        "mul"@ != "rshifta"@,
        "mul"@ != "equal"@,
        "mul"@ != "Not equal"@,
        "mul"@ != "more_than"@,
        "mul"@ != "less_than"@,
        "mul"@ != "or_more"@,
        "mul"@ != "or_less"@,
        "div"@ != "mod"@,
        "div"@ != "or"@,
        "div"@ != "and"@,
        "div"@ != "xor"@,
        "div"@ != "lor"@,
        "div"@ != "land"@,
        "div"@ != "lshift"@,
        "div"@ != "rshift"@,
        "div"@ != "rshifta"@,
        "div"@ != "equal"@,
        "div"@ != "Not equal"@,
        "div"@ != "more_than"@,
        "div"@ != "less_than"@,
        "div"@ != "or_more"@,
        "div"@ != "or_less"@,
        "mod"@ != "or"@,
        "mod"@ != "and"@,
        "mod"@ != "xor"@,
        "mod"@ != "lor"@,
        "mod"@ != "land"@,
        "mod"@ != "lshift"@,
        "mod"@ != "rshift"@,
        "mod"@ != "rshifta"@,
        "mod"@ != "equal"@,
        "mod"@ != "Not equal"@,
        "mod"@ != "more_than"@,
        "mod"@ != "less_than"@,
        "mod"@ != "or_more"@,
        "mod"@ != "or_less"@,
        "or"@ != "and"@,
        "or"@ != "xor"@,
        "or"@ != "lor"@,
        "or"@ != "land"@,
        "or"@ != "lshift"@,
        "or"@ != "rshift"@,
        "or"@ != "rshifta"@,
        "or"@ != "equal"@,
        "or"@ != "Not equal"@,
        "or"@ != "more_than"@,
        "or"@ != "less_than"@,
        "or"@ != "or_more"@,
        "or"@ != "or_less"@,
        "and"@ != "xor"@,
        "and"@ != "lor"@,
        "and"@ != "land"@,
        "and"@ != "lshift"@,
        "and"@ != "rshift"@,
        "and"@ != "rshifta"@,
        "and"@ != "equal"@,
        "and"@ != "Not equal"@,
        "and"@ != "more_than"@,
        "and"@ != "less_than"@,
        "and"@ != "or_more"@,
        "and"@ != "or_less"@,
        "xor"@ != "lor"@,
        "xor"@ != "land"@,
        "xor"@ != "lshift"@,
        "xor"@ != "rshift"@,
        "xor"@ != "rshifta"@,
        "xor"@ != "equal"@,
        "xor"@ != "Not equal"@,
        "xor"@ != "more_than"@,
        "xor"@ != "less_than"@,
        "xor"@ != "or_more"@,
        "xor"@ != "or_less"@,
        "lor"@ != "land"@,
        "lor"@ != "lshift"@,
        "lor"@ != "rshift"@,
        "lor"@ != "rshifta"@,
        "lor"@ != "equal"@,
        "lor"@ != "Not equal"@,
        "lor"@ != "more_than"@,
        "lor"@ != "less_than"@,
        "lor"@ != "or_more"@,
        "lor"@ != "or_less"@,
        "land"@ != "lshift"@,
        "land"@ != "rshift"@,
        "land"@ != "rshifta"@,
        "land"@ != "equal"@,
        "land"@ != "Not equal"@,
        "land"@ != "more_than"@,
        "land"@ != "less_than"@,
        "land"@ != "or_more"@,
        "land"@ != "or_less"@,
        "lshift"@ != "rshift"@,
        "lshift"@ != "rshifta"@,
        "lshift"@ != "equal"@,
        "lshift"@ != "Not equal"@,
        "lshift"@ != "more_than"@,
        "lshift"@ != "less_than"@,
        "lshift"@ != "or_more"@,
        "lshift"@ != "or_less"@,
        "rshift"@ != "rshifta"@,
        "rshift"@ != "equal"@,
        "rshift"@ != "Not equal"@,
        "rshift"@ != "more_than"@,
        "rshift"@ != "less_than"@,
        "rshift"@ != "or_more"@,
        "rshift"@ != "or_less"@,
        "rshifta"@ != "equal"@,
        "rshifta"@ != "Not equal"@,
        "rshifta"@ != "more_than"@,
        "rshifta"@ != "less_than"@,
        "rshifta"@ != "or_more"@,
        "rshifta"@ != "or_less"@,
        "equal"@ != "Not equal"@,
        "equal"@ != "more_than"@,
        "equal"@ != "less_than"@,
        "equal"@ != "or_more"@,
        "equal"@ != "or_less"@,
        "Not equal"@ != "more_than"@,
        "Not equal"@ != "less_than"@,
        "Not equal"@ != "or_more"@,
        "Not equal"@ != "or_less"@,
        "more_than"@ != "less_than"@,
        "more_than"@ != "or_more"@,
        "more_than"@ != "or_less"@,
        "less_than"@ != "or_more"@,
        "less_than"@ != "or_less"@,
        "or_more"@ != "or_less"@,
{
    reveal_strlit("add");
    reveal_strlit("sub");
    reveal_strlit("mul");
    reveal_strlit("div");
    reveal_strlit("mod");
    reveal_strlit("or");
    reveal_strlit("and");
    reveal_strlit("xor");
    reveal_strlit("lor");
    reveal_strlit("land");
    reveal_strlit("lshift");
    reveal_strlit("rshift");
    reveal_strlit("rshifta");
    reveal_strlit("equal");
    reveal_strlit("Not equal");
    reveal_strlit("more_than");
    reveal_strlit("less_than");
    reveal_strlit("or_more");
    reveal_strlit("or_less");
    assert("add"@[0] != "sub"@[0]);
    assert("add"@[0] != "mul"@[0]);
    assert("add"@[0] != "div"@[0]);
    assert("add"@[0] != "mod"@[0]);
    assert("add"@.len() != "or"@.len());
    assert("add"@[1] != "and"@[1]);
    assert("add"@[0] != "xor"@[0]);
    assert("add"@[0] != "lor"@[0]);
    assert("add"@.len() != "land"@.len());
    assert("add"@.len() != "lshift"@.len());
    assert("add"@.len() != "rshift"@.len());
    assert("add"@.len() != "rshifta"@.len());
    assert("add"@.len() != "equal"@.len());
    assert("add"@.len() != "Not equal"@.len());
    assert("add"@.len() != "more_than"@.len());
    assert("add"@.len() != "less_than"@.len());
    assert("add"@.len() != "or_more"@.len());
    assert("add"@.len() != "or_less"@.len());
    assert("sub"@[0] != "mul"@[0]);
    assert("sub"@[0] != "div"@[0]);
    assert("sub"@[0] != "mod"@[0]);
    assert("sub"@.len() != "or"@.len());
    assert("sub"@[0] != "and"@[0]);
    assert("sub"@[0] != "xor"@[0]);
    assert("sub"@[0] != "lor"@[0]);
    assert("sub"@.len() != "land"@.len());
    assert("sub"@.len() != "lshift"@.len());
    assert("sub"@.len() != "rshift"@.len());
    assert("sub"@.len() != "rshifta"@.len());
    assert("sub"@.len() != "equal"@.len());
    assert("sub"@.len() != "Not equal"@.len());
    assert("sub"@.len() != "more_than"@.len());
    assert("sub"@.len() != "less_than"@.len());
    assert("sub"@.len() != "or_more"@.len());
    assert("sub"@.len() != "or_less"@.len());
    assert("mul"@[0] != "div"@[0]);
    assert("mul"@[1] != "mod"@[1]);
    assert("mul"@.len() != "or"@.len());
    assert("mul"@[0] != "and"@[0]);
    assert("mul"@[0] != "xor"@[0]);
    assert("mul"@[0] != "lor"@[0]);
    assert("mul"@.len() != "land"@.len());
    assert("mul"@.len() != "lshift"@.len());
    assert("mul"@.len() != "rshift"@.len());
    assert("mul"@.len() != "rshifta"@.len());
    assert("mul"@.len() != "equal"@.len());
    assert("mul"@.len() != "Not equal"@.len());
    assert("mul"@.len() != "more_than"@.len());
    assert("mul"@.len() != "less_than"@.len());
    assert("mul"@.len() != "or_more"@.len());
    assert("mul"@.len() != "or_less"@.len());
    assert("div"@[0] != "mod"@[0]);
    assert("div"@.len() != "or"@.len());
    assert("div"@[0] != "and"@[0]);
    assert("div"@[0] != "xor"@[0]);
    assert("div"@[0] != "lor"@[0]);
    assert("div"@.len() != "land"@.len());
    assert("div"@.len() != "lshift"@.len());
    assert("div"@.len() != "rshift"@.len());
    assert("div"@.len() != "rshifta"@.len());
    assert("div"@.len() != "equal"@.len());
    assert("div"@.len() != "Not equal"@.len());
    assert("div"@.len() != "more_than"@.len());
    assert("div"@.len() != "less_than"@.len());
    assert("div"@.len() != "or_more"@.len());
    assert("div"@.len() != "or_less"@.len());
    assert("mod"@.len() != "or"@.len());
    assert("mod"@[0] != "and"@[0]);
    assert("mod"@[0] != "xor"@[0]);
    assert("mod"@[0] != "lor"@[0]);
    assert("mod"@.len() != "land"@.len());
    assert("mod"@.len() != "lshift"@.len());
    assert("mod"@.len() != "rshift"@.len());
    assert("mod"@.len() != "rshifta"@.len());
    assert("mod"@.len() != "equal"@.len());
    assert("mod"@.len() != "Not equal"@.len());
    assert("mod"@.len() != "more_than"@.len());
    assert("mod"@.len() != "less_than"@.len());
    assert("mod"@.len() != "or_more"@.len());
    assert("mod"@.len() != "or_less"@.len());
    assert("or"@.len() != "and"@.len());
    assert("or"@.len() != "xor"@.len());
    assert("or"@.len() != "lor"@.len());
    assert("or"@.len() != "land"@.len());
    assert("or"@.len() != "lshift"@.len());
    assert("or"@.len() != "rshift"@.len());
    assert("or"@.len() != "rshifta"@.len());
    assert("or"@.len() != "equal"@.len());
    assert("or"@.len() != "Not equal"@.len());
    assert("or"@.len() != "more_than"@.len());
    assert("or"@.len() != "less_than"@.len());
    assert("or"@.len() != "or_more"@.len());
    assert("or"@.len() != "or_less"@.len());
    assert("and"@[0] != "xor"@[0]);
    assert("and"@[0] != "lor"@[0]);
    assert("and"@.len() != "land"@.len());
    assert("and"@.len() != "lshift"@.len());
    assert("and"@.len() != "rshift"@.len());
    assert("and"@.len() != "rshifta"@.len());
    assert("and"@.len() != "equal"@.len());
    assert("and"@.len() != "Not equal"@.len());
    assert("and"@.len() != "more_than"@.len());
    assert("and"@.len() != "less_than"@.len());
    assert("and"@.len() != "or_more"@.len());
    assert("and"@.len() != "or_less"@.len());
    assert("xor"@[0] != "lor"@[0]);
    assert("xor"@.len() != "land"@.len());
    assert("xor"@.len() != "lshift"@.len());
    assert("xor"@.len() != "rshift"@.len());
    assert("xor"@.len() != "rshifta"@.len());
    assert("xor"@.len() != "equal"@.len());
    assert("xor"@.len() != "Not equal"@.len());
    assert("xor"@.len() != "more_than"@.len());
    assert("xor"@.len() != "less_than"@.len());
    assert("xor"@.len() != "or_more"@.len());
    assert("xor"@.len() != "or_less"@.len());
    assert("lor"@.len() != "land"@.len());
    assert("lor"@.len() != "lshift"@.len());
    assert("lor"@.len() != "rshift"@.len());
    assert("lor"@.len() != "rshifta"@.len());
    assert("lor"@.len() != "equal"@.len());
    assert("lor"@.len() != "Not equal"@.len());
    assert("lor"@.len() != "more_than"@.len());
    assert("lor"@.len() != "less_than"@.len());
    assert("lor"@.len() != "or_more"@.len());
    assert("lor"@.len() != "or_less"@.len());
    assert("land"@.len() != "lshift"@.len());
    assert("land"@.len() != "rshift"@.len());
    assert("land"@.len() != "rshifta"@.len());
    assert("land"@.len() != "equal"@.len());
    assert("land"@.len() != "Not equal"@.len());
    assert("land"@.len() != "more_than"@.len());
    assert("land"@.len() != "less_than"@.len());
    assert("land"@.len() != "or_more"@.len());
    assert("land"@.len() != "or_less"@.len());
    assert("lshift"@[0] != "rshift"@[0]);
    assert("lshift"@.len() != "rshifta"@.len());
    assert("lshift"@.len() != "equal"@.len());
    assert("lshift"@.len() != "Not equal"@.len());
    assert("lshift"@.len() != "more_than"@.len());
    assert("lshift"@.len() != "less_than"@.len());
    assert("lshift"@.len() != "or_more"@.len());
    assert("lshift"@.len() != "or_less"@.len());
    assert("rshift"@.len() != "rshifta"@.len());
    assert("rshift"@.len() != "equal"@.len());
    assert("rshift"@.len() != "Not equal"@.len());
    assert("rshift"@.len() != "more_than"@.len());
    assert("rshift"@.len() != "less_than"@.len());
    assert("rshift"@.len() != "or_more"@.len());
    assert("rshift"@.len() != "or_less"@.len());
    assert("rshifta"@.len() != "equal"@.len());
    assert("rshifta"@.len() != "Not equal"@.len());
    assert("rshifta"@.len() != "more_than"@.len());
    assert("rshifta"@.len() != "less_than"@.len());
    assert("rshifta"@[0] != "or_more"@[0]);
    assert("rshifta"@[0] != "or_less"@[0]);
    assert("equal"@.len() != "Not equal"@.len());
    assert("equal"@.len() != "more_than"@.len());
    assert("equal"@.len() != "less_than"@.len());
    assert("equal"@.len() != "or_more"@.len());
    assert("equal"@.len() != "or_less"@.len());
    assert("Not equal"@[0] != "more_than"@[0]);
    assert("Not equal"@[0] != "less_than"@[0]);
    assert("Not equal"@.len() != "or_more"@.len());
    assert("Not equal"@.len() != "or_less"@.len());
    assert("more_than"@[0] != "less_than"@[0]);
    assert("more_than"@.len() != "or_more"@.len());
    assert("more_than"@.len() != "or_less"@.len());
    assert("less_than"@.len() != "or_more"@.len());
    assert("less_than"@.len() != "or_less"@.len());
    assert("or_more"@[3] != "or_less"@[3]);
}

/// Each of the nineteen binary operators is written as its left operand, its
/// Verilog symbol, and its right operand (the right operand in parentheses
/// for `*`, `/` and `%` where it is a sum, difference or `or`), when no
/// parentheses are asked round the whole.
pub proof fn law_operator_symbols(l: EV, r: EV, c: Seq<char>)
    ensures
        decomp(false, EV::Bin("add"@, Box::new(l), Box::new(r)), c, 0) == decomp(false, l, c, 0) + "+"@
            + decomp(false, r, c, 0),
        decomp(false, EV::Bin("sub"@, Box::new(l), Box::new(r)), c, 0) == decomp(false, l, c, 0) + "-"@
            + decomp(false, r, c, 0),
        decomp(false, EV::Bin("mul"@, Box::new(l), Box::new(r)), c, 0) == decomp(false, l, c, 0) + "*"@
            + decomp(true, r, c, 0),
        decomp(false, EV::Bin("div"@, Box::new(l), Box::new(r)), c, 0) == decomp(false, l, c, 0) + "/"@
            + decomp(true, r, c, 0),
        decomp(false, EV::Bin("mod"@, Box::new(l), Box::new(r)), c, 0) == decomp(false, l, c, 0) + "%"@
            + decomp(true, r, c, 0),
        decomp(false, EV::Bin("or"@, Box::new(l), Box::new(r)), c, 0) == decomp(false, l, c, 0) + "|"@
            + decomp(false, r, c, 0),
        decomp(false, EV::Bin("and"@, Box::new(l), Box::new(r)), c, 0) == decomp(false, l, c, 0) + "&"@
            + decomp(false, r, c, 0),
        decomp(false, EV::Bin("xor"@, Box::new(l), Box::new(r)), c, 0) == decomp(false, l, c, 0) + "^"@
            + decomp(false, r, c, 0),
        decomp(false, EV::Bin("lor"@, Box::new(l), Box::new(r)), c, 0) == decomp(false, l, c, 0) + "||"@
            + decomp(false, r, c, 0),
        decomp(false, EV::Bin("land"@, Box::new(l), Box::new(r)), c, 0) == decomp(false, l, c, 0) + "&&"@
            + decomp(false, r, c, 0),
        decomp(false, EV::Bin("lshift"@, Box::new(l), Box::new(r)), c, 0) == decomp(false, l, c, 0) + "<<"@
            + decomp(false, r, c, 0),
        decomp(false, EV::Bin("rshift"@, Box::new(l), Box::new(r)), c, 0) == decomp(false, l, c, 0) + ">>"@
            + decomp(false, r, c, 0),
        decomp(false, EV::Bin("rshifta"@, Box::new(l), Box::new(r)), c, 0) == decomp(false, l, c, 0) + ">>>"@
            + decomp(false, r, c, 0),
        decomp(false, EV::Bin("equal"@, Box::new(l), Box::new(r)), c, 0) == decomp(false, l, c, 0) + "=="@
            + decomp(false, r, c, 0),
        decomp(false, EV::Bin("Not equal"@, Box::new(l), Box::new(r)), c, 0) == decomp(false, l, c, 0) + "!="@
            + decomp(false, r, c, 0),
        decomp(false, EV::Bin("more_than"@, Box::new(l), Box::new(r)), c, 0) == decomp(false, l, c, 0) + "<"@
            + decomp(false, r, c, 0),
        decomp(false, EV::Bin("less_than"@, Box::new(l), Box::new(r)), c, 0) == decomp(false, l, c, 0) + ">"@
            + decomp(false, r, c, 0),
        decomp(false, EV::Bin("or_more"@, Box::new(l), Box::new(r)), c, 0) == decomp(false, l, c, 0) + "<="@
            + decomp(false, r, c, 0),
        decomp(false, EV::Bin("or_less"@, Box::new(l), Box::new(r)), c, 0) == decomp(false, l, c, 0) + ">="@
            + decomp(false, r, c, 0),
{
    lemma_op_names_differ();
    assert(spec_indent(0) =~= Seq::<char>::empty());
    assert(decomp(false, EV::Bin("add"@, Box::new(l), Box::new(r)), c, 0) =~= decomp(false, l, c, 0) + "+"@
        + decomp(false, r, c, 0));
    assert(decomp(false, EV::Bin("sub"@, Box::new(l), Box::new(r)), c, 0) =~= decomp(false, l, c, 0) + "-"@
        + decomp(false, r, c, 0));
    assert(decomp(false, EV::Bin("mul"@, Box::new(l), Box::new(r)), c, 0) =~= decomp(false, l, c, 0) + "*"@
        + decomp(true, r, c, 0));
    assert(decomp(false, EV::Bin("div"@, Box::new(l), Box::new(r)), c, 0) =~= decomp(false, l, c, 0) + "/"@
        + decomp(true, r, c, 0));
    assert(decomp(false, EV::Bin("mod"@, Box::new(l), Box::new(r)), c, 0) =~= decomp(false, l, c, 0) + "%"@
        + decomp(true, r, c, 0));
    assert(decomp(false, EV::Bin("or"@, Box::new(l), Box::new(r)), c, 0) =~= decomp(false, l, c, 0) + "|"@
        + decomp(false, r, c, 0));
    assert(decomp(false, EV::Bin("and"@, Box::new(l), Box::new(r)), c, 0) =~= decomp(false, l, c, 0) + "&"@
        + decomp(false, r, c, 0));
    assert(decomp(false, EV::Bin("xor"@, Box::new(l), Box::new(r)), c, 0) =~= decomp(false, l, c, 0) + "^"@
        + decomp(false, r, c, 0));
    assert(decomp(false, EV::Bin("lor"@, Box::new(l), Box::new(r)), c, 0) =~= decomp(false, l, c, 0) + "||"@
        + decomp(false, r, c, 0));
    assert(decomp(false, EV::Bin("land"@, Box::new(l), Box::new(r)), c, 0) =~= decomp(false, l, c, 0) + "&&"@
        + decomp(false, r, c, 0));
    assert(decomp(false, EV::Bin("lshift"@, Box::new(l), Box::new(r)), c, 0) =~= decomp(false, l, c, 0) + "<<"@
        + decomp(false, r, c, 0));
    assert(decomp(false, EV::Bin("rshift"@, Box::new(l), Box::new(r)), c, 0) =~= decomp(false, l, c, 0) + ">>"@
        + decomp(false, r, c, 0));
    assert(decomp(false, EV::Bin("rshifta"@, Box::new(l), Box::new(r)), c, 0) =~= decomp(false, l, c, 0) + ">>>"@
        + decomp(false, r, c, 0));
    assert(decomp(false, EV::Bin("equal"@, Box::new(l), Box::new(r)), c, 0) =~= decomp(false, l, c, 0) + "=="@
        + decomp(false, r, c, 0));
    assert(decomp(false, EV::Bin("Not equal"@, Box::new(l), Box::new(r)), c, 0) =~= decomp(false, l, c, 0) + "!="@
        + decomp(false, r, c, 0));
    assert(decomp(false, EV::Bin("more_than"@, Box::new(l), Box::new(r)), c, 0) =~= decomp(false, l, c, 0) + "<"@
        + decomp(false, r, c, 0));
    assert(decomp(false, EV::Bin("less_than"@, Box::new(l), Box::new(r)), c, 0) =~= decomp(false, l, c, 0) + ">"@
        + decomp(false, r, c, 0));
    assert(decomp(false, EV::Bin("or_more"@, Box::new(l), Box::new(r)), c, 0) =~= decomp(false, l, c, 0) + "<="@
        + decomp(false, r, c, 0));
    assert(decomp(false, EV::Bin("or_less"@, Box::new(l), Box::new(r)), c, 0) =~= decomp(false, l, c, 0) + ">="@
        + decomp(false, r, c, 0));
}

/// `u` is how `s` ends.
pub open spec fn ends_with(s: Seq<char>, u: Seq<char>) -> bool {
    u.len() <= s.len() && s.subrange(s.len() - u.len(), s.len() as int) == u
}

/// A text ends with its last part.
pub broadcast proof fn lemma_ends_with_last(x: Seq<char>, y: Seq<char>)
    ensures
        #[trigger] ends_with(x + y, y),
{
    assert((x + y).subrange((x + y).len() - y.len(), (x + y).len() as int) =~= y);
}

/// A text ends with `u1 + u2` when its last part is `u2` and the rest ends
/// with `u1`.
pub broadcast proof fn lemma_ends_with_concat(x: Seq<char>, y: Seq<char>, u1: Seq<char>, u2: Seq<char>)
    ensures
        (y == u2 && ends_with(x, u1)) ==> #[trigger] ends_with(x + y, u1 + u2),
{
    if y == u2 && ends_with(x, u1) {
        assert((x + y).subrange((x + y).len() - (u1 + u2).len(), (x + y).len() as int) =~= u1 + u2);
    }
}

/// `t1 + t2` occurs in a text whose last part is `t2` and whose rest ends
/// with `t1`.
pub broadcast proof fn lemma_contains_across(a: Seq<char>, b: Seq<char>, t1: Seq<char>, t2: Seq<char>)
    ensures
        (b == t2 && ends_with(a, t1)) ==> #[trigger] contains(a + b, t1 + t2),
{
    if b == t2 && ends_with(a, t1) {
        let i = a.len() - t1.len();
        assert((a + b).subrange(i, i + (t1 + t2).len()) =~= t1 + t2);
    }
}

/// Every block of an AXI4 slave port that has a reset is clocked by the
/// port's clock and reset by the port's reset: each such block's heading is
/// "always @( posedge" the clock, then "if (" the reset; the blocks of its
/// memory are clocked by the port's clock.
pub proof fn law_axis_clock_and_reset(m: AxisModel)
    ensures
        ({
            let clk = str_out(m.clk);
            let rst = str_out(m.rst);
            let t = axis_text(m);
            &&& contains(t, "    // awready - awv_awr_flag generating\n"@ + "    always @( posedge "@ + clk
                + " ) begin\n"@ + "        if ( "@ + rst + " ) begin\n"@)
            &&& contains(t, "    // waddress generation\n"@ + "    always @( posedge "@ + clk + " ) begin\n"@
                + "        if ( "@ + rst + " ) begin\n"@)
            &&& contains(t, "    // wready generation\n"@ + "    always @( posedge "@ + clk + " ) begin\n"@
                + "        if ( "@ + rst + " ) begin\n"@)
            &&& contains(t, "    // write response generation\n"@ + "    always @( posedge "@ + clk
                + " ) begin\n"@ + "        if ( "@ + rst + " ) begin\n"@)
            &&& contains(t, "    // arready - arv_arr_flag generation\n"@ + "    always @( posedge "@ + clk
                + " ) begin\n"@ + "        if ( "@ + rst + " ) begin\n"@)
            &&& contains(t, "    // raddress generation\n"@ + "    always @( posedge "@ + clk + " ) begin\n"@
                + "        if ( "@ + rst + " ) begin\n"@)
            &&& contains(t, "    // rvalid generation\n"@ + "    always @( posedge "@ + clk + " ) begin\n"@
                + "        if ( "@ + rst + " ) begin\n"@)
            &&& m.mem ==> contains(t, "    always @( posedge "@ + clk + " ) begin\n"@
                + "        if ( r_axi_wready & w_axi_wvalid ) begin\n"@)
            &&& m.mem ==> contains(t, "    always @( posedge "@ + clk + " ) begin\n"@
                + "        r_axi_rdata <= axi_mem[r_axi_araddr["@)
        }),
{
    broadcast use lemma_contains_self, lemma_contains_concat, lemma_ends_with_last, lemma_ends_with_concat,
        lemma_contains_across;
}

proof fn lemma_local_writes_contain(regs: Seq<EV>, writes: Seq<(EV, EV)>, n: int, k: int)
    requires
        0 <= k < n,
    ensures
        contains(local_writes(regs, writes, n), local_write_text(regs[k], writes[k])),
    decreases n,
{
    broadcast use lemma_contains_self, lemma_contains_concat;
    if k < n - 1 {
        lemma_local_writes_contain(regs, writes, n - 1, k);
    }
}

proof fn lemma_read_regs_contain(regs: Seq<EV>, n: int, w2: Seq<char>, c: Seq<char>, k: int)
    requires
        0 <= k < n,
    ensures
        contains(read_regs(regs, n, w2, c), lite_read_reg(w2, spec_hex2(k as nat), c, str_out(regs[k]))),
    decreases n,
{
    broadcast use lemma_contains_self, lemma_contains_concat;
    if k < n - 1 {
        lemma_read_regs_contain(regs, n - 1, w2, c, k);
    }
}

proof fn lemma_write_regs_contain(regs: Seq<EV>, n: int, w2: Seq<char>, c: Seq<char>, k: int)
    requires
        0 <= k < n,
    ensures
        contains(write_regs(regs, n, w2, c), lite_write_reg(w2, spec_hex2(k as nat), c, str_out(regs[k]))),
    decreases n,
{
    broadcast use lemma_contains_self, lemma_contains_concat;
    if k < n - 1 {
        lemma_write_regs_contain(regs, n - 1, w2, c, k);
    }
}

/// In the text of an AXI4-Lite slave port, the local write set for register
/// `k` assigns register `k` itself: under its own enable, with its own data.
pub proof fn law_lite_local_write_lands(m: LiteModel, count: int, k: int)
    requires
        0 <= k < m.regs.len(),
        m.writes.len() == m.regs.len(),
        !(m.writes[k].0 is Null),
    ensures
        contains(
            lite_text(m, count),
            "\n"@ + "            if( "@ + decomp(false, m.writes[k].0, ""@, 0) + " ) begin \n"@ + "                    "@
                + str_out(m.regs[k]) + " <= "@ + decomp(false, m.writes[k].1, ""@, 0) + ";\n"@ + "            end\n"@,
        ),
{
    broadcast use lemma_contains_self, lemma_contains_concat;
    let n = m.regs.len() as int;
    let lw = local_writes(m.regs, m.writes, n);
    assert(contains(lite_text(m, count), lw));
    lemma_local_writes_contain(m.regs, m.writes, n, k);
    let x = local_write_text(m.regs[k], m.writes[k]);
    lemma_contains_trans(lite_text(m, count), lw, x);
}

/// In the text of an AXI4-Lite slave port, register `k` is read and written
/// at word address `k` (in hexadecimal, on an address of the port's width):
/// the read gives register `k`, and the byte writes go to register `k`.
pub proof fn law_lite_register_addresses(m: LiteModel, count: int, k: int)
    requires
        0 <= k < m.regs.len(),
    ensures
        ({
            let c = spec_dec(count);
            let w = addr_bits(m.regs.len() * 4 - 1);
            let w2 = spec_dec(w - 2);
            let name = str_out(m.regs[k]);
            &&& contains(
                lite_text(m, count),
                "                    "@ + w2 + "'h"@ + spec_hex2(k as nat) + " : r_rdata"@ + c + " <= "@ + name + ";\n"@,
            )
            &&& contains(
                lite_text(m, count),
                "                    "@ + w2 + "'h"@ + spec_hex2(k as nat) + " : begin\n"@
                    + "                        if ( r_wstrb"@ + c + "[0] == 1'b1 ) "@ + name + " <= w_wdata"@ + c
                    + "[7:0];\n"@,
            )
        }),
{
    broadcast use lemma_contains_self, lemma_contains_concat;
    let c = spec_dec(count);
    let w = addr_bits(m.regs.len() * 4 - 1);
    let w2 = spec_dec(w - 2);
    let n = m.regs.len() as int;
    let t = lite_text(m, count);
    let rr = read_regs(m.regs, n, w2, c);
    assert(contains(t, rr));
    lemma_read_regs_contain(m.regs, n, w2, c, k);
    lemma_contains_trans(t, rr, lite_read_reg(w2, spec_hex2(k as nat), c, str_out(m.regs[k])));
    let wr = write_regs(m.regs, n, w2, c);
    assert(contains(t, wr));
    lemma_write_regs_contain(m.regs, n, w2, c, k);
    let one = lite_write_reg(w2, spec_hex2(k as nat), c, str_out(m.regs[k]));
    lemma_contains_trans(t, wr, one);
    assert(contains(one, "                    "@ + w2 + "'h"@ + spec_hex2(k as nat) + " : begin\n"@
        + "                        if ( r_wstrb"@ + c + "[0] == 1'b1 ) "@ + str_out(m.regs[k]) + " <= w_wdata"@ + c
        + "[7:0];\n"@));
    lemma_contains_trans(t, one, "                    "@ + w2 + "'h"@ + spec_hex2(k as nat) + " : begin\n"@
        + "                        if ( r_wstrb"@ + c + "[0] == 1'b1 ) "@ + str_out(m.regs[k]) + " <= w_wdata"@ + c
        + "[7:0];\n"@);
}

/// Every block of an AXI4-Lite slave port is clocked by the port's clock and
/// reset by the port's reset.
pub proof fn law_lite_clock_and_reset(m: LiteModel, count: int)
    ensures
        ({
            let c = spec_dec(count);
            let clk = str_out(m.clk);
            let rst = str_out(m.rst);
            let t = lite_text(m, count);
            &&& contains(t, "    // wready - waddress generating\n"@ + "    always @( posedge "@ + clk + " ) begin\n"@
                + "        if( "@ + rst + " ) begin\n"@ + "            r_wready"@ + c)
            &&& contains(t, "    // wdata generating\n"@ + "    always@( posedge "@ + clk + " ) begin\n"@
                + "        if( "@ + rst + " ) begin\n"@)
            &&& contains(t, "    // wready - waddress generating\n"@ + "    always @( posedge "@ + clk + " ) begin\n"@
                + "        if( "@ + rst + " ) begin\n"@ + "            r_bvalid"@ + c)
            &&& contains(t, "\n"@ + "    always @( posedge "@ + clk + " ) begin\n"@ + "        if( "@ + rst
                + " ) begin\n"@ + "            r_rdata"@ + c)
        }),
{
    broadcast use lemma_contains_self, lemma_contains_concat, lemma_ends_with_last, lemma_ends_with_concat,
        lemma_contains_across;
}

/// What ends a text ends every text that it ends.
pub broadcast proof fn lemma_ends_with_suffix(x: Seq<char>, y: Seq<char>, u: Seq<char>)
    ensures
        ends_with(y, u) ==> #[trigger] ends_with(x + y, u),
{
    if ends_with(y, u) {
        assert((x + y).subrange((x + y).len() - u.len(), (x + y).len() as int) =~= y.subrange(
            y.len() - u.len(),
            y.len() as int,
        ));
    }
}

/// `u` is how `s` begins.
pub open spec fn starts_with(s: Seq<char>, u: Seq<char>) -> bool {
    u.len() <= s.len() && s.subrange(0, u.len() as int) == u
}

proof fn lemma_edge_list_contains(kw: Seq<char>, s: Seq<VarModel>, i: int)
    requires
        0 <= i < s.len(),
    ensures
        contains(edge_list(kw, s), kw + s[i].name),
    decreases s.len(),
{
    broadcast use lemma_contains_self, lemma_contains_concat, lemma_ends_with_last, lemma_ends_with_concat,
        lemma_contains_across;
    if s.len() > 1 && i < s.len() - 1 {
        lemma_edge_list_contains(kw, s.drop_last(), i);
        assert(s.drop_last()[i] == s[i]);
    }
}

/// An `always` block waits on the rising edge ("posedge") of every signal
/// added as a rising edge and on the falling edge ("negedge") of every
/// signal added as a falling edge; a block on one falling edge alone, or on
/// one rising and one falling edge, begins with exactly that list.
pub proof fn law_always_edges(x: AlwaysModel, i: int, j: int)
    ensures
        0 <= i < x.pos.len() ==> contains(always_block(x), "posedge "@ + x.pos[i].name),
        0 <= j < x.neg.len() ==> contains(always_block(x), "negedge "@ + x.neg[j].name),
        x.pos.len() == 0 && x.neg.len() == 1 ==> starts_with(
            always_block(x),
            "    always@("@ + "negedge "@ + x.neg[0].name + ") begin\n"@,
        ),
        x.pos.len() == 1 && x.neg.len() == 0 ==> starts_with(
            always_block(x),
            "    always@("@ + "posedge "@ + x.pos[0].name + ") begin\n"@,
        ),
        x.pos.len() == 1 && x.neg.len() == 1 ==> starts_with(
            always_block(x),
            "    always@("@ + "posedge "@ + x.pos[0].name + " or "@ + "negedge "@ + x.neg[0].name + ") begin\n"@,
        ),
{
    broadcast use lemma_contains_self, lemma_contains_concat;
    if 0 <= i < x.pos.len() {
        lemma_edge_list_contains("posedge "@, x.pos, i);
        lemma_contains_trans(always_block(x), edge_list("posedge "@, x.pos), "posedge "@ + x.pos[i].name);
    }
    if 0 <= j < x.neg.len() {
        lemma_edge_list_contains("negedge "@, x.neg, j);
        lemma_contains_trans(always_block(x), edge_list("negedge "@, x.neg), "negedge "@ + x.neg[j].name);
    }
    let e = Seq::<char>::empty();
    let rest = stmts_rest(x);
    if x.pos.len() == 0 && x.neg.len() == 1 {
        let h = "    always@("@ + "negedge "@ + x.neg[0].name + ") begin\n"@;
        assert(edge_list("posedge "@, x.pos) == e);
        assert(always_block(x) =~= h + rest);
        assert((h + rest).subrange(0, h.len() as int) =~= h);
    }
    if x.pos.len() == 1 && x.neg.len() == 0 {
        let h = "    always@("@ + "posedge "@ + x.pos[0].name + ") begin\n"@;
        assert(edge_list("negedge "@, x.neg) == e);
        assert(always_block(x) =~= h + rest);
        assert((h + rest).subrange(0, h.len() as int) =~= h);
    }
    if x.pos.len() == 1 && x.neg.len() == 1 {
        let h = "    always@("@ + "posedge "@ + x.pos[0].name + " or "@ + "negedge "@ + x.neg[0].name + ") begin\n"@;
        assert(always_block(x) =~= h + rest);
        assert((h + rest).subrange(0, h.len() as int) =~= h);
    }
}

/// What follows the edge list of an `always` block.
spec fn stmts_rest(x: AlwaysModel) -> Seq<char> {
    crate::render::stmts_text(x.stmts, x.br, 2) + "    end\n"@
}

proof fn lemma_always_blocks_contain(s: Seq<AlwaysModel>, j: int, t: Seq<char>)
    requires
        0 <= j < s.len(),
        contains(always_block(s[j]), t),
    ensures
        contains(always_blocks(s), t),
    decreases s.len(),
{
    broadcast use lemma_contains_concat;
    if j < s.len() - 1 {
        assert(s.drop_last()[j] == s[j]);
        lemma_always_blocks_contain(s.drop_last(), j, t);
    }
}

/// In the `always` section of a module, block `k` waits on the falling edge
/// of each of its falling-edge signals and on the rising edge of each of its
/// rising-edge signals.
pub proof fn law_always_section_edges(s: Seq<AlwaysModel>, k: int, i: int, j: int)
    requires
        0 <= k < s.len(),
    ensures
        0 <= i < s[k].pos.len() ==> contains(print_always(s), "posedge "@ + s[k].pos[i].name),
        0 <= j < s[k].neg.len() ==> contains(print_always(s), "negedge "@ + s[k].neg[j].name),
{
    broadcast use lemma_contains_concat;
    law_always_edges(s[k], i, j);
    if 0 <= i < s[k].pos.len() {
        lemma_always_blocks_contain(s, k, "posedge "@ + s[k].pos[i].name);
    }
    if 0 <= j < s[k].neg.len() {
        lemma_always_blocks_contain(s, k, "negedge "@ + s[k].neg[j].name);
    }
}

/// The declaration of one function input, without what separates it from
/// the next: its width (where over 0) and its name.
pub open spec fn declared_input(w: VarModel) -> Seq<char> {
    if w.width > 0 {
        "        input ["@ + spec_dec(w.width - 1) + ":0]"@ + w.name
    } else {
        "        input "@ + w.name
    }
}

/// Every input of the list is a signal.
pub open spec fn all_signals(s: Seq<EV>) -> bool {
    forall|i: int| 0 <= i < s.len() ==> (#[trigger] s[i]) is Ldc
}

proof fn lemma_var_count_all(s: Seq<EV>)
    requires
        all_signals(s),
    ensures
        var_count(s) == s.len(),
    decreases s.len(),
{
    if s.len() > 0 {
        assert(all_signals(s.drop_last())) by {
            assert forall|i: int| 0 <= i < s.drop_last().len() implies (#[trigger] s.drop_last()[i]) is Ldc by {
                assert(s.drop_last()[i] == s[i]);
            }
        }
        lemma_var_count_all(s.drop_last());
        assert(s.last() is Ldc);
    }
}

proof fn lemma_input_decls_contain(s: Seq<EV>, total: nat, i: int)
    requires
        all_signals(s),
        0 <= i < s.len(),
    ensures
        contains(input_decls(s, total), input_decl(s[i], (i + 1) as nat, total)),
        i == s.len() - 1 ==> ends_with(input_decls(s, total), input_decl(s[i], (i + 1) as nat, total)),
    decreases s.len(),
{
    broadcast use lemma_contains_self, lemma_contains_concat, lemma_ends_with_last;
    lemma_var_count_all(s);
    if i < s.len() - 1 {
        assert(all_signals(s.drop_last())) by {
            assert forall|j: int| 0 <= j < s.drop_last().len() implies (#[trigger] s.drop_last()[j]) is Ldc by {
                assert(s.drop_last()[j] == s[j]);
            }
        }
        assert(s.drop_last()[i] == s[i]);
        lemma_input_decls_contain(s.drop_last(), total, i);
    }
}

/// The inputs of a function whose inputs are all signals are declared in
/// order, each followed by ",\n" except the last, which is followed by the
/// end of the list.
pub proof fn law_function_inputs(f: FuncModel, i: int)
    requires
        all_signals(f.inputs),
        0 <= i < f.inputs.len(),
    ensures
        f.inputs[i] matches EV::Ldc(w) && contains(
            func_block(f),
            declared_input(w) + (if i + 1 < f.inputs.len() { ",\n"@ } else { "\n    );\n"@ }),
        ),
{
    broadcast use lemma_contains_self, lemma_contains_concat, lemma_ends_with_last, lemma_ends_with_concat,
        lemma_contains_across, lemma_ends_with_suffix;
    let s = f.inputs;
    let n = s.len();
    assert(s[i] is Ldc);
    let w = s[i]->Ldc_0;
    lemma_input_decls_contain(s, n, i);
    let d = input_decl(s[i], (i + 1) as nat, n);
    if i + 1 < n {
        assert(d == declared_input(w) + ",\n"@);
        lemma_contains_trans(func_block(f), input_decls(s, n), d);
    } else {
        assert(d =~= declared_input(w));
        assert(ends_with(input_decls(s, n), declared_input(w)));
        assert(contains(func_block(f), declared_input(w) + "\n    );\n"@));
    }
}

proof fn lemma_func_blocks_contain(s: Seq<FuncModel>, j: int, t: Seq<char>)
    requires
        0 <= j < s.len(),
        contains(func_block(s[j]), t),
    ensures
        contains(func_blocks(s), t),
    decreases s.len(),
{
    broadcast use lemma_contains_concat;
    if j < s.len() - 1 {
        assert(s.drop_last()[j] == s[j]);
        lemma_func_blocks_contain(s.drop_last(), j, t);
    }
}

/// In the function section of a module, the inputs of function `k` (all
/// signals) are declared in order, separated by ",\n", the last followed by
/// the end of the list.
pub proof fn law_function_section_inputs(fs: Seq<FuncModel>, k: int, i: int)
    requires
        0 <= k < fs.len(),
        all_signals(fs[k].inputs),
        0 <= i < fs[k].inputs.len(),
    ensures
        fs[k].inputs[i] matches EV::Ldc(w) && contains(
            print_function(fs),
            declared_input(w) + (if i + 1 < fs[k].inputs.len() { ",\n"@ } else { "\n    );\n"@ }),
        ),
{
    broadcast use lemma_contains_concat;
    law_function_inputs(fs[k], i);
    let w = fs[k].inputs[i]->Ldc_0;
    lemma_func_blocks_contain(
        fs,
        k,
        declared_input(w) + (if i + 1 < fs[k].inputs.len() { ",\n"@ } else { "\n    );\n"@ }),
    );
}

} // verus!
