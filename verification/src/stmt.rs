//! Continuous assignments, `always` blocks and functions, and the Verilog text
//! of each kind of block.

use vstd::prelude::*;
use crate::ast::{
    E, EV, wrVar, VarModel, IfModel, IfStmt_AST, ArmModel, CaseModel, fresh_var, views_of, vars_view,
    lemma_views_of, clone_box, clone_boxes, clone_vars, If, Case, push_branch, push_arm, print_stmts,
    DecompAST,
};
use crate::render::{decomp, stmts_text, stmts_printable, printable, opt_text};
use crate::text::{spec_dec, push_dec};

verus! {

// ---------------------------------------------------------------- assign

/// A continuous assignment `assign lhs = rhs;`.
#[derive(Debug)]
pub struct Assign {
    lhs: Box<E>,
    rhs: Box<E>,
}

/// What an `Assign` holds.
pub struct AssignModel {
    pub lhs: EV,
    pub rhs: EV,
}

impl View for Assign {
    type V = AssignModel;

    closed spec fn view(&self) -> AssignModel {
        AssignModel { lhs: self.lhs@, rhs: self.rhs@ }
    }
}

impl Clone for Assign {
    fn clone(&self) -> (r: Self)
        ensures
            r@ == self@,
    {
        Assign { lhs: clone_box(&self.lhs), rhs: clone_box(&self.rhs) }
    }
}

impl Assign {
    /// An assignment between two fresh signals.
    pub fn new() -> (r: Assign)
        ensures
            r@ == (AssignModel { lhs: EV::Ldc(fresh_var()), rhs: EV::Ldc(fresh_var()) }),
    {
        Assign { lhs: Box::new(E::Ldc(wrVar::new())), rhs: Box::new(E::Ldc(wrVar::new())) }
    }

    /// Sets the left-hand side; returns a copy.
    pub fn L(&mut self, LHS: Box<E>) -> (r: Assign)
        ensures
            final(self)@ == (AssignModel { lhs: LHS@, ..old(self)@ }),
            r@ == final(self)@,
    {
        self.lhs = LHS;
        self.clone()
    }

    /// Sets the right-hand side; returns a copy.
    pub fn R(&mut self, RHS: Box<E>) -> (r: Assign)
        ensures
            final(self)@ == (AssignModel { rhs: RHS@, ..old(self)@ }),
            r@ == final(self)@,
    {
        self.rhs = RHS;
        self.clone()
    }

    /// The left-hand side.
    pub fn LOut(&mut self) -> (r: Box<E>)
        ensures
            r@ == old(self)@.lhs,
            final(self)@ == old(self)@,
    {
        clone_box(&self.lhs)
    }

    /// The right-hand side.
    pub fn ROut(&mut self) -> (r: Box<E>)
        ensures
            r@ == old(self)@.rhs,
            final(self)@ == old(self)@,
    {
        clone_box(&self.rhs)
    }
}

/// Building an assignment from a left-hand side.
pub trait SetEqual<T> {
    fn _e(&self, RHS: T) -> Assign;

    fn _ve(&self, RHS: T) -> Assign;
}

impl SetEqual<Box<E>> for Box<E> {
    /// `assign self = RHS;`
    fn _e(&self, RHS: Box<E>) -> (r: Assign)
        ensures
            r@ == (AssignModel { lhs: self@, rhs: RHS@ }),
    {
        let mut tmp = Assign::new();
        tmp.L(clone_box(self)).R(RHS)
    }

    /// `assign self = RHS;`
    fn _ve(&self, RHS: Box<E>) -> (r: Assign)
        ensures
            r@ == (AssignModel { lhs: self@, rhs: RHS@ }),
    {
        let mut tmp = Assign::new();
        tmp.L(clone_box(self)).R(RHS)
    }
}

impl SetEqual<i32> for Box<E> {
    /// `assign self = RHS;`
    fn _e(&self, RHS: i32) -> (r: Assign)
        ensures
            r@ == (AssignModel { lhs: self@, rhs: EV::Num(RHS) }),
    {
        let mut tmp = Assign::new();
        tmp.L(clone_box(self)).R(Box::new(E::Num(RHS)))
    }

    /// `assign self = RHS;`
    fn _ve(&self, RHS: i32) -> (r: Assign)
        ensures
            r@ == (AssignModel { lhs: self@, rhs: EV::Num(RHS) }),
    {
        let mut tmp = Assign::new();
        tmp.L(clone_box(self)).R(Box::new(E::Num(RHS)))
    }
}

/// One continuous assignment line.
pub open spec fn assign_line(a: AssignModel) -> Seq<char> {
    "    assign "@ + decomp(false, a.lhs, ""@, 0) + " = "@ + decomp(false, a.rhs, ""@, 0) + ";\n"@
}

/// The continuous assignment lines, one after the other.
pub open spec fn assign_lines(s: Seq<AssignModel>) -> Seq<char>
    decreases s.len(),
{
    if s.len() == 0 {
        Seq::empty()
    } else {
        assign_lines(s.drop_last()) + assign_line(s.last())
    }
}

/// The assignment section of a module (nothing when there are no assignments).
pub open spec fn print_assign(s: Seq<AssignModel>) -> Seq<char> {
    if s.len() == 0 {
        Seq::empty()
    } else {
        "\n    // ----Generate Assign Compornent----\n\n"@ + assign_lines(s) + "\n"@
    }
}

/// Every assignment can be written out.
pub open spec fn assigns_printable(s: Seq<AssignModel>) -> bool {
    forall|i: int| 0 <= i < s.len() ==> printable(#[trigger] s[i].lhs, 0) && printable(s[i].rhs, 0)
}

/// The models of a list of assignments.
pub open spec fn assigns_view(s: Seq<Assign>) -> Seq<AssignModel> {
    s.map_values(|a: Assign| a@)
}

/// The assignment section of a module.
pub fn PrintAssign(Assign: &Vec<Assign>) -> (st: String)
    requires
        assigns_printable(assigns_view(Assign@)),
    ensures
        st@ == print_assign(assigns_view(Assign@)),
{
    let ghost s = assigns_view(Assign@);
    if Assign.len() == 0 {
        return String::new();
    }
    let mut lines = String::new();
    let mut i: usize = 0;
    assert(s.subrange(0, 0) =~= Seq::<AssignModel>::empty());
    while i < Assign.len()
        invariant
            i <= Assign@.len(),
            s == assigns_view(Assign@),
            assigns_printable(s),
            lines@ == assign_lines(s.subrange(0, i as int)),
        decreases Assign@.len() - i,
    {
        let x = &Assign[i];
        assert(s[i as int] == x@);
        assert(printable(s[i as int].lhs, 0) && printable(s[i as int].rhs, 0));
        let l = DecompAST(false, &x.lhs, "", 0);
        let r = DecompAST(false, &x.rhs, "", 0);
        proof {
            reveal_strlit("");
        }
        let mut line = String::new();
        line.append("    assign ");
        line.append(l.as_str());
        line.append(" = ");
        line.append(r.as_str());
        line.append(";\n");
        lines.append(line.as_str());
        i = i + 1;
        let ghost sub = s.subrange(0, i as int);
        assert(sub.drop_last() =~= s.subrange(0, i - 1));
        assert(line@ =~= assign_line(sub.last()));
        assert(lines@ =~= assign_lines(sub));
    }
    assert(s.subrange(0, Assign@.len() as int) =~= s);
    let mut st = String::new();
    st.append("\n    // ----Generate Assign Compornent----\n\n");
    st.append(lines.as_str());
    st.append("\n");
    assert(st@ =~= print_assign(s));
    st
}

// ---------------------------------------------------------------- always

/// An `always` block: blocking ("brock") or not, its statements, and the
/// signals whose rising and falling edges it waits on.
#[derive(Debug)]
pub struct Always {
    br: String,
    stmt: Vec<Box<E>>,
    P_edge: Vec<wrVar>,
    N_edge: Vec<wrVar>,
}

/// What an `Always` holds.
pub struct AlwaysModel {
    pub br: Seq<char>,
    pub stmts: Seq<EV>,
    pub pos: Seq<VarModel>,
    pub neg: Seq<VarModel>,
}

impl View for Always {
    type V = AlwaysModel;

    closed spec fn view(&self) -> AlwaysModel {
        AlwaysModel {
            br: self.br@,
            stmts: views_of(self.stmt@),
            pos: vars_view(self.P_edge@),
            neg: vars_view(self.N_edge@),
        }
    }
}

impl Clone for Always {
    fn clone(&self) -> (r: Self)
        ensures
            r@ == self@,
    {
        Always {
            br: self.br.clone(),
            stmt: clone_boxes(&self.stmt),
            P_edge: clone_vars(&self.P_edge),
            N_edge: clone_vars(&self.N_edge),
        }
    }
}

/// An empty blocking block waiting on nothing.
pub open spec fn empty_always() -> AlwaysModel {
    AlwaysModel { br: "brock"@, stmts: Seq::empty(), pos: Seq::empty(), neg: Seq::empty() }
}

/// The edge list after waiting on `edge` too: signals are added, anything else
/// is ignored.
pub open spec fn add_edge(s: Seq<VarModel>, edge: EV) -> Seq<VarModel> {
    match edge {
        EV::Ldc(w) => s.push(w),
        _ => s,
    }
}

fn new_always() -> (r: Always)
    ensures
        r@ == empty_always(),
{
    let r = Always { br: "brock".to_owned(), stmt: Vec::new(), P_edge: Vec::new(), N_edge: Vec::new() };
    proof {
        lemma_views_of(r.stmt@);
    }
    assert(views_of(r.stmt@) =~= Seq::<EV>::empty());
    assert(vars_view(r.P_edge@) =~= Seq::<VarModel>::empty());
    r
}

fn push_edge(v: &mut Vec<wrVar>, edge: Box<E>)
    ensures
        vars_view(final(v)@) == add_edge(vars_view(old(v)@), edge@),
{
    let ghost s0 = v@;
    match *edge {
        E::Ldc(wr) => {
            v.push(wr);
            assert(vars_view(v@) =~= vars_view(s0).push(wr@));
        },
        _ => {},
    }
}

/// A blocking `always` block waiting on the rising edge of `edge`.
pub fn Posedge(edge: Box<E>) -> (r: Always)
    ensures
        r@ == (AlwaysModel { pos: add_edge(Seq::empty(), edge@), ..empty_always() }),
{
    let mut tmp = new_always();
    push_edge(&mut tmp.P_edge, edge);
    tmp
}

/// A blocking `always` block waiting on the falling edge of `edge`.
pub fn Negedge(edge: Box<E>) -> (r: Always)
    ensures
        r@ == (AlwaysModel { neg: add_edge(Seq::empty(), edge@), ..empty_always() }),
{
    let mut tmp = new_always();
    push_edge(&mut tmp.N_edge, edge);
    tmp
}

/// A blocking `always` block waiting on nothing.
pub fn Nonedge() -> (r: Always)
    ensures
        r@ == empty_always(),
{
    new_always()
}

/// The statement list after the last statement is taken off and, when it is an
/// `if` chain, put back with the branch `x` added.
pub open spec fn with_branch(s: Seq<EV>, x: IfModel) -> Seq<EV> {
    match s.last() {
        EV::BL(v) => s.drop_last().push(EV::BL(v.push(x))),
        _ => s.drop_last(),
    }
}

/// The statement list with the branch `x` added to its last statement, which
/// is a `case` block.
pub open spec fn with_arm(s: Seq<EV>, x: ArmModel) -> Seq<EV> {
    match s.last() {
        EV::CS(c) => s.drop_last().push(EV::CS(CaseModel { select: c.select.push(x), ..c })),
        _ => s.drop_last(),
    }
}

/// Takes off the last statement and, when it is an `if` chain, puts it back
/// with the branch added.
fn stmts_add_branch(v: &mut Vec<Box<E>>, x: IfStmt_AST)
    requires
        old(v)@.len() > 0,
    ensures
        views_of(final(v)@) == with_branch(views_of(old(v)@), x@),
{
    let ghost s0 = views_of(v@);
    proof {
        lemma_views_of(v@);
    }
    let n = v.pop().unwrap();
    proof {
        lemma_views_of(v@);
    }
    assert(views_of(v@) =~= s0.drop_last());
    match push_branch(*n, x) {
        Some(e) => {
            let ghost s1 = views_of(v@);
            v.push(Box::new(e));
            proof {
                lemma_views_of(v@);
            }
            assert(views_of(v@) =~= s1.push(e@));
        },
        None => {},
    }
}

/// Takes off the last statement, a `case` block, and puts it back with the
/// branch added.
fn stmts_add_arm(v: &mut Vec<Box<E>>, label: Box<E>, stmts: Vec<Box<E>>)
    requires
        old(v)@.len() > 0,
    ensures
        views_of(final(v)@) == with_arm(
            views_of(old(v)@),
            ArmModel { label: label@, stmts: views_of(stmts@) },
        ),
{
    let ghost s0 = views_of(v@);
    proof {
        lemma_views_of(v@);
    }
    let n = v.pop().unwrap();
    proof {
        lemma_views_of(v@);
    }
    assert(views_of(v@) =~= s0.drop_last());
    match push_arm(*n, label, stmts) {
        Some(e) => {
            let ghost s1 = views_of(v@);
            v.push(Box::new(e));
            proof {
                lemma_views_of(v@);
            }
            assert(views_of(v@) =~= s1.push(e@));
        },
        None => {},
    }
}

fn stmts_push(v: &mut Vec<Box<E>>, e: Box<E>)
    ensures
        views_of(final(v)@) == views_of(old(v)@).push(e@),
{
    let ghost s0 = v@;
    v.push(e);
    proof {
        lemma_views_of(s0);
        lemma_views_of(v@);
    }
    assert(views_of(v@) =~= views_of(s0).push(e@));
}

impl Always {
    /// An empty blocking block waiting on nothing.
    pub fn new() -> (r: Always)
        ensures
            r@ == empty_always(),
    {
        new_always()
    }

    /// The block kind.
    fn blockout(&self) -> (r: String)
        ensures
            r@ == self@.br,
    {
        self.br.clone()
    }

    /// Makes the block blocking; returns a copy.
    pub fn block(&mut self) -> (r: Always)
        ensures
            final(self)@ == (AlwaysModel { br: "brock"@, ..old(self)@ }),
            r@ == final(self)@,
    {
        self.br = "brock".to_owned();
        self.clone()
    }

    /// Makes the block non-blocking; returns a copy.
    pub fn non(&mut self) -> (r: Always)
        ensures
            final(self)@ == (AlwaysModel { br: "Non"@, ..old(self)@ }),
            r@ == final(self)@,
    {
        self.br = "Non".to_owned();
        self.clone()
    }

    /// Also waits on the rising edge of `edge`; returns a copy.
    pub fn Posedge(&mut self, edge: Box<E>) -> (r: Always)
        ensures
            final(self)@ == (AlwaysModel { pos: add_edge(old(self)@.pos, edge@), ..old(self)@ }),
            r@ == final(self)@,
    {
        push_edge(&mut self.P_edge, edge);
        self.clone()
    }

    /// Also waits on the falling edge of `edge`; returns a copy.
    pub fn Negedge(&mut self, edge: Box<E>) -> (r: Always)
        ensures
            final(self)@ == (AlwaysModel { neg: add_edge(old(self)@.neg, edge@), ..old(self)@ }),
            r@ == final(self)@,
    {
        push_edge(&mut self.N_edge, edge);
        self.clone()
    }

    /// Adds an `if` statement; returns a copy.
    pub fn If(&mut self, C: Box<E>, S: Vec<Box<E>>) -> (r: Always)
        ensures
            final(self)@ == (AlwaysModel {
                stmts: old(self)@.stmts.push(
                    EV::BL(seq![IfModel { is_if: true, cond: C@, stmts: views_of(S@) }]),
                ),
                ..old(self)@
            }),
            r@ == final(self)@,
    {
        let i = If(C, S);
        stmts_push(&mut self.stmt, i);
        self.clone()
    }

    /// Adds an `else if` branch to the last statement (which is dropped when it
    /// is no `if` chain); returns a copy.
    pub fn Else_If(&mut self, C: Box<E>, S: Vec<Box<E>>) -> (r: Always)
        requires
            old(self)@.stmts.len() > 0,
        ensures
            final(self)@ == (AlwaysModel {
                stmts: with_branch(
                    old(self)@.stmts,
                    IfModel { is_if: true, cond: C@, stmts: views_of(S@) },
                ),
                ..old(self)@
            }),
            r@ == final(self)@,
    {
        proof {
            lemma_views_of(self.stmt@);
        }
        stmts_add_branch(&mut self.stmt, IfStmt_AST::branch(true, C, S));
        self.clone()
    }

    /// Adds an `else` branch to the last statement (which is dropped when it is
    /// no `if` chain); returns a copy.
    pub fn Else(&mut self, S: Vec<Box<E>>) -> (r: Always)
        requires
            old(self)@.stmts.len() > 0,
        ensures
            final(self)@ == (AlwaysModel {
                stmts: with_branch(
                    old(self)@.stmts,
                    IfModel { is_if: false, cond: EV::Null, stmts: views_of(S@) },
                ),
                ..old(self)@
            }),
            r@ == final(self)@,
    {
        proof {
            lemma_views_of(self.stmt@);
        }
        stmts_add_branch(&mut self.stmt, IfStmt_AST::branch(false, Box::new(E::Null), S));
        self.clone()
    }

    /// Adds a `case` statement on `Sel`; returns a copy.
    pub fn Case(&mut self, Sel: Box<E>) -> (r: Always)
        ensures
            final(self)@ == (AlwaysModel {
                stmts: old(self)@.stmts.push(
                    EV::CS(CaseModel {
                        var: match Sel@ {
                            EV::Ldc(w) => w,
                            _ => fresh_var(),
                        },
                        select: Seq::empty(),
                    }),
                ),
                ..old(self)@
            }),
            r@ == final(self)@,
    {
        let c = Case(Sel);
        stmts_push(&mut self.stmt, c);
        self.clone()
    }

    /// Adds a branch to the last statement, a `case` block; returns a copy.
    pub fn S(&mut self, C: Box<E>, S: Vec<Box<E>>) -> (r: Always)
        requires
            old(self)@.stmts.len() > 0,
            old(self)@.stmts.last() is CS,
        ensures
            final(self)@ == (AlwaysModel {
                stmts: with_arm(old(self)@.stmts, ArmModel { label: C@, stmts: views_of(S@) }),
                ..old(self)@
            }),
            r@ == final(self)@,
    {
        proof {
            lemma_views_of(self.stmt@);
        }
        stmts_add_arm(&mut self.stmt, C, S);
        self.clone()
    }

    /// Adds the default branch to the last statement, a `case` block; returns a
    /// copy.
    pub fn Default(&mut self, S: Vec<Box<E>>) -> (r: Always)
        requires
            old(self)@.stmts.len() > 0,
            old(self)@.stmts.last() is CS,
        ensures
            final(self)@ == (AlwaysModel {
                stmts: with_arm(old(self)@.stmts, ArmModel { label: EV::Null, stmts: views_of(S@) }),
                ..old(self)@
            }),
            r@ == final(self)@,
    {
        proof {
            lemma_views_of(self.stmt@);
        }
        stmts_add_arm(&mut self.stmt, Box::new(E::Null), S);
        self.clone()
    }

    /// The signals whose rising edges the block waits on.
    pub fn out_p_edge(&mut self) -> (r: Vec<wrVar>)
        ensures
            vars_view(r@) == old(self)@.pos,
            final(self)@ == old(self)@,
    {
        clone_vars(&self.P_edge)
    }

    /// The signals whose falling edges the block waits on.
    pub fn out_n_edge(&mut self) -> (r: Vec<wrVar>)
        ensures
            vars_view(r@) == old(self)@.neg,
            final(self)@ == old(self)@,
    {
        clone_vars(&self.N_edge)
    }
}

/// `kw` and the name of each signal, separated by " or ".
pub open spec fn edge_list(kw: Seq<char>, s: Seq<VarModel>) -> Seq<char>
    decreases s.len(),
{
    if s.len() == 0 {
        Seq::empty()
    } else if s.len() == 1 {
        kw + s[0].name
    } else {
        edge_list(kw, s.drop_last()) + " or "@ + kw + s.last().name
    }
}

/// One `always` block.
pub open spec fn always_block(x: AlwaysModel) -> Seq<char> {
    "    always@("@ + edge_list("posedge "@, x.pos) + opt_text(x.pos.len() > 0 && x.neg.len() > 0, " or "@)
        + edge_list("negedge "@, x.neg) + ") begin\n"@ + stmts_text(x.stmts, x.br, 2) + "    end\n"@
}

/// The `always` blocks, one after the other.
pub open spec fn always_blocks(s: Seq<AlwaysModel>) -> Seq<char>
    decreases s.len(),
{
    if s.len() == 0 {
        Seq::empty()
    } else {
        always_blocks(s.drop_last()) + always_block(s.last())
    }
}

/// The `always` section of a module (nothing when there are no blocks).
pub open spec fn print_always(s: Seq<AlwaysModel>) -> Seq<char> {
    if s.len() == 0 {
        Seq::empty()
    } else {
        "\n    // ----Generate Always Block----\n\n"@ + always_blocks(s)
    }
}

/// Every `always` block can be written out.
pub open spec fn always_printable(s: Seq<AlwaysModel>) -> bool {
    forall|i: int| 0 <= i < s.len() ==> stmts_printable(#[trigger] s[i].stmts, 2)
}

/// The models of a list of `always` blocks.
pub open spec fn always_view(s: Seq<Always>) -> Seq<AlwaysModel> {
    s.map_values(|a: Always| a@)
}

fn print_edges(kw: &str, v: &Vec<wrVar>) -> (st: String)
    ensures
        st@ == edge_list(kw@, vars_view(v@)),
{
    let ghost s = vars_view(v@);
    let mut st = String::new();
    let mut i: usize = 0;
    assert(s.subrange(0, 0) =~= Seq::<VarModel>::empty());
    while i < v.len()
        invariant
            i <= v@.len(),
            s == vars_view(v@),
            st@ == edge_list(kw@, s.subrange(0, i as int)),
        decreases v@.len() - i,
    {
        if i > 0 {
            st.append(" or ");
        }
        st.append(kw);
        st.append(v[i].getName().as_str());
        i = i + 1;
        let ghost sub = s.subrange(0, i as int);
        assert(sub.drop_last() =~= s.subrange(0, i - 1));
        assert(sub.last() == v@[i - 1]@);
        assert(st@ =~= edge_list(kw@, sub));
    }
    assert(s.subrange(0, v@.len() as int) =~= s);
    st
}

fn print_always_block(x: &Always) -> (st: String)
    requires
        stmts_printable(x@.stmts, 2),
    ensures
        st@ == always_block(x@),
{
    let mut st = String::new();
    st.append("    always@(");
    let p = print_edges("posedge ", &x.P_edge);
    st.append(p.as_str());
    if x.P_edge.len() > 0 && x.N_edge.len() > 0 {
        st.append(" or ");
    }
    let n = print_edges("negedge ", &x.N_edge);
    st.append(n.as_str());
    st.append(") begin\n");
    let b = print_stmts(&x.stmt, x.br.as_str(), 2);
    st.append(b.as_str());
    st.append("    end\n");
    assert(st@ =~= always_block(x@));
    st
}

/// The `always` section of a module.
pub fn PrintAlways(Always: &Vec<Always>) -> (st: String)
    requires
        always_printable(always_view(Always@)),
    ensures
        st@ == print_always(always_view(Always@)),
{
    let ghost s = always_view(Always@);
    if Always.len() == 0 {
        return String::new();
    }
    let mut blocks = String::new();
    let mut i: usize = 0;
    assert(s.subrange(0, 0) =~= Seq::<AlwaysModel>::empty());
    while i < Always.len()
        invariant
            i <= Always@.len(),
            s == always_view(Always@),
            always_printable(s),
            blocks@ == always_blocks(s.subrange(0, i as int)),
        decreases Always@.len() - i,
    {
        assert(s[i as int] == Always@[i as int]@);
        assert(stmts_printable(s[i as int].stmts, 2));
        let b = print_always_block(&Always[i]);
        blocks.append(b.as_str());
        i = i + 1;
        let ghost sub = s.subrange(0, i as int);
        assert(sub.drop_last() =~= s.subrange(0, i - 1));
        assert(blocks@ =~= always_blocks(sub));
    }
    assert(s.subrange(0, Always@.len() as int) =~= s);
    let mut st = String::new();
    st.append("\n    // ----Generate Always Block----\n\n");
    st.append(blocks.as_str());
    assert(st@ =~= print_always(s));
    st
}

// ---------------------------------------------------------------- function

/// A Verilog function: the signal that names it and gives its width, its
/// inputs, and its statements.
#[derive(Debug)]
pub struct Func_AST {
    top: Box<E>,
    input: Vec<Box<E>>,
    stmt: Vec<Box<E>>,
}

/// What a `Func_AST` holds.
pub struct FuncModel {
    pub top: EV,
    pub inputs: Seq<EV>,
    pub stmts: Seq<EV>,
}

impl View for Func_AST {
    type V = FuncModel;

    closed spec fn view(&self) -> FuncModel {
        FuncModel { top: self.top@, inputs: views_of(self.input@), stmts: views_of(self.stmt@) }
    }
}

impl Clone for Func_AST {
    fn clone(&self) -> (r: Self)
        ensures
            r@ == self@,
    {
        Func_AST { top: clone_box(&self.top), input: clone_boxes(&self.input), stmt: clone_boxes(&self.stmt) }
    }
}

/// A function named `name`, `width` bits wide, with no inputs or statements.
pub fn func(name: &str, width: i32) -> (r: Func_AST)
    ensures
        r@ == (FuncModel {
            top: EV::Ldc(VarModel { name: name@, width: width, ..fresh_var() }),
            inputs: Seq::empty(),
            stmts: Seq::empty(),
        }),
{
    let r = Func_AST { top: wrVar::new().Wire(name, width), input: Vec::new(), stmt: Vec::new() };
    proof {
        lemma_views_of(r.input@);
        lemma_views_of(r.stmt@);
    }
    assert(views_of(r.input@) =~= Seq::<EV>::empty());
    assert(views_of(r.stmt@) =~= Seq::<EV>::empty());
    r
}

impl Func_AST {
    /// The signal that names the function.
    pub fn own(&mut self) -> (r: Box<E>)
        ensures
            r@ == old(self)@.top,
            final(self)@ == old(self)@,
    {
        clone_box(&self.top)
    }

    /// A call of the function with the given arguments.
    pub fn using(&mut self, args: Vec<Box<E>>) -> (r: Box<E>)
        ensures
            r@ == EV::Func(Box::new(old(self)@.top), views_of(args@)),
            final(self)@ == old(self)@,
    {
        Box::new(E::Func(clone_box(&self.top), args))
    }

    /// Adds an input of the given name and width; returns the input signal.
    pub fn Input(&mut self, Name: &str, Width: i32) -> (r: Box<E>)
        ensures
            r@ == EV::Ldc(VarModel { name: Name@, width: Width, io: crate::ast::io_p::input_, ..fresh_var() }),
            final(self)@ == (FuncModel { inputs: old(self)@.inputs.push(r@), ..old(self)@ }),
    {
        let mut tmp = wrVar::new();
        let port = tmp.Input(Name, Width);
        stmts_push(&mut self.input, clone_box(&port));
        port
    }

    /// Adds an `if` statement; returns a copy.
    pub fn If(&mut self, C: Box<E>, S: Vec<Box<E>>) -> (r: Func_AST)
        ensures
            final(self)@ == (FuncModel {
                stmts: old(self)@.stmts.push(
                    EV::BL(seq![IfModel { is_if: true, cond: C@, stmts: views_of(S@) }]),
                ),
                ..old(self)@
            }),
            r@ == final(self)@,
    {
        let i = If(C, S);
        stmts_push(&mut self.stmt, i);
        self.clone()
    }

    /// Adds an `else if` branch to the last statement (which is dropped when it
    /// is no `if` chain); returns a copy.
    pub fn Else_If(&mut self, C: Box<E>, S: Vec<Box<E>>) -> (r: Func_AST)
        requires
            old(self)@.stmts.len() > 0,
        ensures
            final(self)@ == (FuncModel {
                stmts: with_branch(
                    old(self)@.stmts,
                    IfModel { is_if: true, cond: C@, stmts: views_of(S@) },
                ),
                ..old(self)@
            }),
            r@ == final(self)@,
    {
        proof {
            lemma_views_of(self.stmt@);
        }
        stmts_add_branch(&mut self.stmt, IfStmt_AST::branch(true, C, S));
        self.clone()
    }

    /// Adds an `else` branch to the last statement (which is dropped when it is
    /// no `if` chain); returns a copy.
    pub fn Else(&mut self, S: Vec<Box<E>>) -> (r: Func_AST)
        requires
            old(self)@.stmts.len() > 0,
        ensures
            final(self)@ == (FuncModel {
                stmts: with_branch(
                    old(self)@.stmts,
                    IfModel { is_if: false, cond: EV::Null, stmts: views_of(S@) },
                ),
                ..old(self)@
            }),
            r@ == final(self)@,
    {
        proof {
            lemma_views_of(self.stmt@);
        }
        stmts_add_branch(&mut self.stmt, IfStmt_AST::branch(false, Box::new(E::Null), S));
        self.clone()
    }

    /// Adds a `case` statement on `Sel`; returns a copy.
    pub fn Case(&mut self, Sel: Box<E>) -> (r: Func_AST)
        ensures
            final(self)@ == (FuncModel {
                stmts: old(self)@.stmts.push(
                    EV::CS(CaseModel {
                        var: match Sel@ {
                            EV::Ldc(w) => w,
                            _ => fresh_var(),
                        },
                        select: Seq::empty(),
                    }),
                ),
                ..old(self)@
            }),
            r@ == final(self)@,
    {
        let c = Case(Sel);
        stmts_push(&mut self.stmt, c);
        self.clone()
    }

    /// Adds a branch to the last statement when it is a `case` block (and drops
    /// the last statement otherwise); returns a copy.
    pub fn S(&mut self, C: Box<E>, S: Vec<Box<E>>) -> (r: Func_AST)
        requires
            old(self)@.stmts.len() > 0,
        ensures
            final(self)@ == (FuncModel {
                stmts: with_arm(old(self)@.stmts, ArmModel { label: C@, stmts: views_of(S@) }),
                ..old(self)@
            }),
            r@ == final(self)@,
    {
        proof {
            lemma_views_of(self.stmt@);
        }
        stmts_add_arm(&mut self.stmt, C, S);
        self.clone()
    }

    /// Adds the default branch to the last statement, a `case` block; returns a
    /// copy.
    pub fn Default(&mut self, S: Vec<Box<E>>) -> (r: Func_AST)
        requires
            old(self)@.stmts.len() > 0,
            old(self)@.stmts.last() is CS,
        ensures
            final(self)@ == (FuncModel {
                stmts: with_arm(old(self)@.stmts, ArmModel { label: EV::Null, stmts: views_of(S@) }),
                ..old(self)@
            }),
            r@ == final(self)@,
    {
        proof {
            lemma_views_of(self.stmt@);
        }
        stmts_add_arm(&mut self.stmt, Box::new(E::Null), S);
        self.clone()
    }
}

/// How many of the expressions are signals.
pub open spec fn var_count(s: Seq<EV>) -> nat
    decreases s.len(),
{
    if s.len() == 0 {
        0
    } else {
        var_count(s.drop_last()) + if s.last() is Ldc { 1nat } else { 0nat }
    }
}

/// One input declaration of a function, followed by ",\n" unless it is the
/// `total`-th; inputs that are no signals are skipped.
pub open spec fn input_decl(e: EV, k: nat, total: nat) -> Seq<char> {
    match e {
        EV::Ldc(w) => (if w.width > 0 {
            "        input ["@ + spec_dec(w.width - 1) + ":0]"@ + w.name
        } else {
            "        input "@ + w.name
        }) + opt_text(k != total, ",\n"@),
        _ => Seq::empty(),
    }
}

/// The input declarations of a function with `total` inputs in all.
pub open spec fn input_decls(s: Seq<EV>, total: nat) -> Seq<char>
    decreases s.len(),
{
    if s.len() == 0 {
        Seq::empty()
    } else {
        input_decls(s.drop_last(), total) + input_decl(s.last(), var_count(s), total)
    }
}

/// The header of a function: its width and name (when the function is named by
/// a signal).
pub open spec fn func_head(top: EV) -> Seq<char> {
    match top {
        EV::Ldc(w) => "\n    function ["@ + spec_dec(w.width - 1) + ":0] "@ + w.name,
        _ => Seq::empty(),
    }
}

/// One function block.
pub open spec fn func_block(f: FuncModel) -> Seq<char> {
    func_head(f.top) + "(\n"@ + input_decls(f.inputs, f.inputs.len()) + "\n    );\n"@
        + stmts_text(f.stmts, ""@, 2) + "    endfunction\n\n"@
}

/// The function blocks, one after the other.
pub open spec fn func_blocks(s: Seq<FuncModel>) -> Seq<char>
    decreases s.len(),
{
    if s.len() == 0 {
        Seq::empty()
    } else {
        func_blocks(s.drop_last()) + func_block(s.last())
    }
}

/// The function section of a module (nothing when there are no functions).
pub open spec fn print_function(s: Seq<FuncModel>) -> Seq<char> {
    if s.len() == 0 {
        Seq::empty()
    } else {
        "\n    // ----Generate Function Block----\n"@ + func_blocks(s)
    }
}

/// A function can be written out: its width is no `i32::MIN` (the header shows
/// the width less one) and its statements can be written out.
pub open spec fn func_printable(f: FuncModel) -> bool {
    &&& f.top matches EV::Ldc(w) ==> w.width > i32::MIN
    &&& stmts_printable(f.stmts, 2)
}

/// Every function can be written out.
pub open spec fn funcs_printable(s: Seq<FuncModel>) -> bool {
    forall|i: int| 0 <= i < s.len() ==> func_printable(#[trigger] s[i])
}

/// The models of a list of functions.
pub open spec fn funcs_view(s: Seq<Func_AST>) -> Seq<FuncModel> {
    s.map_values(|f: Func_AST| f@)
}

fn print_inputs(v: &Vec<Box<E>>) -> (st: String)
    ensures
        st@ == input_decls(views_of(v@), v@.len() as nat),
{
    let ghost s = views_of(v@);
    proof {
        lemma_views_of(v@);
    }
    let mut st = String::new();
    let mut i: usize = 0;
    let mut k: usize = 0;
    assert(s.subrange(0, 0) =~= Seq::<EV>::empty());
    while i < v.len()
        invariant
            i <= v@.len(),
            k <= i,
            s == views_of(v@),
            s.len() == v@.len(),
            forall|j: int| 0 <= j < v@.len() ==> #[trigger] s[j] == e_view_box(v@[j]),
            k == var_count(s.subrange(0, i as int)),
            st@ == input_decls(s.subrange(0, i as int), v@.len() as nat),
        decreases v@.len() - i,
    {
        let ghost sub = s.subrange(0, i + 1);
        assert(sub.drop_last() =~= s.subrange(0, i as int));
        assert(sub.last() == s[i as int]);
        match &*v[i] {
            E::Ldc(wr) => {
                let w = wr.getWidth();
                if w > 0 {
                    st.append("        input [");
                    push_dec(&mut st, (w - 1) as i64);
                    st.append(":0]");
                    st.append(wr.getName().as_str());
                } else {
                    st.append("        input ");
                    st.append(wr.getName().as_str());
                }
                k = k + 1;
                if k != v.len() {
                    st.append(",\n");
                }
            },
            _ => {},
        }
        i = i + 1;
        assert(st@ =~= input_decls(sub, v@.len() as nat));
    }
    assert(s.subrange(0, v@.len() as int) =~= s);
    st
}

/// The model of a boxed expression.
pub open spec fn e_view_box(b: Box<E>) -> EV {
    b@
}

fn print_function_block(x: &Func_AST) -> (st: String)
    requires
        func_printable(x@),
    ensures
        st@ == func_block(x@),
{
    let mut st = String::new();
    match &*x.top {
        E::Ldc(wrtop) => {
            st.append("\n    function [");
            push_dec(&mut st, (wrtop.getWidth() - 1) as i64);
            st.append(":0] ");
            let t = DecompAST(false, &x.top, "", 1);
            st.append(t.as_str());
        },
        _ => {},
    }
    st.append("(\n");
    let ins = print_inputs(&x.input);
    st.append(ins.as_str());
    st.append("\n    );\n");
    let body = print_stmts(&x.stmt, "", 2);
    proof {
        reveal_strlit("");
    }
    st.append(body.as_str());
    st.append("    endfunction\n\n");
    assert(st@ =~= func_block(x@));
    st
}

/// The function section of a module.
pub fn PrintFunction(Function: &Vec<Func_AST>) -> (st: String)
    requires
        funcs_printable(funcs_view(Function@)),
    ensures
        st@ == print_function(funcs_view(Function@)),
{
    let ghost s = funcs_view(Function@);
    if Function.len() == 0 {
        return String::new();
    }
    let mut blocks = String::new();
    let mut i: usize = 0;
    assert(s.subrange(0, 0) =~= Seq::<FuncModel>::empty());
    while i < Function.len()
        invariant
            i <= Function@.len(),
            s == funcs_view(Function@),
            funcs_printable(s),
            blocks@ == func_blocks(s.subrange(0, i as int)),
        decreases Function@.len() - i,
    {
        assert(s[i as int] == Function@[i as int]@);
        assert(func_printable(s[i as int]));
        let b = print_function_block(&Function[i]);
        blocks.append(b.as_str());
        i = i + 1;
        let ghost sub = s.subrange(0, i as int);
        assert(sub.drop_last() =~= s.subrange(0, i - 1));
        assert(blocks@ =~= func_blocks(sub));
    }
    assert(s.subrange(0, Function@.len() as int) =~= s);
    let mut st = String::new();
    st.append("\n    // ----Generate Function Block----\n");
    st.append(blocks.as_str());
    assert(st@ =~= print_function(s));
    st
}

} // verus!
