//! The syntax tree of a Verilog description: signals (`wrVar`), expressions and
//! statements (`E`), `if` chains and `case` blocks, and how they are written out
//! as Verilog text.

use vstd::prelude::*;
use crate::text::{push_dec, push_indent, str_eq};
use crate::render::{
    decomp, args_text, stmts_text, print_if, if_first, if_later, print_case, arms_text, arm_text,
    printable, stmts_printable, if_printable, branch_printable, arms_printable, arm_printable,
    bin_text, opens_paren, right_paren, is_red_op, red_text,
    lemma_stmts_printable, lemma_arms_printable, lemma_if_printable,
};

verus! {

/// The role of a signal: port direction, parameter, or local (`none`).
#[derive(Clone, Copy, Debug, PartialEq, Eq, Structural)]
pub enum io_p {
    input_,
    output_,
    inout_,
    param_,
    none,
}

/// A signal, parameter or memory declaration.
#[derive(Debug)]
pub struct wrVar {
    name: String,
    io_param: io_p,
    width: i32,
    length: i32,
    reg_set: bool,
    value: i32,
    width_p: String,
    length_p: String,
}

/// What a `wrVar` holds, as plain values.
pub struct VarModel {
    pub name: Seq<char>,
    pub io: io_p,
    pub width: i32,
    pub length: i32,
    pub reg: bool,
    pub value: i32,
    pub width_p: Seq<char>,
    pub length_p: Seq<char>,
}

impl View for wrVar {
    type V = VarModel;

    closed spec fn view(&self) -> VarModel {
        VarModel {
            name: self.name@,
            io: self.io_param,
            width: self.width,
            length: self.length,
            reg: self.reg_set,
            value: self.value,
            width_p: self.width_p@,
            length_p: self.length_p@,
        }
    }
}

/// The model of a freshly made `wrVar`: named "None", no role, all sizes zero,
/// and "_" for the width and length parameters.
pub open spec fn fresh_var() -> VarModel {
    VarModel {
        name: "None"@,
        io: io_p::none,
        width: 0,
        length: 0,
        reg: false,
        value: 0,
        width_p: "_"@,
        length_p: "_"@,
    }
}

/// The models of a list of signals.
pub open spec fn vars_view(s: Seq<wrVar>) -> Seq<VarModel> {
    s.map_values(|w: wrVar| w@)
}

/// Expressions and statements.
#[derive(Debug)]
pub enum E {
    Null,
    Ldc(wrVar),
    Num(i32),
    No(Box<E>),
    Red(String, Box<E>),
    Bin(String, Box<E>, Box<E>),
    PL(Box<E>, Box<E>, Box<E>),
    SB(Box<E>, Box<E>),
    CS(CaseStmt_AST),
    BL(Vec<IfStmt_AST>),
    Func(Box<E>, Vec<Box<E>>),
    MEM(Box<E>, Box<E>),
    MBT(Box<E>, Box<E>, Box<E>),
    Node(String),
}

/// One branch of an `if` / `else if` / `else` chain.
#[derive(Debug)]
pub struct IfStmt_AST {
    If_: bool,
    IfE: Box<E>,
    ST: Vec<Box<E>>,
}

/// A `case` block: the selector and its branches.
#[derive(Debug)]
pub struct CaseStmt_AST {
    CaseVar: wrVar,
    Select: Vec<Case_>,
}

/// One branch of a `case` block; a `Null` label is the default branch.
#[derive(Debug)]
pub struct Case_ {
    pub CaseT: Box<E>,
    pub CaseS: Vec<Box<E>>,
}

// ---------------------------------------------------------------- models

/// The mathematical model of an expression or statement: the same tree, with
/// names and operators as character sequences and lists as sequences.
pub enum EV {
    Null,
    Ldc(VarModel),
    Num(i32),
    No(Box<EV>),
    Red(Seq<char>, Box<EV>),
    Bin(Seq<char>, Box<EV>, Box<EV>),
    PL(Box<EV>, Box<EV>, Box<EV>),
    SB(Box<EV>, Box<EV>),
    CS(CaseModel),
    BL(Seq<IfModel>),
    Func(Box<EV>, Seq<EV>),
    MEM(Box<EV>, Box<EV>),
    MBT(Box<EV>, Box<EV>, Box<EV>),
    Node(Seq<char>),
}

/// The model of one `if` branch: whether it is an `if` / `else if` (rather than
/// an `else`), its condition, and its statements.
pub struct IfModel {
    pub is_if: bool,
    pub cond: EV,
    pub stmts: Seq<EV>,
}

/// The model of a `case` block.
pub struct CaseModel {
    pub var: VarModel,
    pub select: Seq<ArmModel>,
}

/// The model of one `case` branch.
pub struct ArmModel {
    pub label: EV,
    pub stmts: Seq<EV>,
}

/// The model of an expression tree.
pub open spec fn e_view(e: E) -> EV
    decreases e,
{
    match e {
        E::Null => EV::Null,
        E::Ldc(w) => EV::Ldc(w@),
        E::Num(i) => EV::Num(i),
        E::No(b) => EV::No(Box::new(e_view(*b))),
        E::Red(s, b) => EV::Red(s@, Box::new(e_view(*b))),
        E::Bin(s, l, r) => EV::Bin(s@, Box::new(e_view(*l)), Box::new(e_view(*r))),
        E::PL(a, b, c) => EV::PL(Box::new(e_view(*a)), Box::new(e_view(*b)), Box::new(e_view(*c))),
        E::SB(a, b) => EV::SB(Box::new(e_view(*a)), Box::new(e_view(*b))),
        E::CS(c) => EV::CS(case_view(c)),
        E::BL(v) => EV::BL(ifs_view(v@)),
        E::Func(a, v) => EV::Func(Box::new(e_view(*a)), views_of(v@)),
        E::MEM(a, b) => EV::MEM(Box::new(e_view(*a)), Box::new(e_view(*b))),
        E::MBT(a, b, c) => EV::MBT(Box::new(e_view(*a)), Box::new(e_view(*b)), Box::new(e_view(*c))),
        E::Node(s) => EV::Node(s@),
    }
}

/// The models of a list of expression trees.
pub open spec fn views_of(s: Seq<Box<E>>) -> Seq<EV>
    decreases s,
{
    Seq::new(s.len(), |i: int| if 0 <= i < s.len() { e_view(*s[i]) } else { EV::Null })
}

/// The model of an `if` branch.
pub closed spec fn if_view(x: IfStmt_AST) -> IfModel
    decreases x,
{
    IfModel { is_if: x.If_, cond: e_view(*x.IfE), stmts: views_of(x.ST@) }
}

/// The models of a list of `if` branches.
pub open spec fn ifs_view(s: Seq<IfStmt_AST>) -> Seq<IfModel>
    decreases s,
{
    Seq::new(s.len(), |i: int| if 0 <= i < s.len() { if_view(s[i]) } else { arbitrary() })
}

/// The model of a `case` branch.
pub open spec fn arm_view(x: Case_) -> ArmModel
    decreases x,
{
    ArmModel { label: e_view(*x.CaseT), stmts: views_of(x.CaseS@) }
}

/// The models of a list of `case` branches.
pub open spec fn arms_view(s: Seq<Case_>) -> Seq<ArmModel>
    decreases s,
{
    Seq::new(s.len(), |i: int| if 0 <= i < s.len() { arm_view(s[i]) } else { arbitrary() })
}

/// The model of a `case` block.
pub closed spec fn case_view(c: CaseStmt_AST) -> CaseModel
    decreases c,
{
    CaseModel { var: c.CaseVar@, select: arms_view(c.Select@) }
}

/// The model list has one entry per tree, each the model of that tree.
pub proof fn lemma_views_of(s: Seq<Box<E>>)
    ensures
        views_of(s).len() == s.len(),
        forall|i: int| 0 <= i < s.len() ==> #[trigger] views_of(s)[i] == e_view(*s[i]),
{
}

/// The model list of `if` branches has one entry per branch.
pub proof fn lemma_ifs_view(s: Seq<IfStmt_AST>)
    ensures
        ifs_view(s).len() == s.len(),
        forall|i: int| 0 <= i < s.len() ==> #[trigger] ifs_view(s)[i] == if_view(s[i]),
{
}

/// The model list of `case` branches has one entry per branch.
pub proof fn lemma_arms_view(s: Seq<Case_>)
    ensures
        arms_view(s).len() == s.len(),
        forall|i: int| 0 <= i < s.len() ==> #[trigger] arms_view(s)[i] == arm_view(s[i]),
{
}

impl View for E {
    type V = EV;

    open spec fn view(&self) -> EV {
        e_view(*self)
    }
}

impl View for IfStmt_AST {
    type V = IfModel;

    open spec fn view(&self) -> IfModel {
        if_view(*self)
    }
}

impl View for CaseStmt_AST {
    type V = CaseModel;

    open spec fn view(&self) -> CaseModel {
        case_view(*self)
    }
}

impl View for Case_ {
    type V = ArmModel;

    open spec fn view(&self) -> ArmModel {
        arm_view(*self)
    }
}

// ---------------------------------------------------------------- copying

fn clone_string(s: &String) -> (r: String)
    ensures
        r == *s,
{
    s.clone()
}

impl Clone for wrVar {
    fn clone(&self) -> (r: Self)
        ensures
            r == *self,
    {
        wrVar {
            name: clone_string(&self.name),
            io_param: self.io_param,
            width: self.width,
            length: self.length,
            reg_set: self.reg_set,
            value: self.value,
            width_p: clone_string(&self.width_p),
            length_p: clone_string(&self.length_p),
        }
    }
}

/// A copy of an expression tree.
pub fn clone_e(e: &E) -> (r: E)
    ensures
        r@ == e@,
    decreases e,
{
    match e {
        E::Null => E::Null,
        E::Ldc(w) => E::Ldc(w.clone()),
        E::Num(i) => E::Num(*i),
        E::No(b) => E::No(Box::new(clone_e(b))),
        E::Red(s, b) => E::Red(clone_string(s), Box::new(clone_e(b))),
        E::Bin(s, l, r) => E::Bin(clone_string(s), Box::new(clone_e(l)), Box::new(clone_e(r))),
        E::PL(a, b, c) => E::PL(Box::new(clone_e(a)), Box::new(clone_e(b)), Box::new(clone_e(c))),
        E::SB(a, b) => E::SB(Box::new(clone_e(a)), Box::new(clone_e(b))),
        E::CS(c) => E::CS(clone_case_stmt(c)),
        E::BL(v) => E::BL(clone_ifs(v)),
        E::Func(a, v) => E::Func(Box::new(clone_e(a)), clone_boxes(v)),
        E::MEM(a, b) => E::MEM(Box::new(clone_e(a)), Box::new(clone_e(b))),
        E::MBT(a, b, c) => E::MBT(Box::new(clone_e(a)), Box::new(clone_e(b)), Box::new(clone_e(c))),
        E::Node(s) => E::Node(clone_string(s)),
    }
}

/// A copy of a list of expression trees.
pub fn clone_boxes(v: &Vec<Box<E>>) -> (r: Vec<Box<E>>)
    ensures
        views_of(r@) == views_of(v@),
    decreases v,
{
    let mut r: Vec<Box<E>> = Vec::new();
    let mut i: usize = 0;
    while i < v.len()
        invariant
            i <= v@.len(),
            r@.len() == i,
            forall|j: int| 0 <= j < i ==> #[trigger] e_view(*r@[j]) == e_view(*v@[j]),
        decreases v@.len() - i,
    {
        assert(decreases_to!(v => v@[i as int]));
        r.push(Box::new(clone_e(&v[i])));
        i = i + 1;
    }
    proof {
        lemma_views_of(r@);
        lemma_views_of(v@);
    }
    assert(views_of(r@) =~= views_of(v@));
    r
}

fn clone_if(x: &IfStmt_AST) -> (r: IfStmt_AST)
    ensures
        r@ == x@,
    decreases x,
{
    IfStmt_AST { If_: x.If_, IfE: Box::new(clone_e(&x.IfE)), ST: clone_boxes(&x.ST) }
}

pub fn clone_ifs(v: &Vec<IfStmt_AST>) -> (r: Vec<IfStmt_AST>)
    ensures
        ifs_view(r@) == ifs_view(v@),
    decreases v,
{
    let mut r: Vec<IfStmt_AST> = Vec::new();
    let mut i: usize = 0;
    while i < v.len()
        invariant
            i <= v@.len(),
            r@.len() == i,
            forall|j: int| 0 <= j < i ==> #[trigger] if_view(r@[j]) == if_view(v@[j]),
        decreases v@.len() - i,
    {
        assert(decreases_to!(v => v@[i as int]));
        r.push(clone_if(&v[i]));
        i = i + 1;
    }
    proof {
        lemma_ifs_view(r@);
        lemma_ifs_view(v@);
    }
    assert(ifs_view(r@) =~= ifs_view(v@));
    r
}

fn clone_case(x: &Case_) -> (r: Case_)
    ensures
        r@ == x@,
    decreases x,
{
    Case_ { CaseT: Box::new(clone_e(&x.CaseT)), CaseS: clone_boxes(&x.CaseS) }
}

fn clone_arms(v: &Vec<Case_>) -> (r: Vec<Case_>)
    ensures
        arms_view(r@) == arms_view(v@),
    decreases v,
{
    let mut r: Vec<Case_> = Vec::new();
    let mut i: usize = 0;
    while i < v.len()
        invariant
            i <= v@.len(),
            r@.len() == i,
            forall|j: int| 0 <= j < i ==> #[trigger] arm_view(r@[j]) == arm_view(v@[j]),
        decreases v@.len() - i,
    {
        assert(decreases_to!(v => v@[i as int]));
        r.push(clone_case(&v[i]));
        i = i + 1;
    }
    proof {
        lemma_arms_view(r@);
        lemma_arms_view(v@);
    }
    assert(arms_view(r@) =~= arms_view(v@));
    r
}

fn clone_case_stmt(c: &CaseStmt_AST) -> (r: CaseStmt_AST)
    ensures
        r@ == c@,
    decreases c,
{
    CaseStmt_AST { CaseVar: c.CaseVar.clone(), Select: clone_arms(&c.Select) }
}

impl Clone for E {
    fn clone(&self) -> (r: Self)
        ensures
            r@ == self@,
    {
        clone_e(self)
    }
}

impl Clone for IfStmt_AST {
    fn clone(&self) -> (r: Self)
        ensures
            r@ == self@,
    {
        clone_if(self)
    }
}

impl Clone for CaseStmt_AST {
    fn clone(&self) -> (r: Self)
        ensures
            r@ == self@,
    {
        clone_case_stmt(self)
    }
}

impl Clone for Case_ {
    fn clone(&self) -> (r: Self)
        ensures
            r@ == self@,
    {
        clone_case(self)
    }
}

/// A copy of a boxed expression tree.
pub fn clone_box(b: &Box<E>) -> (r: Box<E>)
    ensures
        r@ == b@,
{
    Box::new(clone_e(b))
}

/// A copy of a list of signals.
pub fn clone_vars(v: &Vec<wrVar>) -> (r: Vec<wrVar>)
    ensures
        r@ == v@,
{
    let mut r: Vec<wrVar> = Vec::new();
    let mut i: usize = 0;
    while i < v.len()
        invariant
            i <= v@.len(),
            r@ == v@.subrange(0, i as int),
        decreases v@.len() - i,
    {
        r.push(v[i].clone());
        i = i + 1;
        assert(r@ =~= v@.subrange(0, i as int));
    }
    assert(v@.subrange(0, v@.len() as int) =~= v@);
    r
}

// ---------------------------------------------------------------- signals

impl wrVar {
    /// A signal named "None" with no role, all sizes zero, and "_" for the
    /// width and length parameters.
    pub fn new() -> (r: wrVar)
        ensures
            r@ == fresh_var(),
    {
        wrVar {
            name: "None".to_owned(),
            io_param: io_p::none,
            width: 0,
            length: 0,
            reg_set: false,
            value: 0,
            width_p: "_".to_owned(),
            length_p: "_".to_owned(),
        }
    }

    /// The name.
    pub fn getName(&self) -> (r: String)
        ensures
            r@ == self@.name,
    {
        clone_string(&self.name)
    }

    /// The role.
    pub fn getIO(&self) -> (r: io_p)
        ensures
            r == self@.io,
    {
        self.io_param
    }

    /// The bit width.
    pub fn getWidth(&self) -> (r: i32)
        ensures
            r == self@.width,
    {
        self.width
    }

    /// The array length.
    pub fn getLength(&self) -> (r: i32)
        ensures
            r == self@.length,
    {
        self.length
    }

    /// Whether it is a register.
    pub fn getReg(&self) -> (r: bool)
        ensures
            r == self@.reg,
    {
        self.reg_set
    }

    /// The parameter value.
    pub fn getValue(&self) -> (r: i32)
        ensures
            r == self@.value,
    {
        self.value
    }

    /// The parameter that gives the width ("_" for none).
    pub fn getWP(&self) -> (r: String)
        ensures
            r@ == self@.width_p,
    {
        clone_string(&self.width_p)
    }

    /// The parameter that gives the length ("_" for none).
    pub fn getLP(&self) -> (r: String)
        ensures
            r@ == self@.length_p,
    {
        clone_string(&self.length_p)
    }

    /// Sets the parameter that gives the length; returns a copy.
    pub fn Length(&mut self, S: &str) -> (r: wrVar)
        ensures
            final(self)@ == (VarModel { length_p: S@, ..old(self)@ }),
            r == *final(self),
    {
        self.length_p = S.to_owned();
        self.clone()
    }

    /// Sets the parameter that gives the width; returns a copy.
    pub fn Width(&mut self, S: &str) -> (r: wrVar)
        ensures
            final(self)@ == (VarModel { width_p: S@, ..old(self)@ }),
            r == *final(self),
    {
        self.width_p = S.to_owned();
        self.clone()
    }

    /// Makes it an input port of the given name and width.
    pub fn Input(&mut self, Name: &str, Width: i32) -> (r: Box<E>)
        ensures
            final(self)@ == (VarModel { name: Name@, width: Width, io: io_p::input_, ..old(self)@ }),
            *r == E::Ldc(*final(self)),
    {
        self.name = Name.to_owned();
        self.width = Width;
        self.io_param = io_p::input_;
        Box::new(E::Ldc(self.clone()))
    }

    /// Makes it an output port of the given name and width.
    pub fn Output(&mut self, Name: &str, Width: i32) -> (r: Box<E>)
        ensures
            final(self)@ == (VarModel { name: Name@, width: Width, io: io_p::output_, ..old(self)@ }),
            *r == E::Ldc(*final(self)),
    {
        self.name = Name.to_owned();
        self.width = Width;
        self.io_param = io_p::output_;
        Box::new(E::Ldc(self.clone()))
    }

    /// Makes it an inout port of the given name and width.
    pub fn Inout(&mut self, Name: &str, Width: i32) -> (r: Box<E>)
        ensures
            final(self)@ == (VarModel { name: Name@, width: Width, io: io_p::inout_, ..old(self)@ }),
            *r == E::Ldc(*final(self)),
    {
        self.name = Name.to_owned();
        self.width = Width;
        self.io_param = io_p::inout_;
        Box::new(E::Ldc(self.clone()))
    }

    /// Makes it a registered output port of the given name and width.
    pub fn OutputReg(&mut self, Name: &str, Width: i32) -> (r: Box<E>)
        ensures
            final(self)@ == (VarModel {
                name: Name@,
                width: Width,
                io: io_p::output_,
                reg: true,
                ..old(self)@
            }),
            *r == E::Ldc(*final(self)),
    {
        self.name = Name.to_owned();
        self.io_param = io_p::output_;
        self.width = Width;
        self.reg_set = true;
        Box::new(E::Ldc(self.clone()))
    }

    /// Makes it a parameter of the given name and value.
    pub fn Parameter(&mut self, Name: &str, Value: i32) -> (r: Box<E>)
        ensures
            final(self)@ == (VarModel { name: Name@, value: Value, io: io_p::param_, ..old(self)@ }),
            *r == E::Ldc(*final(self)),
    {
        self.name = Name.to_owned();
        self.value = Value;
        self.io_param = io_p::param_;
        Box::new(E::Ldc(self.clone()))
    }

    /// Names it and sets its width (a wire unless it is already something else).
    pub fn Wire(&mut self, Name: &str, Width: i32) -> (r: Box<E>)
        ensures
            final(self)@ == (VarModel { name: Name@, width: Width, ..old(self)@ }),
            *r == E::Ldc(*final(self)),
    {
        self.name = Name.to_owned();
        self.width = Width;
        Box::new(E::Ldc(self.clone()))
    }

    /// Makes it a register of the given name and width.
    pub fn Reg(&mut self, Name: &str, Width: i32) -> (r: Box<E>)
        ensures
            final(self)@ == (VarModel { name: Name@, width: Width, reg: true, ..old(self)@ }),
            *r == E::Ldc(*final(self)),
    {
        self.name = Name.to_owned();
        self.width = Width;
        self.reg_set = true;
        Box::new(E::Ldc(self.clone()))
    }

    /// Makes it a memory (a register array) of the given name, width and length.
    pub fn Mem(&mut self, Name: &str, Width: i32, Lenght: i32) -> (r: Box<E>)
        ensures
            final(self)@ == (VarModel {
                name: Name@,
                width: Width,
                length: Lenght,
                reg: true,
                ..old(self)@
            }),
            *r == E::Ldc(*final(self)),
    {
        self.name = Name.to_owned();
        self.width = Width;
        self.length = Lenght;
        self.reg_set = true;
        Box::new(E::Ldc(self.clone()))
    }
}

// ---------------------------------------------------------------- if / case

impl IfStmt_AST {
    /// A branch with the given kind, condition and statements.
    pub fn branch(is_if: bool, cond: Box<E>, stmts: Vec<Box<E>>) -> (r: IfStmt_AST)
        ensures
            r@ == (IfModel { is_if: is_if, cond: cond@, stmts: views_of(stmts@) }),
    {
        IfStmt_AST { If_: is_if, IfE: cond, ST: stmts }
    }
}

/// An `if` statement with one branch.
pub fn If(C: Box<E>, S: Vec<Box<E>>) -> (r: Box<E>)
    ensures
        r@ == EV::BL(seq![IfModel { is_if: true, cond: C@, stmts: views_of(S@) }]),
{
    let mut i: Vec<IfStmt_AST> = Vec::new();
    i.push(IfStmt_AST::branch(true, C, S));
    proof {
        lemma_ifs_view(i@);
    }
    let r = Box::new(E::BL(i));
    assert(ifs_view(i@) =~= seq![IfModel { is_if: true, cond: C@, stmts: views_of(S@) }]);
    r
}

/// Adds a branch to the end of an `if` chain; `None` when `e` is no `if` chain.
pub fn push_branch(e: E, x: IfStmt_AST) -> (r: Option<E>)
    ensures
        e@ matches EV::BL(v) ==> r matches Some(n) && n@ == EV::BL(v.push(x@)),
        !(e@ is BL) ==> r is None,
{
    match e {
        E::BL(v) => {
            let mut p = v;
            let ghost old_v = p@;
            p.push(x);
            proof {
                lemma_ifs_view(old_v);
                lemma_ifs_view(p@);
            }
            assert(ifs_view(p@) =~= ifs_view(old_v).push(x@));
            Some(E::BL(p))
        },
        _ => None,
    }
}

/// Adding branches to an `if` chain.
pub trait Ifset: Sized {
    /// Adds an `else if` branch.
    fn Else_If(self, C: Box<E>, S: Vec<Box<E>>) -> Box<E>;

    /// Adds an `else` branch.
    fn Else(self, S: Vec<Box<E>>) -> Box<E>;
}

impl Ifset for Box<E> {
    /// Adds an `else if` branch; `Null` when `self` is no `if` chain.
    fn Else_If(self, C: Box<E>, S: Vec<Box<E>>) -> (r: Box<E>)
        ensures
            self@ matches EV::BL(v) ==> r@ == EV::BL(
                v.push(IfModel { is_if: true, cond: C@, stmts: views_of(S@) }),
            ),
            !(self@ is BL) ==> r@ == EV::Null,
    {
        match push_branch(*self, IfStmt_AST::branch(true, C, S)) {
            Some(n) => Box::new(n),
            None => Box::new(E::Null),
        }
    }

    /// Adds an `else` branch; `Null` when `self` is no `if` chain.
    fn Else(self, S: Vec<Box<E>>) -> (r: Box<E>)
        ensures
            self@ matches EV::BL(v) ==> r@ == EV::BL(
                v.push(IfModel { is_if: false, cond: EV::Null, stmts: views_of(S@) }),
            ),
            !(self@ is BL) ==> r@ == EV::Null,
    {
        match push_branch(*self, IfStmt_AST::branch(false, Box::new(E::Null), S)) {
            Some(n) => Box::new(n),
            None => Box::new(E::Null),
        }
    }
}

impl CaseStmt_AST {
    /// Sets the selector.
    pub fn SetCaseV(&mut self, V: wrVar)
        ensures
            final(self)@ == (CaseModel { var: V@, ..old(self)@ }),
    {
        self.CaseVar = V.clone()
    }

    /// Adds a branch with the given label (`Null` for the default branch).
    pub fn SetCaseS(&mut self, Cond: Box<E>, Stmt: Vec<Box<E>>)
        ensures
            final(self)@ == (CaseModel {
                select: old(self)@.select.push(ArmModel { label: Cond@, stmts: views_of(Stmt@) }),
                ..old(self)@
            }),
    {
        let ghost old_sel = self.Select@;
        self.Select.push(Case_ { CaseT: Cond, CaseS: Stmt });
        proof {
            lemma_arms_view(old_sel);
            lemma_arms_view(self.Select@);
        }
        assert(arms_view(self.Select@) =~= arms_view(old_sel).push(
            ArmModel { label: Cond@, stmts: views_of(Stmt@) },
        ));
    }

    /// The selector.
    pub fn getCaseV(&mut self) -> (r: wrVar)
        ensures
            r@ == old(self)@.var,
            *final(self) == *old(self),
    {
        self.CaseVar.clone()
    }

    /// The branches.
    pub fn getSelect(&mut self) -> (r: Vec<Case_>)
        ensures
            arms_view(r@) == old(self)@.select,
            *final(self) == *old(self),
    {
        clone_arms(&self.Select)
    }
}

/// A `case` statement on the given selector, with no branches yet; a selector
/// that is no signal leaves the selector of a fresh signal.
pub fn Case(Sel: Box<E>) -> (r: Box<E>)
    ensures
        r@ == EV::CS(CaseModel {
            var: match Sel@ {
                EV::Ldc(w) => w,
                _ => fresh_var(),
            },
            select: Seq::empty(),
        }),
{
    let ghost sel = Sel@;
    let mut C = CaseStmt_AST { CaseVar: wrVar::new(), Select: Vec::new() };
    proof {
        lemma_arms_view(C.Select@);
    }
    assert(arms_view(C.Select@) =~= Seq::<ArmModel>::empty());
    assert(C@ == CaseModel { var: fresh_var(), select: Seq::empty() });
    match *Sel {
        E::Ldc(wr) => {
            C.SetCaseV(wr);
        },
        _ => {},
    }
    assert(C@ == CaseModel {
        var: match sel {
            EV::Ldc(w) => w,
            _ => fresh_var(),
        },
        select: Seq::empty(),
    });
    Box::new(E::CS(C))
}

/// Adds a branch to the end of a `case` statement; `None` when `e` is none.
pub fn push_arm(e: E, label: Box<E>, stmts: Vec<Box<E>>) -> (r: Option<E>)
    ensures
        e@ matches EV::CS(c) ==> r matches Some(n) && n@ == EV::CS(
            CaseModel { select: c.select.push(ArmModel { label: label@, stmts: views_of(stmts@) }), ..c },
        ),
        !(e@ is CS) ==> r is None,
{
    match e {
        E::CS(c) => {
            let mut n = c;
            n.SetCaseS(label, stmts);
            Some(E::CS(n))
        },
        _ => None,
    }
}

/// Adding branches to a `case` statement.
pub trait Caseset: Sized {
    /// Adds a branch with the given label.
    fn S(self, C: Box<E>, S: Vec<Box<E>>) -> Box<E>;

    /// Adds the default branch.
    fn Default(self, S: Vec<Box<E>>) -> Box<E>;
}

impl Caseset for Box<E> {
    /// Adds a branch; `Null` when `self` is no `case` statement.
    fn S(self, C: Box<E>, S: Vec<Box<E>>) -> (r: Box<E>)
        ensures
            self@ matches EV::CS(c) ==> r@ == EV::CS(
                CaseModel { select: c.select.push(ArmModel { label: C@, stmts: views_of(S@) }), ..c },
            ),
            !(self@ is CS) ==> r@ == EV::Null,
    {
        match push_arm(*self, C, S) {
            Some(n) => Box::new(n),
            None => Box::new(E::Null),
        }
    }

    /// Adds the default branch; `Null` when `self` is no `case` statement.
    fn Default(self, S: Vec<Box<E>>) -> (r: Box<E>)
        ensures
            self@ matches EV::CS(c) ==> r@ == EV::CS(
                CaseModel {
                    select: c.select.push(ArmModel { label: EV::Null, stmts: views_of(S@) }),
                    ..c
                },
            ),
            !(self@ is CS) ==> r@ == EV::Null,
    {
        match push_arm(*self, Box::new(E::Null), S) {
            Some(n) => Box::new(n),
            None => Box::new(E::Null),
        }
    }
}


// ---------------------------------------------------------------- writing out

fn bin_text_str(op: &str) -> (r: &'static str)
    ensures
        r@ == bin_text(op@),
{
    proof {
        reveal_strlit("");
    }
    if str_eq(op, "add") { "+" }
    else if str_eq(op, "sub") { "-" }
    else if str_eq(op, "mul") { "*" }
    else if str_eq(op, "div") { "/" }
    else if str_eq(op, "mod") { "%" }
    else if str_eq(op, "or") { "|" }
    else if str_eq(op, "and") { "&" }
    else if str_eq(op, "xor") { "^" }
    else if str_eq(op, "lor") { "||" }
    else if str_eq(op, "land") { "&&" }
    else if str_eq(op, "lshift") { "<<" }
    else if str_eq(op, "rshift") { ">>" }
    else if str_eq(op, "rshifta") { ">>>" }
    else if str_eq(op, "equal") { "==" }
    else if str_eq(op, "Not equal") { "!=" }
    else if str_eq(op, "more_than") { "<" }
    else if str_eq(op, "less_than") { ">" }
    else if str_eq(op, "or_more") { "<=" }
    else if str_eq(op, "or_less") { ">=" }
    else { "" }
}

fn opens_paren_str(op: &str) -> (r: bool)
    ensures
        r == opens_paren(op@),
{
    str_eq(op, "add") || str_eq(op, "sub") || str_eq(op, "or") || str_eq(op, "lor")
}

fn right_paren_str(op: &str) -> (r: bool)
    ensures
        r == right_paren(op@),
{
    str_eq(op, "mul") || str_eq(op, "div") || str_eq(op, "mod")
}

fn is_red_op_str(op: &str) -> (r: bool)
    ensures
        r == is_red_op(op@),
{
    str_eq(op, "and") || str_eq(op, "or") || str_eq(op, "xor") || str_eq(op, "nand") || str_eq(op, "nor")
        || str_eq(op, "xnor")
}

fn red_text_str(op: &str) -> (r: &'static str)
    ensures
        r@ == red_text(op@),
{
    proof {
        reveal_strlit("");
    }
    if str_eq(op, "and") { "&" }
    else if str_eq(op, "or") { "|" }
    else if str_eq(op, "xor") { "^" }
    else if str_eq(op, "nand") { "~&" }
    else if str_eq(op, "nor") { "~|" }
    else if str_eq(op, "xnor") { "~^" }
    else { "" }
}

/// Whether an expression is `Null`.
pub fn is_null(e: &E) -> (r: bool)
    ensures
        r == (e@ is Null),
{
    match e {
        E::Null => true,
        _ => false,
    }
}

/// The Verilog text of an expression or statement.
pub fn DecompAST(Parenthesis: bool, ast: &E, cnfg: &str, indent: i32) -> (st: String)
    requires
        printable(ast@, indent as int),
    ensures
        st@ == decomp(Parenthesis, ast@, cnfg@, indent as int),
    decreases ast,
{
    let mut st = String::new();
    match ast {
        E::Bin(op, l, r) => {
            push_indent(&mut st, indent);
            let opened = Parenthesis && opens_paren_str(op.as_str());
            if opened {
                st.append("(");
            }
            let ls = DecompAST(false, l, cnfg, 0);
            st.append(ls.as_str());
            st.append(bin_text_str(op.as_str()));
            let rs = DecompAST(right_paren_str(op.as_str()), r, cnfg, 0);
            st.append(rs.as_str());
            if opened {
                st.append(")");
            }
            assert(st@ =~= decomp(Parenthesis, ast@, cnfg@, indent as int));
        },
        E::Ldc(w) => {
            st.append(w.name.as_str());
            assert(st@ =~= decomp(Parenthesis, ast@, cnfg@, indent as int));
        },
        E::Num(i) => {
            push_dec(&mut st, *i as i64);
            assert(st@ =~= decomp(Parenthesis, ast@, cnfg@, indent as int));
        },
        E::PL(d, t, f) => {
            st.append("(");
            let ds = DecompAST(false, d, cnfg, 0);
            st.append(ds.as_str());
            st.append(")? ");
            let ts = DecompAST(false, t, cnfg, 0);
            st.append(ts.as_str());
            st.append(": ");
            let fs = DecompAST(false, f, cnfg, 0);
            st.append(fs.as_str());
            assert(st@ =~= decomp(Parenthesis, ast@, cnfg@, indent as int));
        },
        E::SB(l, r) => {
            push_indent(&mut st, indent);
            let ls = DecompAST(false, l, cnfg, indent);
            st.append(ls.as_str());
            if str_eq(cnfg, "brock") {
                st.append(" = ");
            } else {
                st.append(" <= ");
            }
            let rs = DecompAST(false, r, cnfg, 0);
            st.append(rs.as_str());
            st.append(";\n");
            assert(st@ =~= decomp(Parenthesis, ast@, cnfg@, indent as int));
        },
        E::CS(c) => {
            let cs = PrintCase(c, cnfg, indent);
            st.append(cs.as_str());
            assert(st@ =~= decomp(Parenthesis, ast@, cnfg@, indent as int));
        },
        E::BL(v) => {
            let is = PrintIf(v, cnfg, indent);
            st.append(is.as_str());
            assert(st@ =~= decomp(Parenthesis, ast@, cnfg@, indent as int));
        },
        E::MEM(m, a) => {
            let ms = DecompAST(false, m, cnfg, indent);
            st.append(ms.as_str());
            st.append("[");
            let as_ = DecompAST(false, a, cnfg, 0);
            st.append(as_.as_str());
            st.append("]");
            assert(st@ =~= decomp(Parenthesis, ast@, cnfg@, indent as int));
        },
        E::MBT(m, a, b) => {
            let ms = DecompAST(false, m, cnfg, indent);
            st.append(ms.as_str());
            st.append("[");
            let as_ = DecompAST(false, a, cnfg, 0);
            st.append(as_.as_str());
            st.append(":");
            let bs = DecompAST(false, b, cnfg, 0);
            st.append(bs.as_str());
            st.append("]");
            assert(st@ =~= decomp(Parenthesis, ast@, cnfg@, indent as int));
        },
        E::Func(a, v) => {
            let as_ = DecompAST(false, a, cnfg, 0);
            st.append(as_.as_str());
            st.append("(");
            let vs = print_args(v, cnfg);
            st.append(vs.as_str());
            st.append(")");
            assert(st@ =~= decomp(Parenthesis, ast@, cnfg@, indent as int));
        },
        E::No(b) => {
            st.append("~");
            let bs = DecompAST(false, b, cnfg, 0);
            st.append(bs.as_str());
            assert(st@ =~= decomp(Parenthesis, ast@, cnfg@, indent as int));
        },
        E::Red(op, a) => {
            if is_red_op_str(op.as_str()) {
                st.append(red_text_str(op.as_str()));
                let as_ = DecompAST(false, a, cnfg, 0);
                st.append(as_.as_str());
            }
            assert(st@ =~= decomp(Parenthesis, ast@, cnfg@, indent as int));
        },
        _ => {
            assert(st@ =~= decomp(Parenthesis, ast@, cnfg@, indent as int));
        },
    }
    st
}

/// Function-call arguments separated by ", ".
fn print_args(v: &Vec<Box<E>>, cnfg: &str) -> (st: String)
    requires
        stmts_printable(views_of(v@), 0),
    ensures
        st@ == args_text(views_of(v@), cnfg@),
    decreases v,
{
    let ghost s = views_of(v@);
    proof {
        lemma_views_of(v@);
        lemma_stmts_printable(s, 0);
    }
    let mut st = String::new();
    let mut i: usize = 0;
    assert(s.subrange(0, 0) =~= Seq::<EV>::empty());
    while i < v.len()
        invariant
            i <= v@.len(),
            s == views_of(v@),
            s.len() == v@.len(),
            forall|j: int| 0 <= j < v@.len() ==> #[trigger] s[j] == e_view(*v@[j]),
            forall|j: int| 0 <= j < s.len() ==> #[trigger] printable(s[j], 0),
            st@ == args_text(s.subrange(0, i as int), cnfg@),
        decreases v@.len() - i,
    {
        assert(decreases_to!(v => v@[i as int]));
        let ghost prev = st@;
        if i > 0 {
            st.append(", ");
        }
        assert(printable(s[i as int], 0));
        let x = DecompAST(false, &v[i], cnfg, 0);
        st.append(x.as_str());
        i = i + 1;
        let ghost sub = s.subrange(0, i as int);
        assert(sub.drop_last() =~= s.subrange(0, i - 1));
        assert(sub.last() == s[i - 1]);
        assert(st@ =~= args_text(sub, cnfg@));
    }
    assert(s.subrange(0, v@.len() as int) =~= s);
    st
}

/// A list of statements written one after the other.
pub fn print_stmts(v: &Vec<Box<E>>, cnfg: &str, indent: i32) -> (st: String)
    requires
        stmts_printable(views_of(v@), indent as int),
    ensures
        st@ == stmts_text(views_of(v@), cnfg@, indent as int),
    decreases v,
{
    let ghost s = views_of(v@);
    proof {
        lemma_views_of(v@);
        lemma_stmts_printable(s, indent as int);
    }
    let mut st = String::new();
    let mut i: usize = 0;
    assert(s.subrange(0, 0) =~= Seq::<EV>::empty());
    while i < v.len()
        invariant
            i <= v@.len(),
            s == views_of(v@),
            s.len() == v@.len(),
            forall|j: int| 0 <= j < v@.len() ==> #[trigger] s[j] == e_view(*v@[j]),
            forall|j: int| 0 <= j < s.len() ==> #[trigger] printable(s[j], indent as int),
            st@ == stmts_text(s.subrange(0, i as int), cnfg@, indent as int),
        decreases v@.len() - i,
    {
        assert(decreases_to!(v => v@[i as int]));
        assert(printable(s[i as int], indent as int));
        let x = DecompAST(false, &v[i], cnfg, indent);
        st.append(x.as_str());
        i = i + 1;
        let ghost sub = s.subrange(0, i as int);
        assert(sub.drop_last() =~= s.subrange(0, i - 1));
        assert(sub.last() == s[i - 1]);
        assert(st@ =~= stmts_text(sub, cnfg@, indent as int));
    }
    assert(s.subrange(0, v@.len() as int) =~= s);
    st
}

fn print_if_first(x: &IfStmt_AST, cnfg: &str, indent: i32) -> (st: String)
    requires
        branch_printable(x@, true, indent as int),
    ensures
        st@ == if_first(x@, cnfg@, indent as int),
    decreases x,
{
    let mut st = String::new();
    push_indent(&mut st, indent);
    st.append("if(");
    let c = DecompAST(false, &x.IfE, "", 0);
    proof {
        reveal_strlit("");
    }
    st.append(c.as_str());
    st.append(") begin\n");
    let ind1: i32 = if x.ST.len() > 0 { indent + 1 } else { 0 };
    let body = print_stmts(&x.ST, cnfg, ind1);
    proof {
        if x.ST@.len() == 0 {
            assert(views_of(x.ST@).len() == 0);
            assert(stmts_text(views_of(x.ST@), cnfg@, 0) == stmts_text(views_of(x.ST@), cnfg@, indent + 1));
        }
    }
    st.append(body.as_str());
    push_indent(&mut st, indent);
    st.append("end\n");
    assert(st@ =~= if_first(x@, cnfg@, indent as int));
    st
}

fn print_if_later(x: &IfStmt_AST, cnfg: &str, indent: i32) -> (st: String)
    requires
        branch_printable(x@, false, indent as int),
    ensures
        st@ == if_later(x@, cnfg@, indent as int),
    decreases x,
{
    let mut st = String::new();
    push_indent(&mut st, indent);
    if x.If_ {
        st.append("else if(");
        let c = DecompAST(false, &x.IfE, "", 0);
        proof {
            reveal_strlit("");
        }
        st.append(c.as_str());
        st.append(") begin\n");
    } else {
        st.append("else begin\n");
    }
    let ind1: i32 = if x.ST.len() > 0 { indent + 1 } else { 0 };
    let body = print_stmts(&x.ST, cnfg, ind1);
    proof {
        if x.ST@.len() == 0 {
            assert(views_of(x.ST@).len() == 0);
            assert(stmts_text(views_of(x.ST@), cnfg@, 0) == stmts_text(views_of(x.ST@), cnfg@, indent + 1));
        }
    }
    st.append(body.as_str());
    push_indent(&mut st, indent);
    st.append("end\n");
    assert(st@ =~= if_later(x@, cnfg@, indent as int));
    st
}

/// An `if` / `else if` / `else` chain.
pub fn PrintIf(If_Stmt: &Vec<IfStmt_AST>, cnfg: &str, indent: i32) -> (st: String)
    requires
        if_printable(ifs_view(If_Stmt@), indent as int),
    ensures
        st@ == print_if(ifs_view(If_Stmt@), cnfg@, indent as int),
    decreases If_Stmt,
{
    let ghost v = ifs_view(If_Stmt@);
    proof {
        lemma_ifs_view(If_Stmt@);
    }
    let n = If_Stmt.len();
    if n == 0 {
        return String::new();
    }
    assert(decreases_to!(If_Stmt => If_Stmt@[0]));
    if is_null(&If_Stmt[0].IfE) {
        let st = print_stmts(&If_Stmt[0].ST, cnfg, indent);
        return st;
    }
    proof {
        lemma_if_printable(v, indent as int);
    }
    let mut st = print_if_first(&If_Stmt[0], cnfg, indent);
    let mut i: usize = 1;
    assert(v.subrange(0, 1).drop_last() =~= Seq::<IfModel>::empty());
    assert(st@ == print_if(v.subrange(0, 1), cnfg@, indent as int));
    while i < n
        invariant
            1 <= i <= n,
            n == If_Stmt@.len(),
            v == ifs_view(If_Stmt@),
            v.len() == n,
            forall|j: int| 0 <= j < n ==> #[trigger] v[j] == if_view(If_Stmt@[j]),
            !(v[0].cond is Null),
            forall|j: int| 1 <= j < n ==> #[trigger] branch_printable(v[j], false, indent as int),
            st@ == print_if(v.subrange(0, i as int), cnfg@, indent as int),
        decreases n - i,
    {
        assert(decreases_to!(If_Stmt => If_Stmt@[i as int]));
        assert(branch_printable(v[i as int], false, indent as int));
        let b = print_if_later(&If_Stmt[i], cnfg, indent);
        st.append(b.as_str());
        i = i + 1;
        let ghost sub = v.subrange(0, i as int);
        assert(sub.drop_last() =~= v.subrange(0, i - 1));
        assert(sub[0] == v[0]);
        assert(sub.last() == v[i - 1]);
        assert(st@ =~= print_if(sub, cnfg@, indent as int));
    }
    assert(v.subrange(0, n as int) =~= v);
    st
}

fn print_arm(x: &Case_, cnfg: &str, indent: i32) -> (st: String)
    requires
        arm_printable(x@, indent as int),
    ensures
        st@ == arm_text(x@, cnfg@, indent as int),
    decreases x,
{
    let mut st = String::new();
    let ind1 = indent + 1;
    push_indent(&mut st, ind1);
    if is_null(&x.CaseT) {
        st.append("default ");
    } else {
        let l = DecompAST(false, &x.CaseT, cnfg, ind1);
        st.append(l.as_str());
    }
    st.append(" :");
    let n = x.CaseS.len();
    proof {
        lemma_views_of(x.CaseS@);
    }
    if n > 1 {
        st.append("begin \n");
    }
    let ind2: i32 = if n > 1 { indent + 2 } else { 0 };
    let body = print_stmts(&x.CaseS, cnfg, ind2);
    st.append(body.as_str());
    if n > 1 {
        push_indent(&mut st, ind1);
        st.append("end \n");
    }
    assert(st@ =~= arm_text(x@, cnfg@, indent as int));
    st
}

/// A `case` block.
pub fn PrintCase(case_stmt: &CaseStmt_AST, cnfg: &str, indent: i32) -> (st: String)
    requires
        arms_printable(case_stmt@.select, indent as int),
    ensures
        st@ == print_case(case_stmt@, cnfg@, indent as int),
    decreases case_stmt,
{
    let ghost s = arms_view(case_stmt.Select@);
    proof {
        lemma_arms_view(case_stmt.Select@);
        lemma_arms_printable(s, indent as int);
    }
    let mut st = String::new();
    push_indent(&mut st, indent);
    st.append("case (");
    st.append(case_stmt.CaseVar.name.as_str());
    st.append(")\n");
    let ghost head = st@;
    let mut arms = String::new();
    let mut i: usize = 0;
    assert(s.subrange(0, 0) =~= Seq::<ArmModel>::empty());
    while i < case_stmt.Select.len()
        invariant
            i <= case_stmt.Select@.len(),
            s == arms_view(case_stmt.Select@),
            s.len() == case_stmt.Select@.len(),
            forall|j: int| 0 <= j < s.len() ==> #[trigger] s[j] == arm_view(case_stmt.Select@[j]),
            forall|j: int| 0 <= j < s.len() ==> #[trigger] arm_printable(s[j], indent as int),
            arms@ == arms_text(s.subrange(0, i as int), cnfg@, indent as int),
        decreases case_stmt.Select@.len() - i,
    {
        assert(decreases_to!(case_stmt => case_stmt.Select@[i as int]));
        assert(arm_printable(s[i as int], indent as int));
        let a = print_arm(&case_stmt.Select[i], cnfg, indent);
        arms.append(a.as_str());
        i = i + 1;
        let ghost sub = s.subrange(0, i as int);
        assert(sub.drop_last() =~= s.subrange(0, i - 1));
        assert(sub.last() == s[i - 1]);
        assert(arms@ =~= arms_text(sub, cnfg@, indent as int));
    }
    assert(s.subrange(0, s.len() as int) =~= s);
    st.append(arms.as_str());
    push_indent(&mut st, indent);
    st.append("endcase\n");
    assert(st@ =~= print_case(case_stmt@, cnfg@, indent as int));
    st
}

} // verus!
