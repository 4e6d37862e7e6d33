//! Finite state machines: states, transitions between them, and the pair of
//! `always` blocks that implement them.

use vstd::prelude::*;
use crate::ast::{
    E, EV, wrVar, VarModel, IfModel, IfStmt_AST, io_p, fresh_var, ifs_view, lemma_ifs_view, clone_box,
    clone_ifs, PrintIf,
};
use crate::render::{print_if, if_printable};
use crate::expr::{_Veq, str_out, _StrOut};
use crate::text::str_eq;

verus! {

/// One state: the parameter that names it and the transitions out of it.
#[derive(Debug)]
struct StateModule {
    State: Box<E>,
    Branch: Vec<IfStmt_AST>,
}

/// What a state holds.
pub struct StateModel {
    pub state: EV,
    pub branch: Seq<IfModel>,
}

impl View for StateModule {
    type V = StateModel;

    closed spec fn view(&self) -> StateModel {
        StateModel { state: self.State@, branch: ifs_view(self.Branch@) }
    }
}

/// A state machine: its clock, its reset, the register that holds the state,
/// its states, and the state that transitions are currently added to.
#[derive(Debug)]
pub struct FsmModule {
    clk: Box<E>,
    rst: Box<E>,
    fsm: Box<E>,
    State: Vec<StateModule>,
    Current_state: i32,
}

/// What a state machine holds.
pub struct FsmModel {
    pub clk: EV,
    pub rst: EV,
    pub reg: EV,
    pub states: Seq<StateModel>,
    pub current: i32,
}

impl View for FsmModule {
    type V = FsmModel;

    closed spec fn view(&self) -> FsmModel {
        FsmModel {
            clk: self.clk@,
            rst: self.rst@,
            reg: self.fsm@,
            states: self.State@.map_values(|s: StateModule| s@),
            current: self.Current_state,
        }
    }
}

impl Clone for StateModule {
    fn clone(&self) -> (r: Self)
        ensures
            r@ == self@,
    {
        StateModule { State: clone_box(&self.State), Branch: clone_ifs(&self.Branch) }
    }
}

fn clone_states(v: &Vec<StateModule>) -> (r: Vec<StateModule>)
    ensures
        r@.map_values(|s: StateModule| s@) == v@.map_values(|s: StateModule| s@),
{
    let mut r: Vec<StateModule> = Vec::new();
    let mut i: usize = 0;
    while i < v.len()
        invariant
            i <= v@.len(),
            r@.len() == i,
            forall|j: int| 0 <= j < i ==> #[trigger] r@[j]@ == v@[j]@,
        decreases v@.len() - i,
    {
        r.push(v[i].clone());
        i = i + 1;
    }
    assert(r@.map_values(|s: StateModule| s@) =~= v@.map_values(|s: StateModule| s@));
    r
}

impl Clone for FsmModule {
    fn clone(&self) -> (r: Self)
        ensures
            r@ == self@,
    {
        FsmModule {
            clk: clone_box(&self.clk),
            rst: clone_box(&self.rst),
            fsm: clone_box(&self.fsm),
            State: clone_states(&self.State),
            Current_state: self.Current_state,
        }
    }
}

/// The model of a state register named `name`, 32 bits wide.
pub open spec fn state_reg(name: Seq<char>) -> EV {
    EV::Ldc(VarModel { name: name, width: 32, reg: true, ..fresh_var() })
}

/// The model of a parameter named `name` with the given value.
pub open spec fn param_var(name: Seq<char>, value: i32) -> VarModel {
    VarModel { name: name, value: value, io: io_p::param_, ..fresh_var() }
}

/// The name of a state (the name of its parameter, else "Nothing").
pub open spec fn state_name(s: StateModel) -> Seq<char> {
    match s.state {
        EV::Ldc(w) => w.name,
        _ => "Nothing"@,
    }
}

/// A state machine clocked by `in_clk` and reset by `in_rst`, whose state is
/// held in the register "state", with no states yet.
pub fn Clock_Reset(in_clk: Box<E>, in_rst: Box<E>) -> (r: FsmModule)
    ensures
        r@ == (FsmModel {
            clk: in_clk@,
            rst: in_rst@,
            reg: state_reg("state"@),
            states: Seq::empty(),
            current: 0,
        }),
{
    let p = wrVar::new().Reg("state", 32);
    let r = FsmModule { clk: in_clk, rst: in_rst, fsm: p, State: Vec::new(), Current_state: 0 };
    assert(r@.states =~= Seq::<StateModel>::empty());
    r
}

/// The name of the next-state register of a machine whose state register is
/// `reg`.
pub open spec fn next_name(reg: EV) -> Seq<char> {
    (match reg {
        EV::Ldc(w) => w.name,
        _ => ""@,
    }) + "_Next"@
}

/// The transition to the state named `target`: the assignment of that state's
/// parameter to the next-state register.
pub open spec fn transition(reg: EV, target: Seq<char>) -> EV {
    EV::SB(
        Box::new(EV::Ldc(VarModel { name: next_name(reg), width: 0, reg: true, ..fresh_var() })),
        Box::new(EV::Ldc(param_var(target, 0))),
    )
}

/// The branch taken under `cond` to the state named `target`.
pub open spec fn branch_to(reg: EV, cond: EV, target: Seq<char>) -> IfModel {
    IfModel { is_if: true, cond: cond, stmts: seq![transition(reg, target)] }
}

/// Where the current state stands after looking for the state named `name`:
/// at the last state of that name, or unchanged when there is none.
pub open spec fn current_after(states: Seq<StateModel>, name: Seq<char>, cur: i32) -> i32
    decreases states.len(),
{
    if states.len() == 0 {
        cur
    } else if state_name(states.last()) == name {
        (states.len() - 1) as i32
    } else {
        current_after(states.drop_last(), name, cur)
    }
}

/// The first state named `name`, else `Null`.
pub open spec fn find_state(states: Seq<StateModel>, name: Seq<char>) -> EV
    decreases states.len(),
{
    if states.len() == 0 {
        EV::Null
    } else if state_name(states[0]) == name {
        states[0].state
    } else {
        find_state(states.subrange(1, states.len() as int), name)
    }
}

/// The states after the branch `b` is added to each state named `name`.
pub open spec fn add_to_named(states: Seq<StateModel>, name: Seq<char>, b: IfModel) -> Seq<StateModel> {
    Seq::new(
        states.len(),
        |i: int|
            if state_name(states[i]) == name {
                StateModel { branch: states[i].branch.push(b), ..states[i] }
            } else {
                states[i]
            },
    )
}

impl StateModule {
    fn getStateName(&self) -> (r: String)
        ensures
            r@ == state_name(self@),
    {
        match &*self.State {
            E::Ldc(b) => b.getName(),
            _ => "Nothing".to_owned(),
        }
    }

    fn SetBranch(&mut self, Terms: Box<E>, Form: Box<E>) -> (r: bool)
        ensures
            final(self)@ == (StateModel {
                branch: old(self)@.branch.push(IfModel { is_if: true, cond: Terms@, stmts: seq![Form@] }),
                ..old(self)@
            }),
            r,
    {
        let mut tmp = Vec::new();
        tmp.push(Form);
        let ghost old_b = self.Branch@;
        let x = IfStmt_AST::branch(true, Terms, tmp);
        proof {
            crate::ast::lemma_views_of(tmp@);
        }
        assert(crate::ast::views_of(tmp@) =~= seq![Form@]);
        self.Branch.push(x);
        proof {
            lemma_ifs_view(old_b);
            lemma_ifs_view(self.Branch@);
        }
        assert(ifs_view(self.Branch@) =~= ifs_view(old_b).push(x@));
        true
    }
}

impl FsmModule {
    /// Holds the state in the register `set_state` (32 bits); returns a copy.
    pub fn State(&mut self, set_state: &str) -> (r: FsmModule)
        ensures
            final(self)@ == (FsmModel { reg: state_reg(set_state@), ..old(self)@ }),
            r@ == final(self)@,
    {
        self.fsm = wrVar::new().Reg(set_state, 32);
        self.clone()
    }

    /// Adds a state named `State_name`, numbered by its position, and makes it
    /// current; returns a copy.
    pub fn AddState(&mut self, State_name: &str) -> (r: FsmModule)
        ensures
            final(self)@ == (FsmModel {
                states: old(self)@.states.push(StateModel {
                    state: EV::Ldc(param_var(State_name@, old(self)@.states.len() as i32)),
                    branch: Seq::empty(),
                }),
                current: old(self)@.states.len() as i32,
                ..old(self)@
            }),
            r@ == final(self)@,
    {
        let ghost old_states = self.State@;
        let mut p = wrVar::new();
        self.Current_state = self.State.len() as i32;
        p.Parameter(State_name, self.Current_state);
        let tmp = StateModule { State: Box::new(E::Ldc(p)), Branch: Vec::new() };
        proof {
            lemma_ifs_view(tmp.Branch@);
        }
        assert(ifs_view(tmp.Branch@) =~= Seq::<IfModel>::empty());
        self.State.push(tmp);
        assert(self.State@.map_values(|s: StateModule| s@) =~= old_states.map_values(
            |s: StateModule| s@,
        ).push(tmp@));
        self.clone()
    }

    /// Makes current the last state named `State_name` (unchanged when there is
    /// none); returns a copy.
    pub fn Current(&mut self, State_name: &str) -> (r: FsmModule)
        requires
            old(self)@.states.len() <= i32::MAX,
        ensures
            final(self)@ == (FsmModel {
                current: current_after(old(self)@.states, State_name@, old(self)@.current),
                ..old(self)@
            }),
            r@ == final(self)@,
    {
        let ghost states = self@.states;
        let ghost cur0 = self.Current_state;
        assert(states.subrange(0, 0) =~= Seq::<StateModel>::empty());
        let mut count: i32 = 0;
        let mut i: usize = 0;
        while i < self.State.len()
            invariant
                i <= self.State@.len(),
                states == self.State@.map_values(|s: StateModule| s@),
                states.len() <= i32::MAX,
                count == i as i32,
                self.Current_state == current_after(states.subrange(0, i as int), State_name@, cur0),
                self@.clk == old(self)@.clk,
                self@.rst == old(self)@.rst,
                self@.reg == old(self)@.reg,
                self@.states == old(self)@.states,
            decreases self.State@.len() - i,
        {
            let Nx = self.State[i].getStateName();
            assert(states[i as int] == self.State@[i as int]@);
            if str_eq(Nx.as_str(), State_name) {
                self.Current_state = count;
            }
            count += 1;
            i = i + 1;
            let ghost sub = states.subrange(0, i as int);
            assert(sub.drop_last() =~= states.subrange(0, i - 1));
        }
        assert(states.subrange(0, states.len() as int) =~= states);
        self.clone()
    }

    /// Adds to the current state the transition to `State_name` under `Branch`;
    /// returns a copy.
    pub fn goto(&mut self, State_name: &str, Branch: Box<E>) -> (r: FsmModule)
        requires
            0 <= old(self)@.current < old(self)@.states.len(),
        ensures
            final(self)@ == (FsmModel {
                states: old(self)@.states.update(
                    old(self)@.current as int,
                    StateModel {
                        branch: old(self)@.states[old(self)@.current as int].branch.push(
                            branch_to(old(self)@.reg, Branch@, State_name@),
                        ),
                        ..old(self)@.states[old(self)@.current as int]
                    },
                ),
                ..old(self)@
            }),
            r@ == final(self)@,
    {
        let ghost old_states = self.State@;
        let st = self.next_state_name();
        let NState = wrVar::new().Reg(st.as_str(), 0);
        let Goto_ = wrVar::new().Parameter(State_name, 0);
        let idx = self.Current_state as usize;
        let mut s = self.State[idx].clone();
        s.SetBranch(Branch, _Veq(NState, Goto_));
        self.State.set(idx, s);
        assert(self.State@.map_values(|s: StateModule| s@) =~= old_states.map_values(
            |s: StateModule| s@,
        ).update(idx as int, s@));
        self.clone()
    }

    fn next_state_name(&self) -> (r: String)
        ensures
            r@ == next_name(self@.reg),
    {
        let mut st = String::new();
        match &*self.fsm {
            E::Ldc(wr) => {
                st = wr.getName();
            },
            _ => {},
        }
        proof {
            reveal_strlit("");
        }
        st.append("_Next");
        st
    }

    /// Adds to every state named `State_name` the transition to the current
    /// state, under `Branch`; returns a copy.
    pub fn from(&mut self, State_name: &str, Branch: Box<E>) -> (r: FsmModule)
        requires
            0 <= old(self)@.current < old(self)@.states.len(),
        ensures
            final(self)@ == (FsmModel {
                states: add_to_named(
                    old(self)@.states,
                    State_name@,
                    branch_to(old(self)@.reg, Branch@, state_name(old(self)@.states[old(self)@.current as int])),
                ),
                ..old(self)@
            }),
            r@ == final(self)@,
    {
        let ghost m0 = self@;
        let st = self.next_state_name();
        let NameCurrentState = self.State[self.Current_state as usize].getStateName();
        let ghost target = NameCurrentState@;
        let ghost want = add_to_named(m0.states, State_name@, branch_to(m0.reg, Branch@, target));
        let mut i: usize = 0;
        while i < self.State.len()
            invariant
                i <= self.State@.len(),
                self.State@.len() == m0.states.len(),
                self@.reg == m0.reg,
                self@.clk == m0.clk,
                self@.rst == m0.rst,
                self@.current == m0.current,
                st@ == next_name(m0.reg),
                want == add_to_named(m0.states, State_name@, branch_to(m0.reg, Branch@, target)),
                target == NameCurrentState@,
                forall|j: int| 0 <= j < i ==> #[trigger] self.State@[j]@ == want[j],
                forall|j: int| i <= j < self.State@.len() ==> #[trigger] self.State@[j]@ == m0.states[j],
            decreases self.State@.len() - i,
        {
            let Nx = self.State[i].getStateName();
            if str_eq(Nx.as_str(), State_name) {
                let NState = wrVar::new().Reg(st.as_str(), 0);
                let Goto_ = wrVar::new().Parameter(NameCurrentState.as_str(), 0);
                let mut s = self.State[i].clone();
                let form = _Veq(NState, Goto_);
                assert(form@ == transition(m0.reg, target));
                s.SetBranch(clone_box(&Branch), form);
                self.State.set(i, s);
            }
            assert(self.State@[i as int]@ == want[i as int]);
            i = i + 1;
        }
        assert(self@.states =~= want);
        self.clone()
    }

    /// The first state named `name`, else `Null`.
    pub fn Param(&mut self, name: &str) -> (r: Box<E>)
        ensures
            r@ == find_state(old(self)@.states, name@),
            final(self)@ == old(self)@,
    {
        let ghost states = self@.states;
        let mut i: usize = 0;
        assert(states.subrange(0, states.len() as int) =~= states);
        while i < self.State.len()
            invariant
                i <= self.State@.len(),
                states == self.State@.map_values(|s: StateModule| s@),
                find_state(states, name@) == find_state(
                    states.subrange(i as int, states.len() as int),
                    name@,
                ),
            decreases self.State@.len() - i,
        {
            let Nx = self.State[i].getStateName();
            let ghost rest = states.subrange(i as int, states.len() as int);
            assert(rest[0] == self.State@[i as int]@);
            if str_eq(Nx.as_str(), name) {
                return clone_box(&self.State[i].State);
            }
            assert(rest.subrange(1, rest.len() as int) =~= states.subrange(i + 1, states.len() as int));
            i = i + 1;
        }
        Box::new(E::Null)
    }

    /// The register that holds the state.
    pub fn StateReg(&self) -> (r: Box<E>)
        ensures
            r@ == self@.reg,
    {
        clone_box(&self.fsm)
    }

    /// The parameters that number the states, in order: each named after its
    /// state and valued by its position.
    pub fn state_params(&self) -> (r: Vec<wrVar>)
        requires
            self@.states.len() <= i32::MAX,
        ensures
            r@.len() == self@.states.len(),
            forall|i: int| 0 <= i < r@.len() ==> #[trigger] r@[i]@ == param_var(
                state_name(self@.states[i]),
                i as i32,
            ),
    {
        let mut r: Vec<wrVar> = Vec::new();
        let mut n: i32 = 0;
        let mut i: usize = 0;
        while i < self.State.len()
            invariant
                i <= self.State@.len(),
                self.State@.len() <= i32::MAX,
                n == i as i32,
                r@.len() == i,
                forall|j: int| 0 <= j < i ==> #[trigger] r@[j]@ == param_var(
                    state_name(self@.states[j]),
                    j as i32,
                ),
            decreases self.State@.len() - i,
        {
            let mut w = wrVar::new();
            let nm = self.State[i].getStateName();
            assert(self@.states[i as int] == self.State@[i as int]@);
            w.Parameter(nm.as_str(), n);
            r.push(w);
            n += 1;
            i = i + 1;
        }
        r
    }
}

/// The transitions of one state, as one branch of the `case` on the state.
pub open spec fn state_text(s: StateModel) -> Seq<char> {
    "                "@ + state_name(s) + " : begin\n"@ + print_if(s.branch, "Non"@, 5)
        + "                end\n"@
}

/// The transitions of the states, one after the other.
pub open spec fn states_text(s: Seq<StateModel>) -> Seq<char>
    decreases s.len(),
{
    if s.len() == 0 {
        Seq::empty()
    } else {
        states_text(s.drop_last()) + state_text(s.last())
    }
}

/// The two `always` blocks of a state machine: the state register and the
/// next-state logic.
pub open spec fn fsm_text(f: FsmModel) -> Seq<char> {
    let clk = str_out(f.clk);
    let rst = str_out(f.rst);
    let reg = str_out(f.reg);
    let first = str_out(f.states[0].state);
    "    always@(posedge "@ + clk + " or posedge "@ + rst + ") begin\n"@
        + "        if ("@ + rst + " == 1) begin \n            "@ + reg + " <= "@ + first
        + "; \n        end\n"@
        + "        else begin \n            "@ + reg + " <= "@ + reg + "_Next; \n        end \n    end \n\n"@
        + "    always@(posedge "@ + clk + ") begin\n"@
        + "        if ("@ + rst + ") "@ + reg + "_Next <= "@ + first + ";\n"@
        + "        else begin\n"@
        + "            case("@ + reg + ")\n"@
        + states_text(f.states)
        + "            endcase \n        end\n    end\n\n"@
}

/// A state machine can be written out: it has a state, and the transitions of
/// each state can be written out.
pub open spec fn fsm_printable(f: FsmModel) -> bool {
    &&& f.states.len() > 0
    &&& forall|i: int| 0 <= i < f.states.len() ==> if_printable(#[trigger] f.states[i].branch, 5)
}

fn PrintState(STMT: &StateModule) -> (st: String)
    requires
        if_printable(STMT@.branch, 5),
    ensures
        st@ == state_text(STMT@),
{
    let stname = STMT.getStateName();
    let mut st = String::new();
    st.append("                ");
    st.append(stname.as_str());
    st.append(" : begin\n");
    let b = PrintIf(&STMT.Branch, "Non", 5);
    st.append(b.as_str());
    st.append("                end\n");
    assert(st@ =~= state_text(STMT@));
    st
}

/// The two `always` blocks of a state machine.
pub fn PrintFsm(Fsm: &FsmModule) -> (st: String)
    requires
        fsm_printable(Fsm@),
    ensures
        st@ == fsm_text(Fsm@),
{
    let ghost f = Fsm@;
    let CLK = _StrOut(clone_box(&Fsm.clk));
    let RST = _StrOut(clone_box(&Fsm.rst));
    let Reg = _StrOut(clone_box(&Fsm.fsm));
    assert(f.states[0] == Fsm.State@[0]@);
    let First = _StrOut(clone_box(&Fsm.State[0].State));
    let clk = CLK.as_str();
    let rst = RST.as_str();
    let reg = Reg.as_str();
    let first = First.as_str();
    let mut st = String::new();
    st.append("    always@(posedge ");
    st.append(clk);
    st.append(" or posedge ");
    st.append(rst);
    st.append(") begin\n");
    st.append("        if (");
    st.append(rst);
    st.append(" == 1) begin \n            ");
    st.append(reg);
    st.append(" <= ");
    st.append(first);
    st.append("; \n        end\n");
    st.append("        else begin \n            ");
    st.append(reg);
    st.append(" <= ");
    st.append(reg);
    st.append("_Next; \n        end \n    end \n\n");
    st.append("    always@(posedge ");
    st.append(clk);
    st.append(") begin\n");
    st.append("        if (");
    st.append(rst);
    st.append(") ");
    st.append(reg);
    st.append("_Next <= ");
    st.append(first);
    st.append(";\n");
    st.append("        else begin\n");
    st.append("            case(");
    st.append(reg);
    st.append(")\n");
    let ghost head = st@;
    let mut body = String::new();
    let mut i: usize = 0;
    assert(f.states.subrange(0, 0) =~= Seq::<StateModel>::empty());
    while i < Fsm.State.len()
        invariant
            i <= Fsm.State@.len(),
            f == Fsm@,
            fsm_printable(f),
            body@ == states_text(f.states.subrange(0, i as int)),
        decreases Fsm.State@.len() - i,
    {
        assert(f.states[i as int] == Fsm.State@[i as int]@);
        assert(if_printable(f.states[i as int].branch, 5));
        let s = PrintState(&Fsm.State[i]);
        body.append(s.as_str());
        i = i + 1;
        let ghost sub = f.states.subrange(0, i as int);
        assert(sub.drop_last() =~= f.states.subrange(0, i - 1));
        assert(body@ =~= states_text(sub));
    }
    assert(f.states.subrange(0, f.states.len() as int) =~= f.states);
    st.append(body.as_str());
    st.append("            endcase \n        end\n    end\n\n");
    assert(st@ =~= fsm_text(f));
    st
}

} // verus!
