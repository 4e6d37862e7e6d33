//! A Verilog module: its parameters, ports, local signals, assignments,
//! `always` blocks, functions, state machines and AXI ports, and the text of
//! the whole module.

use vstd::prelude::*;
use crate::ast::{E, EV, wrVar, VarModel, io_p, fresh_var, vars_view, views_of, lemma_views_of, clone_vars};
use crate::stmt::SetEqual;
use crate::expr::{_V, str_out};
use crate::stmt::{
    Assign, AssignModel, Always, AlwaysModel, Func_AST, FuncModel, assigns_view, always_view,
    funcs_view, PrintAssign, PrintAlways, PrintFunction, print_assign, print_always, print_function,
    assigns_printable, always_printable, funcs_printable,
};
use crate::fsm::{FsmModule, FsmModel, StateModel, PrintFsm, fsm_text, fsm_printable, param_var, state_name};
use crate::axi::{AXI, AxiModel, AXISLite, AXIS, AxisModel, PrintAXI, axi_text, axi_printable, addr_bits, addr_width};
use crate::text::{spec_dec, str_eq, push_dec};

verus! {

/// A Verilog module under construction, and the text last generated for it.
#[derive(Debug)]
pub struct VModule {
    Module_Name: String,
    IO_Port: Vec<wrVar>,
    IO_Param: Vec<wrVar>,
    Local: Vec<wrVar>,
    Always_AST: Vec<Always>,
    Assign_AST: Vec<Assign>,
    Function_AST: Vec<Func_AST>,
    Fsm: Vec<FsmModule>,
    Axi: Vec<AXI>,
    Inline: String,
    code: String,
}

/// What a module holds.
pub struct ModuleModel {
    pub name: Seq<char>,
    pub ports: Seq<VarModel>,
    pub params: Seq<VarModel>,
    pub locals: Seq<VarModel>,
    pub always: Seq<AlwaysModel>,
    pub assigns: Seq<AssignModel>,
    pub funcs: Seq<FuncModel>,
    pub fsms: Seq<FsmModel>,
    pub axis: Seq<AxiModel>,
    pub inline: Seq<char>,
    pub code: Seq<char>,
}

/// The models of a list of state machines.
pub open spec fn fsms_view(s: Seq<FsmModule>) -> Seq<FsmModel> {
    s.map_values(|f: FsmModule| f@)
}

/// The models of a list of AXI ports.
pub open spec fn axis_view(s: Seq<AXI>) -> Seq<AxiModel> {
    s.map_values(|a: AXI| a@)
}

impl View for VModule {
    type V = ModuleModel;

    closed spec fn view(&self) -> ModuleModel {
        ModuleModel {
            name: self.Module_Name@,
            ports: vars_view(self.IO_Port@),
            params: vars_view(self.IO_Param@),
            locals: vars_view(self.Local@),
            always: always_view(self.Always_AST@),
            assigns: assigns_view(self.Assign_AST@),
            funcs: funcs_view(self.Function_AST@),
            fsms: fsms_view(self.Fsm@),
            axis: axis_view(self.Axi@),
            inline: self.Inline@,
            code: self.code@,
        }
    }
}

fn copy_string(s: &String) -> (r: String)
    ensures
        r@ == s@,
{
    s.as_str().to_owned()
}

impl Clone for VModule {
    fn clone(&self) -> (r: Self)
        ensures
            r@ == self@,
    {
        let always = self.Always_AST.clone();
        let assigns = self.Assign_AST.clone();
        let funcs = self.Function_AST.clone();
        let fsms = self.Fsm.clone();
        let axis = self.Axi.clone();
        assert(always_view(always@) =~= always_view(self.Always_AST@));
        assert(assigns_view(assigns@) =~= assigns_view(self.Assign_AST@));
        assert(funcs_view(funcs@) =~= funcs_view(self.Function_AST@));
        assert(fsms_view(fsms@) =~= fsms_view(self.Fsm@));
        assert(axis_view(axis@) =~= axis_view(self.Axi@));
        VModule {
            Module_Name: copy_string(&self.Module_Name),
            IO_Port: clone_vars(&self.IO_Port),
            IO_Param: clone_vars(&self.IO_Param),
            Local: clone_vars(&self.Local),
            Always_AST: always,
            Assign_AST: assigns,
            Function_AST: funcs,
            Fsm: fsms,
            Axi: axis,
            Inline: copy_string(&self.Inline),
            code: copy_string(&self.code),
        }
    }
}

/// The number carried by a width argument: a number gives itself, anything
/// else 0.
pub open spec fn width_num(w: EV) -> i32 {
    match w {
        EV::Num(i) => i,
        _ => 0,
    }
}

/// The width parameter carried by a width argument: a signal gives its own
/// width parameter, anything else none ("_").
pub open spec fn width_param(w: EV) -> Seq<char> {
    match w {
        EV::Ldc(v) => v.width_p,
        _ => "_"@,
    }
}

/// A signal named `name` of the given kind, sized by the width argument `w`.
pub open spec fn sized_var(name: Seq<char>, io: io_p, reg: bool, w: EV) -> VarModel {
    VarModel { name: name, io: io, reg: reg, width: width_num(w), width_p: width_param(w), ..fresh_var() }
}

/// A memory named `name`, its width and length given by the names of the
/// signals `w` and `l` (where they are signals).
pub open spec fn mem_var(name: Seq<char>, w: EV, l: EV) -> VarModel {
    VarModel {
        name: name,
        reg: true,
        width_p: match w {
            EV::Ldc(v) => v.name,
            _ => "_"@,
        },
        length_p: match l {
            EV::Ldc(v) => v.name,
            _ => "_"@,
        },
        ..fresh_var()
    }
}

/// The names of the functions, in order (those named by a signal).
pub open spec fn func_names(fs: Seq<FuncModel>) -> Seq<Seq<char>>
    decreases fs.len(),
{
    if fs.len() == 0 {
        Seq::empty()
    } else {
        let rest = func_names(fs.drop_last());
        match fs.last().top {
            EV::Ldc(w) => rest.push(w.name),
            _ => rest,
        }
    }
}

/// The views of a list of strings.
pub open spec fn strings_view(s: Seq<String>) -> Seq<Seq<char>> {
    s.map_values(|x: String| x@)
}

impl VModule {
    /// An empty module named `Name`.
    pub fn new(Name: &str) -> (r: VModule)
        ensures
            r@ == (ModuleModel {
                name: Name@,
                ports: Seq::empty(),
                params: Seq::empty(),
                locals: Seq::empty(),
                always: Seq::empty(),
                assigns: Seq::empty(),
                funcs: Seq::empty(),
                fsms: Seq::empty(),
                axis: Seq::empty(),
                inline: Seq::empty(),
                code: " "@,
            }),
    {
        let r = VModule {
            Module_Name: Name.to_owned(),
            IO_Port: Vec::new(),
            IO_Param: Vec::new(),
            Local: Vec::new(),
            Always_AST: Vec::new(),
            Assign_AST: Vec::new(),
            Function_AST: Vec::new(),
            Fsm: Vec::new(),
            Axi: Vec::new(),
            Inline: String::new(),
            code: String::from_str(" "),
        };
        assert(r@.ports =~= Seq::<VarModel>::empty());
        assert(r@.params =~= Seq::<VarModel>::empty());
        assert(r@.locals =~= Seq::<VarModel>::empty());
        assert(r@.always =~= Seq::<AlwaysModel>::empty());
        assert(r@.assigns =~= Seq::<AssignModel>::empty());
        assert(r@.funcs =~= Seq::<FuncModel>::empty());
        assert(r@.fsms =~= Seq::<FsmModel>::empty());
        assert(r@.axis =~= Seq::<AxiModel>::empty());
        r
    }

    /// Adds a parameter of the module; returns it as a signal.
    pub fn Param(&mut self, name: &str, Value: i32) -> (r: Box<E>)
        ensures
            final(self)@ == (ModuleModel { params: old(self)@.params.push(param_var(name@, Value)), ..old(self)@ }),
            r@ == EV::Ldc(param_var(name@, Value)),
    {
        let mut tmp = wrVar::new();
        tmp.Parameter(name, Value);
        self.IO_Param.push(tmp.clone());
        proof {
            assert(vars_view(self.IO_Param@) =~= vars_view(old(self).IO_Param@).push(tmp@));
        }
        _V(tmp)
    }

    /// Adds a local parameter; returns it as a signal.
    pub fn LParam(&mut self, name: &str, Value: i32) -> (r: Box<E>)
        ensures
            final(self)@ == (ModuleModel { locals: old(self)@.locals.push(param_var(name@, Value)), ..old(self)@ }),
            r@ == EV::Ldc(param_var(name@, Value)),
    {
        let mut tmp = wrVar::new();
        tmp.Parameter(name, Value);
        self.Local.push(tmp.clone());
        proof {
            assert(vars_view(self.Local@) =~= vars_view(old(self).Local@).push(tmp@));
        }
        _V(tmp)
    }

    fn getName(&mut self) -> (r: String)
        ensures
            r@ == old(self)@.name,
            final(self)@ == old(self)@,
    {
        copy_string(&self.Module_Name)
    }

    /// Adds an `always` block.
    pub fn Always(&mut self, AST_of_Always: Always)
        ensures
            final(self)@ == (ModuleModel { always: old(self)@.always.push(AST_of_Always@), ..old(self)@ }),
    {
        self.Always_AST.push(AST_of_Always);
        proof {
            assert(always_view(self.Always_AST@) =~= always_view(old(self).Always_AST@).push(AST_of_Always@));
        }
    }

    /// Adds an assignment.
    pub fn Assign(&mut self, AST_of_Assign: Assign)
        ensures
            final(self)@ == (ModuleModel { assigns: old(self)@.assigns.push(AST_of_Assign@), ..old(self)@ }),
    {
        self.Assign_AST.push(AST_of_Assign);
        proof {
            assert(assigns_view(self.Assign_AST@) =~= assigns_view(old(self).Assign_AST@).push(AST_of_Assign@));
        }
    }

    /// Adds Verilog text written out as it is, followed by a blank line.
    pub fn Inline(&mut self, code: &str)
        ensures
            final(self)@ == (ModuleModel { inline: old(self)@.inline + code@ + "\n\n"@, ..old(self)@ }),
    {
        self.Inline.append(code);
        self.Inline.append("\n\n");
    }

    /// The text generated by the last `endmodule` (a single space before the
    /// first).
    pub fn get_code(&self) -> (r: String)
        ensures
            r@ == self@.code,
    {
        copy_string(&self.code)
    }

    /// The name of the module.
    pub fn get_mod_name(&mut self) -> (r: String)
        ensures
            r@ == old(self)@.name,
            final(self)@ == old(self)@,
    {
        copy_string(&self.Module_Name)
    }

    /// The ports.
    pub fn out_port(&mut self) -> (r: Vec<wrVar>)
        ensures
            vars_view(r@) == old(self)@.ports,
            final(self)@ == old(self)@,
    {
        clone_vars(&self.IO_Port)
    }

    /// The parameters.
    pub fn out_param(&mut self) -> (r: Vec<wrVar>)
        ensures
            vars_view(r@) == old(self)@.params,
            final(self)@ == old(self)@,
    {
        clone_vars(&self.IO_Param)
    }

    /// The local parameters and signals.
    pub fn out_l_param(&mut self) -> (r: Vec<wrVar>)
        ensures
            vars_view(r@) == old(self)@.locals,
            final(self)@ == old(self)@,
    {
        clone_vars(&self.Local)
    }

    /// The names of the functions.
    pub fn out_func_name(&mut self) -> (r: Vec<String>)
        ensures
            strings_view(r@) == func_names(old(self)@.funcs),
            final(self)@ == old(self)@,
    {
        let ghost fs = funcs_view(self.Function_AST@);
        let mut st: Vec<String> = Vec::new();
        let mut i: usize = 0;
        assert(fs.subrange(0, 0) =~= Seq::<FuncModel>::empty());
        assert(strings_view(st@) =~= Seq::<Seq<char>>::empty());
        while i < self.Function_AST.len()
            invariant
                i <= self.Function_AST@.len(),
                fs == funcs_view(self.Function_AST@),
                strings_view(st@) == func_names(fs.subrange(0, i as int)),
            decreases self.Function_AST@.len() - i,
        {
            let mut x = self.Function_AST[i].clone();
            let e = x.own();
            let ghost sub = fs.subrange(0, i + 1);
            assert(sub.drop_last() =~= fs.subrange(0, i as int));
            assert(sub.last() == fs[i as int]);
            match &*e {
                E::Ldc(wrtop) => {
                    let nm = wrtop.getName();
                    let ghost old_st = st@;
                    st.push(nm);
                    assert(strings_view(st@) =~= strings_view(old_st).push(nm@));
                },
                _ => {},
            }
            i = i + 1;
        }
        assert(fs.subrange(0, fs.len() as int) =~= fs);
        st
    }

    /// The assignments.
    pub fn out_assign(&mut self) -> (r: Vec<Assign>)
        ensures
            assigns_view(r@) == old(self)@.assigns,
            final(self)@ == old(self)@,
    {
        let r = self.Assign_AST.clone();
        assert(assigns_view(r@) =~= assigns_view(self.Assign_AST@));
        r
    }

    /// The `always` blocks.
    pub fn out_always(&mut self) -> (r: Vec<Always>)
        ensures
            always_view(r@) == old(self)@.always,
            final(self)@ == old(self)@,
    {
        let r = self.Always_AST.clone();
        assert(always_view(r@) =~= always_view(self.Always_AST@));
        r
    }

    /// Adds a signal named `name` of the given kind, sized by `Width`: ports
    /// go to the port list, wires and registers to the local signals.
    fn add_var(&mut self, name: &str, io: io_p, reg: bool, Width: Box<E>) -> (r: Box<E>)
        requires
            io == io_p::input_ || io == io_p::output_ || io == io_p::inout_ || io == io_p::none,
            io == io_p::input_ || io == io_p::inout_ ==> !reg,
        ensures
            r@ == EV::Ldc(sized_var(name@, io, reg, Width@)),
            io != io_p::none ==> final(self)@ == (ModuleModel {
                ports: old(self)@.ports.push(sized_var(name@, io, reg, Width@)),
                ..old(self)@
            }),
            io == io_p::none ==> final(self)@ == (ModuleModel {
                locals: old(self)@.locals.push(sized_var(name@, io, reg, Width@)),
                ..old(self)@
            }),
    {
        let mut tmp = wrVar::new();
        let len: i32 = match &*Width {
            E::Num(i) => *i,
            _ => 0,
        };
        match io {
            io_p::input_ => {
                tmp.Input(name, len);
            },
            io_p::inout_ => {
                tmp.Inout(name, len);
            },
            io_p::output_ => {
                if reg {
                    tmp.OutputReg(name, len);
                } else {
                    tmp.Output(name, len);
                }
            },
            _ => {
                if reg {
                    tmp.Reg(name, len);
                } else {
                    tmp.Wire(name, len);
                }
            },
        }
        match &*Width {
            E::Ldc(wr) => {
                let wp = wr.getWP();
                tmp.Width(wp.as_str());
            },
            _ => {},
        }
        assert(tmp@ == sized_var(name@, io, reg, Width@));
        if io == io_p::none {
            self.Local.push(tmp.clone());
            proof {
                assert(vars_view(self.Local@) =~= vars_view(old(self).Local@).push(tmp@));
            }
        } else {
            self.IO_Port.push(tmp.clone());
            proof {
                assert(vars_view(self.IO_Port@) =~= vars_view(old(self).IO_Port@).push(tmp@));
            }
        }
        _V(tmp)
    }
}

/// Adding ports and local signals, sized by a number or by the width
/// parameter of a signal.
pub trait Vset<T> {
    fn Input(&mut self, name: &str, Width: T) -> Box<E>;

    fn Inout(&mut self, name: &str, Width: T) -> Box<E>;

    fn Output(&mut self, name: &str, Width: T) -> Box<E>;

    fn Reg_Output(&mut self, name: &str, Width: T) -> Box<E>;

    fn Wire(&mut self, name: &str, Width: T) -> Box<E>;

    fn Reg(&mut self, name: &str, Width: T) -> Box<E>;
}

impl Vset<Box<E>> for VModule {
    /// Adds an input port.
    fn Input(&mut self, name: &str, Width: Box<E>) -> (r: Box<E>)
        ensures
            final(self)@ == (ModuleModel {
                ports: old(self)@.ports.push(sized_var(name@, io_p::input_, false, Width@)),
                ..old(self)@
            }),
            r@ == EV::Ldc(sized_var(name@, io_p::input_, false, Width@)),
    {
        self.add_var(name, io_p::input_, false, Width)
    }

    /// Adds an inout port.
    fn Inout(&mut self, name: &str, Width: Box<E>) -> (r: Box<E>)
        ensures
            final(self)@ == (ModuleModel {
                ports: old(self)@.ports.push(sized_var(name@, io_p::inout_, false, Width@)),
                ..old(self)@
            }),
            r@ == EV::Ldc(sized_var(name@, io_p::inout_, false, Width@)),
    {
        self.add_var(name, io_p::inout_, false, Width)
    }

    /// Adds an output port.
    fn Output(&mut self, name: &str, Width: Box<E>) -> (r: Box<E>)
        ensures
            final(self)@ == (ModuleModel {
                ports: old(self)@.ports.push(sized_var(name@, io_p::output_, false, Width@)),
                ..old(self)@
            }),
            r@ == EV::Ldc(sized_var(name@, io_p::output_, false, Width@)),
    {
        self.add_var(name, io_p::output_, false, Width)
    }

    /// Adds a registered output port.
    fn Reg_Output(&mut self, name: &str, Width: Box<E>) -> (r: Box<E>)
        ensures
            final(self)@ == (ModuleModel {
                ports: old(self)@.ports.push(sized_var(name@, io_p::output_, true, Width@)),
                ..old(self)@
            }),
            r@ == EV::Ldc(sized_var(name@, io_p::output_, true, Width@)),
    {
        self.add_var(name, io_p::output_, true, Width)
    }

    /// Adds a wire.
    fn Wire(&mut self, name: &str, Width: Box<E>) -> (r: Box<E>)
        ensures
            final(self)@ == (ModuleModel {
                locals: old(self)@.locals.push(sized_var(name@, io_p::none, false, Width@)),
                ..old(self)@
            }),
            r@ == EV::Ldc(sized_var(name@, io_p::none, false, Width@)),
    {
        self.add_var(name, io_p::none, false, Width)
    }

    /// Adds a register.
    fn Reg(&mut self, name: &str, Width: Box<E>) -> (r: Box<E>)
        ensures
            final(self)@ == (ModuleModel {
                locals: old(self)@.locals.push(sized_var(name@, io_p::none, true, Width@)),
                ..old(self)@
            }),
            r@ == EV::Ldc(sized_var(name@, io_p::none, true, Width@)),
    {
        self.add_var(name, io_p::none, true, Width)
    }
}

impl Vset<i32> for VModule {
    /// Adds an input port `Width` bits wide.
    fn Input(&mut self, name: &str, Width: i32) -> (r: Box<E>)
        ensures
            final(self)@ == (ModuleModel {
                ports: old(self)@.ports.push(sized_var(name@, io_p::input_, false, EV::Num(Width))),
                ..old(self)@
            }),
            r@ == EV::Ldc(sized_var(name@, io_p::input_, false, EV::Num(Width))),
    {
        self.add_var(name, io_p::input_, false, Box::new(E::Num(Width)))
    }

    /// Adds an inout port `Width` bits wide.
    fn Inout(&mut self, name: &str, Width: i32) -> (r: Box<E>)
        ensures
            final(self)@ == (ModuleModel {
                ports: old(self)@.ports.push(sized_var(name@, io_p::inout_, false, EV::Num(Width))),
                ..old(self)@
            }),
            r@ == EV::Ldc(sized_var(name@, io_p::inout_, false, EV::Num(Width))),
    {
        self.add_var(name, io_p::inout_, false, Box::new(E::Num(Width)))
    }

    /// Adds an output port `Width` bits wide.
    fn Output(&mut self, name: &str, Width: i32) -> (r: Box<E>)
        ensures
            final(self)@ == (ModuleModel {
                ports: old(self)@.ports.push(sized_var(name@, io_p::output_, false, EV::Num(Width))),
                ..old(self)@
            }),
            r@ == EV::Ldc(sized_var(name@, io_p::output_, false, EV::Num(Width))),
    {
        self.add_var(name, io_p::output_, false, Box::new(E::Num(Width)))
    }

    /// Adds a registered output port `Width` bits wide.
    fn Reg_Output(&mut self, name: &str, Width: i32) -> (r: Box<E>)
        ensures
            final(self)@ == (ModuleModel {
                ports: old(self)@.ports.push(sized_var(name@, io_p::output_, true, EV::Num(Width))),
                ..old(self)@
            }),
            r@ == EV::Ldc(sized_var(name@, io_p::output_, true, EV::Num(Width))),
    {
        self.add_var(name, io_p::output_, true, Box::new(E::Num(Width)))
    }

    /// Adds a wire `Width` bits wide.
    fn Wire(&mut self, name: &str, Width: i32) -> (r: Box<E>)
        ensures
            final(self)@ == (ModuleModel {
                locals: old(self)@.locals.push(sized_var(name@, io_p::none, false, EV::Num(Width))),
                ..old(self)@
            }),
            r@ == EV::Ldc(sized_var(name@, io_p::none, false, EV::Num(Width))),
    {
        self.add_var(name, io_p::none, false, Box::new(E::Num(Width)))
    }

    /// Adds a register `Width` bits wide.
    fn Reg(&mut self, name: &str, Width: i32) -> (r: Box<E>)
        ensures
            final(self)@ == (ModuleModel {
                locals: old(self)@.locals.push(sized_var(name@, io_p::none, true, EV::Num(Width))),
                ..old(self)@
            }),
            r@ == EV::Ldc(sized_var(name@, io_p::none, true, EV::Num(Width))),
    {
        self.add_var(name, io_p::none, true, Box::new(E::Num(Width)))
    }
}

/// Adding a function.
pub trait Func_trait<T> {
    fn Function(&mut self, AST_of_Function: T);
}

impl Func_trait<Func_AST> for VModule {
    /// Adds a function.
    fn Function(&mut self, AST_of_Function: Func_AST)
        ensures
            final(self)@ == (ModuleModel { funcs: old(self)@.funcs.push(AST_of_Function@), ..old(self)@ }),
    {
        self.Function_AST.push(AST_of_Function);
        proof {
            assert(funcs_view(self.Function_AST@) =~= funcs_view(old(self).Function_AST@).push(AST_of_Function@));
        }
    }
}

impl<'a> Func_trait<&'a Func_AST> for VModule {
    /// Adds a copy of a function.
    fn Function(&mut self, AST_of_Function: &'a Func_AST)
        ensures
            final(self)@ == (ModuleModel { funcs: old(self)@.funcs.push(AST_of_Function@), ..old(self)@ }),
    {
        let f = AST_of_Function.clone();
        self.Function_AST.push(f);
        proof {
            assert(funcs_view(self.Function_AST@) =~= funcs_view(old(self).Function_AST@).push(AST_of_Function@));
        }
    }
}

/// Adding a memory, sized by the names of two signals.
pub trait Memset<T> {
    fn Mem(&mut self, name: &str, args: T) -> Box<E>;
}

impl Memset<(Box<E>, Box<E>)> for VModule {
    /// Adds a memory whose width and length are the names of the signals
    /// `args.0` and `args.1`.
    fn Mem(&mut self, name: &str, args: (Box<E>, Box<E>)) -> (r: Box<E>)
        ensures
            final(self)@ == (ModuleModel {
                locals: old(self)@.locals.push(mem_var(name@, args.0@, args.1@)),
                ..old(self)@
            }),
            r@ == EV::Ldc(mem_var(name@, args.0@, args.1@)),
    {
        let mut tmp = wrVar::new();
        tmp.Mem(name, 0, 0);
        match &*args.0 {
            E::Ldc(wr) => {
                let n = wr.getName();
                tmp.Width(n.as_str());
            },
            _ => {},
        }
        match &*args.1 {
            E::Ldc(wr) => {
                let n = wr.getName();
                tmp.Length(n.as_str());
            },
            _ => {},
        }
        assert(tmp@ == mem_var(name@, args.0@, args.1@));
        self.Local.push(tmp.clone());
        proof {
            assert(vars_view(self.Local@) =~= vars_view(old(self).Local@).push(tmp@));
        }
        _V(tmp)
    }
}

// ---------------------------------------------------------------- text

/// One parameter line; `more` when other parameters follow it.
pub open spec fn param_line(x: VarModel, more: bool) -> Seq<char> {
    "    parameter "@ + x.name + " = "@ + spec_dec(x.value as int) + (if more { ",\n"@ } else { "\n"@ })
}

/// The lines of the first `k` parameters.
pub open spec fn param_lines(s: Seq<VarModel>, k: int) -> Seq<char>
    decreases k,
{
    if k <= 0 {
        Seq::empty()
    } else {
        param_lines(s, k - 1) + param_line(s[k - 1], k < s.len())
    }
}

/// The parameter list of a module (nothing when it has none).
pub open spec fn print_param(s: Seq<VarModel>) -> Seq<char> {
    if s.len() == 0 {
        Seq::empty()
    } else {
        "#(\n"@ + param_lines(s, s.len() as int) + ")\n"@
    }
}

/// The width of a signal: by its width parameter when its width is 0 and it
/// has one, by its width when that is over 1, else a single space.
pub open spec fn width_text(x: VarModel) -> Seq<char> {
    if x.width == 0 && x.width_p != "_"@ {
        "["@ + x.width_p + "-1:0] "@
    } else if x.width > 1 {
        "["@ + spec_dec(x.width - 1) + ":0] "@
    } else {
        " "@
    }
}

/// The length of a memory: by its length parameter when its length is 0 and
/// it has one, by its length when that is not 0, else nothing.
pub open spec fn length_text(x: VarModel) -> Seq<char> {
    if x.length == 0 && x.length_p != "_"@ {
        " ["@ + x.length_p + "-1:0]"@
    } else if x.length != 0 {
        " ["@ + spec_dec(x.length - 1) + ":0]"@
    } else {
        Seq::empty()
    }
}

/// Whether a signal is a port.
pub open spec fn is_port_io(io: io_p) -> bool {
    io == io_p::input_ || io == io_p::output_ || io == io_p::inout_
}

/// The keyword of a port.
pub open spec fn io_text(x: VarModel) -> Seq<char> {
    if x.io == io_p::input_ {
        "    input "@
    } else if x.io == io_p::output_ {
        if x.reg {
            "    output reg "@
        } else {
            "    output "@
        }
    } else {
        "    inout "@
    }
}

/// One port line; `more` when other ports follow it.
pub open spec fn port_line(x: VarModel, more: bool) -> Seq<char> {
    io_text(x) + width_text(x) + x.name + length_text(x) + (if more { ",\n"@ } else { "\n"@ })
}

/// The lines of the first `k` ports.
pub open spec fn port_lines(s: Seq<VarModel>, k: int) -> Seq<char>
    decreases k,
{
    if k <= 0 {
        Seq::empty()
    } else {
        port_lines(s, k - 1) + port_line(s[k - 1], k < s.len())
    }
}

/// The position of the first signal from `i` on that is no port (the length
/// of the list when there is none).
pub open spec fn port_stop(s: Seq<VarModel>, i: int) -> int
    decreases s.len() - i,
{
    if i < 0 || i >= s.len() {
        s.len() as int
    } else if !is_port_io(s[i].io) {
        i
    } else {
        port_stop(s, i + 1)
    }
}

/// The port list of a module. The list ends at the first signal that is no
/// port, and is then left open.
pub open spec fn print_port(s: Seq<VarModel>) -> Seq<char> {
    let k = port_stop(s, 0);
    "(\n"@ + port_lines(s, k) + (if k == s.len() { ");\n"@ } else { Seq::empty() })
}

/// The ports that are written out can be: their lengths less one fit in an
/// `i32`.
pub open spec fn ports_printable(s: Seq<VarModel>) -> bool {
    forall|i: int| 0 <= i < port_stop(s, 0) ==> (#[trigger] s[i]).length != i32::MIN
}

/// Whether a signal is local: a local parameter, a wire or a register.
pub open spec fn is_local_io(io: io_p) -> bool {
    io == io_p::param_ || io == io_p::none
}

/// One line of a local parameter, wire or register.
pub open spec fn local_line(x: VarModel) -> Seq<char> {
    if x.io == io_p::param_ {
        "    localparam "@ + x.name + " = "@ + spec_dec(x.value as int) + ";\n"@
    } else {
        (if x.reg { "    reg "@ } else { "    wire "@ }) + width_text(x) + x.name + length_text(x) + ";\n"@
    }
}

/// The lines of the first `k` local signals.
pub open spec fn local_lines(s: Seq<VarModel>, k: int) -> Seq<char>
    decreases k,
{
    if k <= 0 {
        Seq::empty()
    } else {
        local_lines(s, k - 1) + local_line(s[k - 1])
    }
}

/// The position of the first signal from `i` on that is not local (the
/// length of the list when there is none).
pub open spec fn local_stop(s: Seq<VarModel>, i: int) -> int
    decreases s.len() - i,
{
    if i < 0 || i >= s.len() {
        s.len() as int
    } else if !is_local_io(s[i].io) {
        i
    } else {
        local_stop(s, i + 1)
    }
}

/// The local section of a module (nothing when it has no local signals). It
/// ends at the first signal that is not local.
pub open spec fn print_local(s: Seq<VarModel>) -> Seq<char> {
    if s.len() == 0 {
        Seq::empty()
    } else {
        "    // ----Generate Local Parts----\n\n"@ + local_lines(s, local_stop(s, 0))
    }
}

/// The wires and registers that are written out can be: their lengths less
/// one fit in an `i32`.
pub open spec fn locals_printable(s: Seq<VarModel>) -> bool {
    forall|i: int| 0 <= i < local_stop(s, 0) && (#[trigger] s[i]).io == io_p::none ==> s[i].length != i32::MIN
}

proof fn lemma_port_stop(s: Seq<VarModel>, i: int)
    requires
        0 <= i <= s.len(),
    ensures
        i <= port_stop(s, i) <= s.len(),
    decreases s.len() - i,
{
    if i < s.len() && is_port_io(s[i].io) {
        lemma_port_stop(s, i + 1);
    }
}

proof fn lemma_local_stop(s: Seq<VarModel>, i: int)
    requires
        0 <= i <= s.len(),
    ensures
        i <= local_stop(s, i) <= s.len(),
    decreases s.len() - i,
{
    if i < s.len() && is_local_io(s[i].io) {
        lemma_local_stop(s, i + 1);
    }
}

fn width_string(x: &wrVar) -> (r: String)
    ensures
        r@ == width_text(x@),
{
    let wp = x.getWP();
    if x.getWidth() == 0 && !str_eq(wp.as_str(), "_") {
        let mut r = String::from_str("[");
        r.append(wp.as_str());
        r.append("-1:0] ");
        r
    } else if x.getWidth() > 1 {
        let mut r = String::from_str("[");
        push_dec(&mut r, (x.getWidth() - 1) as i64);
        r.append(":0] ");
        r
    } else {
        String::from_str(" ")
    }
}

fn length_string(x: &wrVar) -> (r: String)
    requires
        x@.length != i32::MIN,
    ensures
        r@ == length_text(x@),
{
    let lp = x.getLP();
    if x.getLength() == 0 && !str_eq(lp.as_str(), "_") {
        let mut r = String::from_str(" [");
        r.append(lp.as_str());
        r.append("-1:0]");
        r
    } else if x.getLength() != 0 {
        let mut r = String::from_str(" [");
        push_dec(&mut r, (x.getLength() - 1) as i64);
        r.append(":0]");
        r
    } else {
        String::new()
    }
}

/// The parameter list of a module.
pub fn PrintParam(Param: &Vec<wrVar>) -> (st: String)
    ensures
        st@ == print_param(vars_view(Param@)),
{
    let ghost s = vars_view(Param@);
    let n = Param.len();
    if n == 0 {
        return String::new();
    }
    let mut lines = String::new();
    let mut num: usize = 0;
    while num < n
        invariant
            num <= n,
            n == Param@.len(),
            s == vars_view(Param@),
            lines@ == param_lines(s, num as int),
        decreases n - num,
    {
        let x = &Param[num];
        assert(s[num as int] == x@);
        let mut line = String::from_str("    parameter ");
        let nm = x.getName();
        line.append(nm.as_str());
        line.append(" = ");
        push_dec(&mut line, x.getValue() as i64);
        num = num + 1;
        if n > num {
            line.append(",\n");
        } else {
            line.append("\n");
        }
        lines.append(line.as_str());
    }
    let mut st = String::from_str("#(\n");
    st.append(lines.as_str());
    st.append(")\n");
    st
}

/// The port list of a module.
pub fn PrintPort(Port: &Vec<wrVar>) -> (st: String)
    requires
        ports_printable(vars_view(Port@)),
    ensures
        st@ == print_port(vars_view(Port@)),
{
    let ghost s = vars_view(Port@);
    let n = Port.len();
    let mut lines = String::new();
    let mut num: usize = 0;
    while num < n
        invariant
            num <= n,
            n == Port@.len(),
            s == vars_view(Port@),
            ports_printable(s),
            port_stop(s, 0) == port_stop(s, num as int),
            lines@ == port_lines(s, num as int),
        decreases n - num,
    {
        let x = &Port[num];
        assert(s[num as int] == x@);
        let io = x.getIO();
        let mut line = match io {
            io_p::input_ => String::from_str("    input "),
            io_p::output_ => {
                if x.getReg() {
                    String::from_str("    output reg ")
                } else {
                    String::from_str("    output ")
                }
            },
            io_p::inout_ => String::from_str("    inout "),
            _ => {
                let mut st = String::from_str("(\n");
                st.append(lines.as_str());
                return st;
            },
        };
        assert(port_stop(s, num as int) == port_stop(s, num + 1));
        proof {
            lemma_port_stop(s, num + 1);
            assert(s[num as int].length != i32::MIN);
        }
        let w = width_string(x);
        line.append(w.as_str());
        let nm = x.getName();
        line.append(nm.as_str());
        let l = length_string(x);
        line.append(l.as_str());
        num = num + 1;
        if n > num {
            line.append(",\n");
        } else {
            line.append("\n");
        }
        lines.append(line.as_str());
    }
    let mut st = String::from_str("(\n");
    st.append(lines.as_str());
    st.append(");\n");
    st
}

/// The local parameters, wires and registers of a module.
pub fn PrintLocal(PWR: &Vec<wrVar>) -> (st: String)
    requires
        locals_printable(vars_view(PWR@)),
    ensures
        st@ == print_local(vars_view(PWR@)),
{
    let ghost s = vars_view(PWR@);
    let n = PWR.len();
    if n == 0 {
        return String::new();
    }
    let mut lines = String::new();
    let mut i: usize = 0;
    while i < n
        invariant
            i <= n,
            n == PWR@.len(),
            s == vars_view(PWR@),
            locals_printable(s),
            local_stop(s, 0) == local_stop(s, i as int),
            lines@ == local_lines(s, i as int),
        decreases n - i,
    {
        let x = &PWR[i];
        assert(s[i as int] == x@);
        let io = x.getIO();
        let line = match io {
            io_p::param_ => {
                let mut line = String::from_str("    localparam ");
                let nm = x.getName();
                line.append(nm.as_str());
                line.append(" = ");
                push_dec(&mut line, x.getValue() as i64);
                line.append(";\n");
                line
            },
            io_p::none => {
                proof {
                    assert(local_stop(s, i as int) == local_stop(s, i + 1));
                    lemma_local_stop(s, i + 1);
                    assert(s[i as int].length != i32::MIN);
                }
                let mut line = if x.getReg() {
                    String::from_str("    reg ")
                } else {
                    String::from_str("    wire ")
                };
                let w = width_string(x);
                line.append(w.as_str());
                let nm = x.getName();
                line.append(nm.as_str());
                let l = length_string(x);
                line.append(l.as_str());
                line.append(";\n");
                line
            },
            _ => {
                let mut st = String::from_str("    // ----Generate Local Parts----\n\n");
                st.append(lines.as_str());
                return st;
            },
        };
        assert(local_stop(s, i as int) == local_stop(s, i + 1));
        lines.append(line.as_str());
        i = i + 1;
    }
    let mut st = String::from_str("    // ----Generate Local Parts----\n\n");
    st.append(lines.as_str());
    st
}

/// The text of the state machines, one after the other.
pub open spec fn fsms_text(s: Seq<FsmModel>, k: int) -> Seq<char>
    decreases k,
{
    if k <= 0 {
        Seq::empty()
    } else {
        fsms_text(s, k - 1) + fsm_text(s[k - 1])
    }
}

/// The text of the AXI ports, one after the other, numbered from 0.
pub open spec fn axis_texts(s: Seq<AxiModel>, k: int) -> Seq<char>
    decreases k,
{
    if k <= 0 {
        Seq::empty()
    } else {
        axis_texts(s, k - 1) + axi_text(s[k - 1], k - 1)
    }
}

/// The state machines, AXI ports and inline text of a module, under a
/// heading (nothing when there are none).
pub open spec fn extra_text(m: ModuleModel) -> Seq<char> {
    if m.fsms.len() != 0 || m.axis.len() != 0 || m.inline.len() != 0 {
        "\n    // ----Extra Component Set----\n\n"@ + fsms_text(m.fsms, m.fsms.len() as int)
            + axis_texts(m.axis, m.axis.len() as int) + m.inline
    } else {
        Seq::empty()
    }
}

/// The Verilog text of a module: its header with parameters and ports, its
/// local signals, assignments, `always` blocks and functions, then its state
/// machines, AXI ports and inline text.
pub open spec fn module_text(m: ModuleModel) -> Seq<char> {
    "module "@ + m.name + " "@ + print_param(m.params) + print_port(m.ports) + print_local(m.locals)
        + print_assign(m.assigns) + print_always(m.always) + print_function(m.funcs) + extra_text(m)
        + "\nendmodule\n"@
}

/// A module can be written out: each of its parts can.
pub open spec fn module_printable(m: ModuleModel) -> bool {
    &&& ports_printable(m.ports)
    &&& locals_printable(m.locals)
    &&& assigns_printable(m.assigns)
    &&& always_printable(m.always)
    &&& funcs_printable(m.funcs)
    &&& forall|i: int| 0 <= i < m.fsms.len() ==> fsm_printable(#[trigger] m.fsms[i])
    &&& forall|i: int| 0 <= i < m.axis.len() ==> axi_printable(#[trigger] m.axis[i])
    &&& m.axis.len() <= i32::MAX
}

impl VModule {
    fn fsms_part(&self) -> (r: String)
        requires
            forall|i: int| 0 <= i < self@.fsms.len() ==> fsm_printable(#[trigger] self@.fsms[i]),
        ensures
            r@ == fsms_text(self@.fsms, self@.fsms.len() as int),
    {
        let ghost m = self@;
        let mut part = String::new();
        let mut i: usize = 0;
        while i < self.Fsm.len()
            invariant
                i <= self.Fsm@.len(),
                m == self@,
                forall|j: int| 0 <= j < m.fsms.len() ==> fsm_printable(#[trigger] m.fsms[j]),
                part@ == fsms_text(m.fsms, i as int),
            decreases self.Fsm@.len() - i,
        {
            assert(m.fsms[i as int] == self.Fsm@[i as int]@);
            let t = PrintFsm(&self.Fsm[i]);
            part.append(t.as_str());
            i = i + 1;
        }
        part
    }

    #[verifier::rlimit(50)]
    fn axis_part(&self) -> (r: String)
        requires
            forall|i: int| 0 <= i < self@.axis.len() ==> axi_printable(#[trigger] self@.axis[i]),
            self@.axis.len() <= i32::MAX,
        ensures
            r@ == axis_texts(self@.axis, self@.axis.len() as int),
    {
        let ghost m = self@;
        let mut part = String::new();
        let mut i: usize = 0;
        while i < self.Axi.len()
            invariant
                i <= self.Axi@.len(),
                m == self@,
                m.axis.len() <= i32::MAX,
                forall|j: int| 0 <= j < m.axis.len() ==> axi_printable(#[trigger] m.axis[j]),
                part@ == axis_texts(m.axis, i as int),
            decreases self.Axi@.len() - i,
        {
            assert(m.axis[i as int] == self.Axi@[i as int]@);
            let t = PrintAXI(&self.Axi[i], i as i32);
            part.append(t.as_str());
            i = i + 1;
        }
        part
    }

    fn extra_part(&self) -> (r: String)
        requires
            module_printable(self@),
        ensures
            r@ == extra_text(self@),
    {
        if self.Fsm.len() != 0 || self.Axi.len() != 0 || !self.Inline.as_str().is_empty() {
            let mut extra = String::from_str("\n    // ----Extra Component Set----\n\n");
            let f = self.fsms_part();
            extra.append(f.as_str());
            let a = self.axis_part();
            extra.append(a.as_str());
            extra.append(self.Inline.as_str());
            extra
        } else {
            String::new()
        }
    }

    /// Writes out the Verilog text of the module, keeps it as the module's
    /// code, and returns it.
    pub fn endmodule(&mut self) -> (r: String)
        requires
            module_printable(old(self)@),
        ensures
            r@ == module_text(old(self)@),
            final(self)@ == (ModuleModel { code: r@, ..old(self)@ }),
    {
        let ghost m = self@;
        let mut st = String::from_str("module ");
        let nm = self.getName();
        st.append(nm.as_str());
        st.append(" ");
        let t = PrintParam(&self.IO_Param);
        st.append(t.as_str());
        let t = PrintPort(&self.IO_Port);
        st.append(t.as_str());
        let t = PrintLocal(&self.Local);
        st.append(t.as_str());
        let t = PrintAssign(&self.Assign_AST);
        st.append(t.as_str());
        let t = PrintAlways(&self.Always_AST);
        st.append(t.as_str());
        let t = PrintFunction(&self.Function_AST);
        st.append(t.as_str());
        let extra = self.extra_part();
        st.append(extra.as_str());
        st.append("\nendmodule\n");
        self.code = copy_string(&st);
        st
    }
}

// ---------------------------------------------------------------- state machines

/// The parameters that number the states of a machine, in order: each named
/// after its state and valued by its position.
pub open spec fn state_params_of(states: Seq<StateModel>) -> Seq<VarModel> {
    Seq::new(states.len(), |i: int| param_var(state_name(states[i]), i as i32))
}

/// The next-state register that goes with the state register `p`.
pub open spec fn next_reg(p: VarModel) -> VarModel {
    VarModel { name: p.name + "_Next"@, width: 32, reg: true, ..fresh_var() }
}

/// A state machine can be added to a module: its states can be numbered, and
/// no state machine of the module has a state register of the same name.
pub open spec fn fsm_addable(m: ModuleModel, f: FsmModel) -> bool {
    &&& f.states.len() <= i32::MAX
    &&& forall|i: int| 0 <= i < m.fsms.len() ==> str_out((#[trigger] m.fsms[i]).reg) != str_out(f.reg)
}

/// What adding the state machine `f` makes of the module `m`: the parameters
/// that number its states are added to the local signals; then, where its
/// state register is a signal, that register and its next-state register are
/// added too, and the machine is kept.
pub open spec fn with_fsm(m: ModuleModel, f: FsmModel) -> ModuleModel {
    match f.reg {
        EV::Ldc(p) => ModuleModel {
            locals: m.locals + state_params_of(f.states) + seq![p, next_reg(p)],
            fsms: m.fsms.push(f),
            ..m
        },
        _ => ModuleModel { locals: m.locals + state_params_of(f.states), ..m },
    }
}

/// The signal that adding the state machine `f` returns: its state register,
/// else `Null`.
pub open spec fn fsm_result(f: FsmModel) -> EV {
    match f.reg {
        EV::Ldc(_) => f.reg,
        _ => EV::Null,
    }
}

impl VModule {
    fn add_fsm(&mut self, fsm: FsmModule) -> (r: Box<E>)
        requires
            fsm_addable(old(self)@, fsm@),
        ensures
            final(self)@ == with_fsm(old(self)@, fsm@),
            r@ == fsm_result(fsm@),
    {
        let ghost f = fsm@;
        let params = fsm.state_params();
        let ghost l0 = vars_view(self.Local@);
        let mut i: usize = 0;
        assert(l0 + state_params_of(f.states).subrange(0, 0) =~= l0);
        while i < params.len()
            invariant
                i <= params@.len(),
                params@.len() == f.states.len(),
                forall|j: int| 0 <= j < params@.len() ==> #[trigger] params@[j]@ == param_var(
                    state_name(f.states[j]),
                    j as i32,
                ),
                l0 == vars_view(old(self).Local@),
                vars_view(self.Local@) == l0 + state_params_of(f.states).subrange(0, i as int),
                self.Module_Name == old(self).Module_Name,
                self.IO_Port == old(self).IO_Port,
                self.IO_Param == old(self).IO_Param,
                self.Always_AST == old(self).Always_AST,
                self.Assign_AST == old(self).Assign_AST,
                self.Function_AST == old(self).Function_AST,
                self.Fsm == old(self).Fsm,
                self.Axi == old(self).Axi,
                self.Inline == old(self).Inline,
                self.code == old(self).code,
            decreases params@.len() - i,
        {
            let ghost before = self.Local@;
            self.Local.push(params[i].clone());
            i = i + 1;
            proof {
                assert(vars_view(self.Local@) =~= vars_view(before).push(params@[i - 1]@));
                assert(l0 + state_params_of(f.states).subrange(0, i as int) =~= (l0
                    + state_params_of(f.states).subrange(0, i - 1)).push(params@[i - 1]@));
            }
        }
        assert(state_params_of(f.states).subrange(0, f.states.len() as int) =~= state_params_of(f.states));
        let state = fsm.StateReg();
        match &*state {
            E::Ldc(x) => {
                let p = x.clone();
                let mut nam = p.getName();
                nam.append("_Next");
                let mut np = wrVar::new();
                np.Reg(nam.as_str(), 32);
                let ghost before = self.Local@;
                self.Local.push(p);
                self.Local.push(np);
                proof {
                    assert(vars_view(self.Local@) =~= vars_view(before) + seq![x@, next_reg(x@)]);
                }
                let ghost fs0 = self.Fsm@;
                self.Fsm.push(fsm);
                proof {
                    assert(fsms_view(self.Fsm@) =~= fsms_view(fs0).push(f));
                }
                state
            },
            _ => Box::new(E::Null),
        }
    }
}

/// Adding a state machine.
pub trait FSM_trait<T> {
    /// Whether `fsm` can be added to this module.
    spec fn fsm_ok(&self, fsm: T) -> bool;

    /// Adds the state machine `fsm`; returns its state register.
    fn FSM(&mut self, fsm: T) -> Box<E>
        requires
            old(self).fsm_ok(fsm),
    ;
}

impl FSM_trait<FsmModule> for VModule {
    open spec fn fsm_ok(&self, fsm: FsmModule) -> bool {
        fsm_addable(self@, fsm@)
    }

    fn FSM(&mut self, fsm: FsmModule) -> (r: Box<E>)
        ensures
            final(self)@ == with_fsm(old(self)@, fsm@),
            r@ == fsm_result(fsm@),
    {
        self.add_fsm(fsm)
    }
}

impl<'a> FSM_trait<&'a FsmModule> for VModule {
    open spec fn fsm_ok(&self, fsm: &'a FsmModule) -> bool {
        fsm_addable(self@, fsm@)
    }

    fn FSM(&mut self, fsm: &'a FsmModule) -> (r: Box<E>)
        ensures
            final(self)@ == with_fsm(old(self)@, fsm@),
            r@ == fsm_result(fsm@),
    {
        self.add_fsm(fsm.clone())
    }
}

// ---------------------------------------------------------------- AXI ports

/// An input port named `name`, `width` bits wide.
pub open spec fn in_port(name: Seq<char>, width: i32) -> VarModel {
    sized_var(name, io_p::input_, false, EV::Num(width))
}

/// An output port named `name`, `width` bits wide.
pub open spec fn out_port(name: Seq<char>, width: i32) -> VarModel {
    sized_var(name, io_p::output_, false, EV::Num(width))
}

/// A wire named `name`, `width` bits wide.
pub open spec fn wire_sig(name: Seq<char>, width: i32) -> VarModel {
    sized_var(name, io_p::none, false, EV::Num(width))
}

/// A register named `name`, `width` bits wide.
pub open spec fn reg_sig(name: Seq<char>, width: i32) -> VarModel {
    sized_var(name, io_p::none, true, EV::Num(width))
}

/// The assignment `x = y` of two signals.
pub open spec fn wire_to(x: VarModel, y: VarModel) -> AssignModel {
    AssignModel { lhs: EV::Ldc(x), rhs: EV::Ldc(y) }
}

/// The assignment `x = 0`.
pub open spec fn zero_to(x: VarModel) -> AssignModel {
    AssignModel { lhs: EV::Ldc(x), rhs: EV::Num(0) }
}

/// The ports of AXI4-Lite slave port number `l` (as text), its addresses
/// `w` bits wide.
pub open spec fn lite_ports(l: Seq<char>, w: i32) -> Seq<VarModel> {
    seq![
        out_port("o_s_arready"@ + l, 0),
        in_port("i_s_arvalid"@ + l, 0),
        in_port("i_s_araddr"@ + l, w),
        in_port("i_s_arprot"@ + l, 3),
        out_port("o_s_rdata"@ + l, 32),
        out_port("o_s_rresp"@ + l, 2),
        out_port("o_s_rvalid"@ + l, 0),
        in_port("i_s_rready"@ + l, 0),
        out_port("o_s_awready"@ + l, 0),
        in_port("i_s_awvalid"@ + l, 0),
        in_port("i_s_awaddr"@ + l, w),
        in_port("i_s_awprot"@ + l, 3),
        in_port("i_s_wdata"@ + l, 32),
        in_port("i_s_wstrb"@ + l, 4),
        in_port("i_s_wvalid"@ + l, 0),
        out_port("o_s_wready"@ + l, 0),
        out_port("o_s_bresp"@ + l, 2),
        out_port("o_s_bvalid"@ + l, 0),
        in_port("i_s_bready"@ + l, 0),
    ]
}

/// The wires and registers of AXI4-Lite slave port number `l` (as text), its
/// addresses `w` bits wide.
pub open spec fn lite_locals(l: Seq<char>, w: i32) -> Seq<VarModel> {
    seq![
        reg_sig("r_arready"@ + l, 0),
        wire_sig("w_arvalid"@ + l, 0),
        reg_sig("r_araddr"@ + l, w),
        reg_sig("r_rdata"@ + l, 32),
        reg_sig("r_rvalid"@ + l, 0),
        wire_sig("w_rready"@ + l, 0),
        reg_sig("r_awready"@ + l, 0),
        wire_sig("w_awvalid"@ + l, 0),
        reg_sig("r_awaddr"@ + l, w),
        wire_sig("w_wdata"@ + l, 32),
        wire_sig("r_wstrb"@ + l, 4),
        wire_sig("w_wvalid"@ + l, 0),
        reg_sig("r_wready"@ + l, 0),
        reg_sig("r_bvalid"@ + l, 0),
        wire_sig("w_bready"@ + l, 0),
    ]
}

/// The assignments that connect AXI4-Lite slave port number `l` (as text) to
/// its wires and registers.
pub open spec fn lite_assigns(l: Seq<char>) -> Seq<AssignModel> {
    seq![
        wire_to(out_port("o_s_arready"@ + l, 0), reg_sig("r_arready"@ + l, 0)),
        wire_to(wire_sig("w_arvalid"@ + l, 0), in_port("i_s_arvalid"@ + l, 0)),
        wire_to(out_port("o_s_rdata"@ + l, 32), reg_sig("r_rdata"@ + l, 32)),
        zero_to(out_port("o_s_rresp"@ + l, 2)),
        wire_to(out_port("o_s_rvalid"@ + l, 0), reg_sig("r_rvalid"@ + l, 0)),
        wire_to(wire_sig("w_rready"@ + l, 0), in_port("i_s_rready"@ + l, 0)),
        wire_to(out_port("o_s_awready"@ + l, 0), reg_sig("r_awready"@ + l, 0)),
        wire_to(wire_sig("w_awvalid"@ + l, 0), in_port("i_s_awvalid"@ + l, 0)),
        wire_to(wire_sig("w_wdata"@ + l, 32), in_port("i_s_wdata"@ + l, 32)),
        wire_to(wire_sig("r_wstrb"@ + l, 4), in_port("i_s_wstrb"@ + l, 4)),
        wire_to(wire_sig("w_wvalid"@ + l, 0), in_port("i_s_wvalid"@ + l, 0)),
        wire_to(out_port("o_s_wready"@ + l, 0), reg_sig("r_wready"@ + l, 0)),
        zero_to(out_port("o_s_bresp"@ + l, 2)),
        wire_to(out_port("o_s_bvalid"@ + l, 0), reg_sig("r_bvalid"@ + l, 0)),
        wire_to(wire_sig("w_bready"@ + l, 0), in_port("i_s_bready"@ + l, 0)),
    ]
}

/// The registers of an AXI4-Lite slave port, declared in the module (those
/// that are signals).
pub open spec fn reg_locals(regs: Seq<EV>) -> Seq<VarModel>
    decreases regs.len(),
{
    if regs.len() == 0 {
        Seq::empty()
    } else {
        let rest = reg_locals(regs.drop_last());
        match regs.last() {
            EV::Ldc(v) => rest.push(reg_sig(v.name, v.width)),
            _ => rest,
        }
    }
}

/// What adding an AXI4-Lite slave port makes of the module `m`: the port,
/// numbered by how many AXI ports the module has, with addresses wide enough
/// for its registers; its wires and registers; the assignments between them;
/// and the port itself.
pub open spec fn with_lite(m: ModuleModel, a: crate::axi::LiteModel) -> ModuleModel {
    let l = spec_dec(m.axis.len() as int);
    let w = addr_bits(a.regs.len() * 4 - 1) as i32;
    ModuleModel {
        ports: m.ports + lite_ports(l, w),
        locals: m.locals + lite_locals(l, w) + reg_locals(a.regs),
        assigns: m.assigns + lite_assigns(l),
        axis: m.axis.push(AxiModel::Lite(a)),
        ..m
    }
}

/// The ports of an AXI4 slave port whose addresses are `w` bits wide.
pub open spec fn axis_ports(w: i32) -> Seq<VarModel> {
    seq![
        in_port("i_saxi_arid"@, 0),
        out_port("o_saxi_arready"@, 0),
        in_port("i_saxi_arvalid"@, 0),
        in_port("i_saxi_araddr"@, w),
        in_port("i_saxi_arlen"@, 8),
        in_port("i_saxi_arburst"@, 2),
        out_port("o_saxi_rid"@, 0),
        out_port("o_saxi_rdata"@, 32),
        out_port("o_saxi_rresp"@, 2),
        out_port("o_saxi_rvalid"@, 0),
        in_port("i_saxi_rready"@, 0),
        out_port("o_saxi_rlast"@, 0),
        in_port("i_saxi_awid"@, 0),
        out_port("o_saxi_awready"@, 0),
        in_port("i_saxi_awvalid"@, 0),
        in_port("i_saxi_awaddr"@, w),
        in_port("i_saxi_awlen"@, 8),
        in_port("i_saxi_awburst"@, 2),
        in_port("i_saxi_wdata"@, 32),
        in_port("i_saxi_wstrb"@, 4),
        in_port("i_saxi_wlast"@, 0),
        in_port("i_saxi_wvalid"@, 0),
        out_port("o_saxi_wready"@, 0),
        out_port("o_saxi_bid"@, 0),
        out_port("o_saxi_bresp"@, 2),
        out_port("o_saxi_bvalid"@, 0),
        in_port("i_saxi_bready"@, 0),
    ]
}

/// The wires and registers of an AXI4 slave port whose write addresses are
/// `w` bits wide.
pub open spec fn axis_locals(w: i32) -> Seq<VarModel> {
    seq![
        reg_sig("r_axi_awready"@, 0),
        wire_sig("w_axi_awvalid"@, 0),
        reg_sig("r_axi_awaddr"@, w),
        reg_sig("r_axi_awlen"@, 8),
        wire_sig("w_axi_wdata"@, 32),
        wire_sig("w_axi_wlast"@, 0),
        wire_sig("w_axi_wvalid"@, 0),
        reg_sig("r_axi_wready"@, 0),
        reg_sig("r_axi_bvalid"@, 0),
        wire_sig("w_axi_bready"@, 0),
        reg_sig("r_axi_arready"@, 0),
        wire_sig("w_axi_arvalid"@, 0),
        reg_sig("r_axi_araddr"@, 32),
        reg_sig("r_axi_arlen"@, 8),
        reg_sig("r_axi_rdata"@, 32),
        reg_sig("r_axi_rvalid"@, 0),
        wire_sig("w_axi_rready"@, 0),
        reg_sig("r_axi_rlast"@, 0),
    ]
}

/// The wires of the local side of an AXI4 slave port: with a memory, its
/// read data are a register; without, a wire, unless they come from a
/// signal of their own.
pub open spec fn axis_local_side(a: AxisModel) -> Seq<VarModel> {
    if a.mem {
        seq![
            wire_sig("axis_write"@, 32),
            reg_sig("axis_read"@, 32),
            wire_sig("axis_addr"@, 32),
            wire_sig("axis_wen"@, 0),
        ]
    } else if a.rdata is Null {
        seq![
            wire_sig("axis_read"@, 32),
            wire_sig("axis_write"@, 32),
            wire_sig("axis_addr"@, 32),
            wire_sig("axis_wen"@, 0),
        ]
    } else {
        seq![wire_sig("axis_write"@, 32), wire_sig("axis_addr"@, 32), wire_sig("axis_wen"@, 0)]
    }
}

/// The assignments that connect an AXI4 slave port to its wires and
/// registers.
pub open spec fn axis_assigns() -> Seq<AssignModel> {
    seq![
        wire_to(out_port("o_saxi_rid"@, 0), in_port("i_saxi_arid"@, 0)),
        zero_to(out_port("o_saxi_rresp"@, 2)),
        wire_to(out_port("o_saxi_rdata"@, 32), reg_sig("r_axi_rdata"@, 32)),
        wire_to(out_port("o_saxi_rvalid"@, 0), reg_sig("r_axi_rvalid"@, 0)),
        wire_to(wire_sig("w_axi_rready"@, 0), in_port("i_saxi_rready"@, 0)),
        wire_to(out_port("o_saxi_rlast"@, 0), reg_sig("r_axi_rlast"@, 0)),
        wire_to(out_port("o_saxi_arready"@, 0), reg_sig("r_axi_arready"@, 0)),
        wire_to(wire_sig("w_axi_arvalid"@, 0), in_port("i_saxi_arvalid"@, 0)),
        wire_to(wire_sig("w_axi_wlast"@, 0), in_port("i_saxi_wlast"@, 0)),
        wire_to(wire_sig("w_axi_wvalid"@, 0), in_port("i_saxi_wvalid"@, 0)),
        wire_to(out_port("o_saxi_wready"@, 0), reg_sig("r_axi_wready"@, 0)),
        wire_to(out_port("o_saxi_awready"@, 0), reg_sig("r_axi_awready"@, 0)),
        wire_to(wire_sig("w_axi_awvalid"@, 0), in_port("i_saxi_awvalid"@, 0)),
        wire_to(out_port("o_saxi_bvalid"@, 0), reg_sig("r_axi_bvalid"@, 0)),
        wire_to(wire_sig("w_axi_bready"@, 0), in_port("i_saxi_bready"@, 0)),
        wire_to(out_port("o_saxi_bid"@, 0), in_port("i_saxi_awid"@, 0)),
        zero_to(out_port("o_saxi_bresp"@, 2)),
    ]
}

/// What adding an AXI4 slave port makes of the module `m`: its ports, with
/// addresses wide enough for four times its words; its wires and registers;
/// the assignments between them; and the port itself.
pub open spec fn with_axis(m: ModuleModel, a: AxisModel) -> ModuleModel {
    let w = addr_bits(a.length * 4 - 1) as i32;
    ModuleModel {
        ports: m.ports + axis_ports(w),
        locals: m.locals + axis_locals(w) + axis_local_side(a),
        assigns: m.assigns + axis_assigns(),
        axis: m.axis.push(AxiModel::Slave(a)),
        ..m
    }
}

fn suffixed(base: &str, n: i32) -> (r: String)
    ensures
        r@ == base@ + spec_dec(n as int),
{
    let mut r = String::from_str(base);
    push_dec(&mut r, n as i64);
    r
}

/// Adding an AXI port.
pub trait AXI_trait<T> {
    /// Whether the port can be added to this module.
    spec fn axi_ok(&self, setAXI: T) -> bool;

    /// Adds the AXI port `setAXI`, with its ports, wires and registers.
    fn AXI(&mut self, setAXI: T)
        requires
            old(self).axi_ok(setAXI),
    ;
}

impl AXI_trait<AXISLite> for VModule {
    /// The port can be numbered, and its address width fits.
    open spec fn axi_ok(&self, setAXI: AXISLite) -> bool {
        &&& self@.axis.len() < i32::MAX
        &&& setAXI@.regs.len() <= 0x1000_0000
    }

    fn AXI(&mut self, setAXI: AXISLite)
        ensures
            final(self)@ == with_lite(old(self)@, setAXI@),
    {
        let length = self.Axi.len() as i32;
        let regs = setAXI.reg_list();
        proof {
            lemma_views_of(regs@);
        }
        let reg_length = regs.len() as i32;
        let reg_addr_width = addr_width(reg_length * 4 - 1);
        let ghost l = spec_dec(length as int);
        let ghost m0 = self@;

        // read address channel
        let o_arr = self.Output(suffixed("o_s_arready", length).as_str(), 0);
        let i_arv = self.Input(suffixed("i_s_arvalid", length).as_str(), 0);
        self.Input(suffixed("i_s_araddr", length).as_str(), reg_addr_width);
        self.Input(suffixed("i_s_arprot", length).as_str(), 3);

        // read data channel
        let o_rda = self.Output(suffixed("o_s_rdata", length).as_str(), 32);
        let o_rsp = self.Output(suffixed("o_s_rresp", length).as_str(), 2);
        let o_rva = self.Output(suffixed("o_s_rvalid", length).as_str(), 0);
        let i_rre = self.Input(suffixed("i_s_rready", length).as_str(), 0);

        // write address channel
        let o_awr = self.Output(suffixed("o_s_awready", length).as_str(), 0);
        let i_awv = self.Input(suffixed("i_s_awvalid", length).as_str(), 0);
        self.Input(suffixed("i_s_awaddr", length).as_str(), reg_addr_width);
        self.Input(suffixed("i_s_awprot", length).as_str(), 3);

        // write data channel
        let i_wda = self.Input(suffixed("i_s_wdata", length).as_str(), 32);
        let i_wst = self.Input(suffixed("i_s_wstrb", length).as_str(), 4);
        let i_wva = self.Input(suffixed("i_s_wvalid", length).as_str(), 0);
        let o_wre = self.Output(suffixed("o_s_wready", length).as_str(), 0);

        // write response channel
        let o_bre = self.Output(suffixed("o_s_bresp", length).as_str(), 2);
        let o_bva = self.Output(suffixed("o_s_bvalid", length).as_str(), 0);
        let i_bre = self.Input(suffixed("i_s_bready", length).as_str(), 0);
        assert(self@.ports =~= m0.ports + lite_ports(l, reg_addr_width));

        // inner wires and registers
        let r_arr = self.Reg(suffixed("r_arready", length).as_str(), 0);
        let w_arv = self.Wire(suffixed("w_arvalid", length).as_str(), 0);
        self.Reg(suffixed("r_araddr", length).as_str(), reg_addr_width);

        let r_rda = self.Reg(suffixed("r_rdata", length).as_str(), 32);
        let r_rva = self.Reg(suffixed("r_rvalid", length).as_str(), 0);
        let w_rre = self.Wire(suffixed("w_rready", length).as_str(), 0);

        let r_awr = self.Reg(suffixed("r_awready", length).as_str(), 0);
        let w_awv = self.Wire(suffixed("w_awvalid", length).as_str(), 0);
        self.Reg(suffixed("r_awaddr", length).as_str(), reg_addr_width);

        let w_wda = self.Wire(suffixed("w_wdata", length).as_str(), 32);
        let w_wst = self.Wire(suffixed("r_wstrb", length).as_str(), 4);
        let w_wva = self.Wire(suffixed("w_wvalid", length).as_str(), 0);
        let r_wre = self.Reg(suffixed("r_wready", length).as_str(), 0);

        let r_bva = self.Reg(suffixed("r_bvalid", length).as_str(), 0);
        let w_bre = self.Wire(suffixed("w_bready", length).as_str(), 0);
        assert(self@.locals =~= m0.locals + lite_locals(l, reg_addr_width));

        // connections
        self.Assign(o_arr._e(r_arr));
        self.Assign(w_arv._e(i_arv));

        self.Assign(o_rda._e(r_rda));
        self.Assign(o_rsp._e(0));
        self.Assign(o_rva._e(r_rva));
        self.Assign(w_rre._e(i_rre));

        self.Assign(o_awr._e(r_awr));
        self.Assign(w_awv._e(i_awv));

        self.Assign(w_wda._e(i_wda));
        self.Assign(w_wst._e(i_wst));
        self.Assign(w_wva._e(i_wva));
        self.Assign(o_wre._e(r_wre));

        self.Assign(o_bre._e(0));
        self.Assign(o_bva._e(r_bva));
        self.Assign(w_bre._e(i_bre));
        assert(self@.assigns =~= m0.assigns + lite_assigns(l));

        self.add_reg_locals(setAXI.reg_list());
        let ghost ax0 = self.Axi@;
        let ghost a = setAXI@;
        self.Axi.push(AXI::from_lite(setAXI));
        proof {
            assert(axis_view(self.Axi@) =~= axis_view(ax0).push(AxiModel::Lite(a)));
        }
    }
}

impl VModule {
    fn add_reg_locals(&mut self, regs: &Vec<Box<E>>)
        ensures
            final(self)@ == (ModuleModel {
                locals: old(self)@.locals + reg_locals(views_of(regs@)),
                ..old(self)@
            }),
    {
        let ghost s = views_of(regs@);
        proof {
            lemma_views_of(regs@);
        }
        let ghost l0 = self@.locals;
        let mut i: usize = 0;
        assert(s.subrange(0, 0) =~= Seq::<EV>::empty());
        assert(l0 + reg_locals(Seq::<EV>::empty()) =~= l0);
        while i < regs.len()
            invariant
                i <= regs@.len(),
                s == views_of(regs@),
                s.len() == regs@.len(),
                forall|j: int| 0 <= j < s.len() ==> #[trigger] s[j] == crate::stmt::e_view_box(regs@[j]),
                l0 == old(self)@.locals,
                self@ == (ModuleModel { locals: l0 + reg_locals(s.subrange(0, i as int)), ..old(self)@ }),
            decreases regs@.len() - i,
        {
            let ghost sub = s.subrange(0, i + 1);
            assert(sub.drop_last() =~= s.subrange(0, i as int));
            assert(sub.last() == s[i as int]);
            match &*regs[i] {
                E::Ldc(wr) => {
                    let nm = wr.getName();
                    self.Reg(nm.as_str(), wr.getWidth());
                    assert(l0 + reg_locals(sub) =~= (l0 + reg_locals(s.subrange(0, i as int))).push(
                        reg_sig(wr@.name, wr@.width),
                    ));
                },
                _ => {},
            }
            i = i + 1;
        }
        assert(s.subrange(0, s.len() as int) =~= s);
    }
}

impl AXI_trait<AXIS> for VModule {
    /// The address width of four times the words fits.
    open spec fn axi_ok(&self, setAXI: AXIS) -> bool {
        -0x1fff_ffff <= setAXI@.length <= 0x1000_0000
    }

    #[verifier::rlimit(80)]
    fn AXI(&mut self, setAXI: AXIS)
        ensures
            final(self)@ == with_axis(old(self)@, setAXI@),
    {
        let length = setAXI.word_count();
        let addr_width = addr_width(length * 4 - 1);
        let ghost m0 = self@;

        // read address channel
        let i_rid = self.Input("i_saxi_arid", 0);
        let o_arr = self.Output("o_saxi_arready", 0);
        let i_arv = self.Input("i_saxi_arvalid", 0);
        self.Input("i_saxi_araddr", addr_width);
        self.Input("i_saxi_arlen", 8);
        self.Input("i_saxi_arburst", 2);

        // read data channel
        let o_rid = self.Output("o_saxi_rid", 0);
        let o_rda = self.Output("o_saxi_rdata", 32);
        let o_rsp = self.Output("o_saxi_rresp", 2);
        let o_rva = self.Output("o_saxi_rvalid", 0);
        let i_rre = self.Input("i_saxi_rready", 0);
        let o_rls = self.Output("o_saxi_rlast", 0);

        // write address channel
        let i_wid = self.Input("i_saxi_awid", 0);
        let o_awr = self.Output("o_saxi_awready", 0);
        let i_awv = self.Input("i_saxi_awvalid", 0);
        self.Input("i_saxi_awaddr", addr_width);
        self.Input("i_saxi_awlen", 8);
        self.Input("i_saxi_awburst", 2);

        // write data channel
        self.Input("i_saxi_wdata", 32);
        self.Input("i_saxi_wstrb", 4);
        let i_wls = self.Input("i_saxi_wlast", 0);
        let i_wva = self.Input("i_saxi_wvalid", 0);
        let o_wre = self.Output("o_saxi_wready", 0);

        // write response channel
        let o_bid = self.Output("o_saxi_bid", 0);
        let o_bre = self.Output("o_saxi_bresp", 2);
        let o_bva = self.Output("o_saxi_bvalid", 0);
        let i_bre = self.Input("i_saxi_bready", 0);
        assert(self@.ports =~= m0.ports + axis_ports(addr_width));

        // inner wires and registers
        let r_awr = self.Reg("r_axi_awready", 0);
        let w_awv = self.Wire("w_axi_awvalid", 0);
        self.Reg("r_axi_awaddr", addr_width);
        self.Reg("r_axi_awlen", 8);

        self.Wire("w_axi_wdata", 32);
        let w_wls = self.Wire("w_axi_wlast", 0);
        let w_wva = self.Wire("w_axi_wvalid", 0);
        let r_wre = self.Reg("r_axi_wready", 0);

        let r_bva = self.Reg("r_axi_bvalid", 0);
        let w_bre = self.Wire("w_axi_bready", 0);

        let r_arr = self.Reg("r_axi_arready", 0);
        let w_arv = self.Wire("w_axi_arvalid", 0);
        self.Reg("r_axi_araddr", 32);
        self.Reg("r_axi_arlen", 8);

        let r_rda = self.Reg("r_axi_rdata", 32);
        let r_rva = self.Reg("r_axi_rvalid", 0);
        let w_rre = self.Wire("w_axi_rready", 0);
        let r_rls = self.Reg("r_axi_rlast", 0);
        let ghost l1 = self@.locals;
        assert(l1 =~= m0.locals + axis_locals(addr_width));
        if setAXI.has_mem() {
            self.Wire("axis_write", 32);
            self.Reg("axis_read", 32);
            self.Wire("axis_addr", 32);
            self.Wire("axis_wen", 0);
        } else {
            if setAXI.reads_local() {
                self.Wire("axis_read", 32);
            }
            self.Wire("axis_write", 32);
            self.Wire("axis_addr", 32);
            self.Wire("axis_wen", 0);
        }
        assert(self@.locals =~= l1 + axis_local_side(setAXI@));

        self.Assign(o_rid._e(i_rid));
        self.Assign(o_rsp._e(0));
        self.Assign(o_rda._e(r_rda));
        self.Assign(o_rva._e(r_rva));
        self.Assign(w_rre._e(i_rre));
        self.Assign(o_rls._e(r_rls));

        self.Assign(o_arr._e(r_arr));
        self.Assign(w_arv._e(i_arv));

        self.Assign(w_wls._e(i_wls));
        self.Assign(w_wva._e(i_wva));
        self.Assign(o_wre._e(r_wre));

        self.Assign(o_awr._e(r_awr));
        self.Assign(w_awv._e(i_awv));

        self.Assign(o_bva._e(r_bva));
        self.Assign(w_bre._e(i_bre));
        self.Assign(o_bid._e(i_wid));
        self.Assign(o_bre._e(0));
        assert(self@.assigns =~= m0.assigns + axis_assigns());

        let ghost ax0 = self.Axi@;
        let ghost a = setAXI@;
        self.Axi.push(AXI::from_slave(setAXI));
        proof {
            assert(axis_view(self.Axi@) =~= axis_view(ax0).push(AxiModel::Slave(a)));
        }
    }
}

} // verus!
