//! Properties of the library as a whole: what taking an expression apart
//! gives back, how registers and states are found again by their names, what
//! the operations on a port keep, and what the text of a module is made of.

use vstd::prelude::*;
use crate::ast::{EV, VarModel};
use crate::expr::{bin, decomp_part, str_out};
use crate::axi::{two_pow, bits_from, addr_bits, reg32, numbered_regs, no_writes, find_reg, LiteModel};
use crate::fsm::{StateModel, find_state, param_var, state_name};
use crate::module::{
    ModuleModel, module_text, module_printable, print_port, port_stop, port_lines, print_param,
    print_local, extra_text, local_stop, is_port_io, is_local_io, sized_var, mem_var, with_fsm,
    with_lite, with_axis, lite_ports, lite_locals, axis_ports, axis_locals, axis_local_side,
    reg_locals, state_params_of, next_reg,
};
use crate::ast::io_p;
use crate::axi::AxisModel;
use crate::fsm::{FsmModel, state_reg, add_to_named};
use crate::ast::IfModel;
use crate::stmt::{print_assign, print_always, print_function};
use crate::text::spec_dec;

verus! {

/// Taking apart a binary operation built from `l` and `r` gives back `l` as
/// its left part and `r` as its right part, and its operator as its text.
pub proof fn law_decomp_bin(op: Seq<char>, l: EV, r: EV)
    ensures
        decomp_part(bin(op, l, r), "L"@) == l,
        decomp_part(bin(op, l, r), "R"@) == r,
        str_out(bin(op, l, r)) == op,
{
    reveal_strlit("L");
    reveal_strlit("R");
    assert("L"@ != "R"@) by {
        assert("L"@[0] != "R"@[0]);
    }
}

/// Taking apart an assignment gives back its target ("L") and its value ("R").
pub proof fn law_decomp_assign(l: EV, r: EV)
    ensures
        decomp_part(EV::SB(Box::new(l), Box::new(r)), "L"@) == l,
        decomp_part(EV::SB(Box::new(l), Box::new(r)), "R"@) == r,
{
    reveal_strlit("L");
    reveal_strlit("R");
    assert("L"@ != "R"@) by {
        assert("L"@[0] != "R"@[0]);
    }
}

/// Taking apart a conditional gives back its condition ("D"), its value when
/// true ("T") and its value when false ("F").
pub proof fn law_decomp_branch(d: EV, t: EV, f: EV)
    ensures
        decomp_part(EV::PL(Box::new(d), Box::new(t), Box::new(f)), "D"@) == d,
        decomp_part(EV::PL(Box::new(d), Box::new(t), Box::new(f)), "T"@) == t,
        decomp_part(EV::PL(Box::new(d), Box::new(t), Box::new(f)), "F"@) == f,
{
    reveal_strlit("D");
    reveal_strlit("T");
    reveal_strlit("F");
    assert("D"@ != "T"@ && "D"@ != "F"@ && "T"@ != "F"@) by {
        assert("D"@[0] != "T"@[0]);
        assert("D"@[0] != "F"@[0]);
        assert("T"@[0] != "F"@[0]);
    }
}

proof fn lemma_bits_from(w: int, n: int)
    requires
        1 <= w <= 30,
        n <= 0x4000_0000,
        two_pow(30) == 0x4000_0000,
        forall|v: int| 1 <= v < w ==> #[trigger] two_pow(v as nat) < n,
    ensures
        w <= bits_from(w, n) <= 30,
        n <= two_pow(bits_from(w, n) as nat),
        forall|v: int| 1 <= v < bits_from(w, n) ==> #[trigger] two_pow(v as nat) < n,
    decreases 31 - w,
{
    if n > two_pow(w as nat) {
        assert(w < 30);
        assert forall|v: int| 1 <= v < w + 1 implies #[trigger] two_pow(v as nat) < n by {
            if v == w {
            }
        }
        lemma_bits_from(w + 1, n);
    }
}

/// The address width of a port is the least width `w >= 1` whose power of
/// two `2^w` reaches the count `n` (for counts up to `2^30`).
pub proof fn law_addr_bits_least(n: int)
    requires
        n <= 0x4000_0000,
    ensures
        1 <= addr_bits(n) <= 30,
        n <= two_pow(addr_bits(n) as nat),
        forall|v: int| 1 <= v < addr_bits(n) ==> #[trigger] two_pow(v as nat) < n,
{
    assert(two_pow(30) == 0x4000_0000) by {
        reveal_with_fuel(two_pow, 31);
    }
    lemma_bits_from(1, n);
}

/// A register set up by its name is found again by that name, unless an
/// earlier register has the name: then that one is found, as before.
pub proof fn law_named_reg_found(regs: Seq<EV>, name: Seq<char>)
    ensures
        find_reg(regs.push(reg32(name)), name) == (if find_reg(regs, name) is Null {
            reg32(name)
        } else {
            find_reg(regs, name)
        }),
    decreases regs.len(),
{
    let s = regs.push(reg32(name));
    if regs.len() == 0 {
        assert(s[0] == reg32(name));
    } else {
        assert(s[0] == regs[0]);
        assert(s.drop_first() =~= regs.drop_first().push(reg32(name)));
        law_named_reg_found(regs.drop_first(), name);
    }
}

/// Setting up `num` registers by their number appends the registers
/// "slv_reg0" .. "slv_reg{num-1}", in order, after those already there.
pub proof fn law_order_regs_numbered(regs: Seq<EV>, num: int, k: int)
    requires
        0 <= k < num,
    ensures
        (regs + numbered_regs(num)).len() == regs.len() + num,
        (regs + numbered_regs(num))[regs.len() + k] == reg32("slv_reg"@ + spec_dec(k)),
{
}

/// Every operation on an AXI4-Lite slave port keeps one local write per
/// register: setting up registers by number or by name, and setting a local
/// write.
pub proof fn law_lite_shape_kept(m: LiteModel, num: i32, name: Seq<char>, en: EV, data: EV)
    requires
        m.writes.len() == m.regs.len(),
    ensures
        (m.regs + numbered_regs(num as int)).len() == (m.writes + no_writes(num as int)).len(),
        m.regs.push(reg32(name)).len() == m.writes.push((EV::Null, EV::Null)).len(),
        0 <= m.current < m.writes.len() ==> m.writes.update(m.current as int, (en, data)).len()
            == m.regs.len(),
{
}

/// The text of a module does not depend on the text generated for it
/// before: writing it out again gives the same text, and is possible again.
pub proof fn law_endmodule_repeatable(m: ModuleModel, code: Seq<char>)
    ensures
        module_text(ModuleModel { code: code, ..m }) == module_text(m),
        module_printable(ModuleModel { code: code, ..m }) == module_printable(m),
{
    let m2 = ModuleModel { code: code, ..m };
    assert(m2.fsms == m.fsms);
    assert(m2.axis == m.axis);
    assert(m2.ports == m.ports);
    assert(m2.locals == m.locals);
    assert(m2.assigns == m.assigns);
    assert(m2.always == m.always);
    assert(m2.funcs == m.funcs);
}

/// A module with nothing in it is written out as its header, an empty port
/// list, and its end.
pub proof fn law_empty_module_text(name: Seq<char>, code: Seq<char>)
    ensures
        module_text(
            ModuleModel {
                name: name,
                ports: Seq::empty(),
                params: Seq::empty(),
                locals: Seq::empty(),
                always: Seq::empty(),
                assigns: Seq::empty(),
                funcs: Seq::empty(),
                fsms: Seq::empty(),
                axis: Seq::empty(),
                inline: Seq::empty(),
                code: code,
            },
        ) == "module "@ + name + " "@ + "(\n"@ + ");\n"@ + "\nendmodule\n"@,
{
    let m = ModuleModel {
        name: name,
        ports: Seq::empty(),
        params: Seq::empty(),
        locals: Seq::empty(),
        always: Seq::empty(),
        assigns: Seq::empty(),
        funcs: Seq::empty(),
        fsms: Seq::empty(),
        axis: Seq::empty(),
        inline: Seq::empty(),
        code: code,
    };
    let e = Seq::<char>::empty();
    assert(port_stop(m.ports, 0) == 0);
    assert(port_lines(m.ports, 0) == e);
    assert(print_port(m.ports) =~= "(\n"@ + ");\n"@);
    assert(print_param(m.params) == e);
    assert(print_local(m.locals) == e);
    assert(print_assign(m.assigns) == e);
    assert(print_always(m.always) == e);
    assert(print_function(m.funcs) == e);
    assert(extra_text(m) == e);
    assert(module_text(m) =~= "module "@ + name + " "@ + "(\n"@ + ");\n"@ + "\nendmodule\n"@);
}

/// A state added by a name that no state has yet is found again by that name.
pub proof fn law_added_state_found(states: Seq<StateModel>, name: Seq<char>, k: i32)
    requires
        forall|i: int| 0 <= i < states.len() ==> state_name(#[trigger] states[i]) != name,
    ensures
        find_state(
            states.push(StateModel { state: EV::Ldc(param_var(name, k)), branch: Seq::empty() }),
            name,
        ) == EV::Ldc(param_var(name, k)),
    decreases states.len(),
{
    let x = StateModel { state: EV::Ldc(param_var(name, k)), branch: Seq::empty() };
    let s = states.push(x);
    assert(state_name(x) == name);
    if states.len() == 0 {
        assert(s[0] == x);
    } else {
        assert(s[0] == states[0]);
        assert(state_name(states[0]) != name);
        assert(s.subrange(1, s.len() as int) =~= states.subrange(1, states.len() as int).push(x));
        let rest = states.subrange(1, states.len() as int);
        assert forall|i: int| 0 <= i < rest.len() implies state_name(#[trigger] rest[i]) != name by {
            assert(rest[i] == states[i + 1]);
        }
        law_added_state_found(states.subrange(1, states.len() as int), name, k);
    }
}

/// A port when `port`, else a local signal.
pub open spec fn of_kind(v: VarModel, port: bool) -> bool {
    if port {
        is_port_io(v.io)
    } else {
        is_local_io(v.io)
    }
}

/// Every port of the module is an input, output or inout, and every local
/// signal is a local parameter, a wire or a register.
pub open spec fn kinds_kept(m: ModuleModel) -> bool {
    &&& forall|i: int| 0 <= i < m.ports.len() ==> of_kind(#[trigger] m.ports[i], true)
    &&& forall|i: int| 0 <= i < m.locals.len() ==> of_kind(#[trigger] m.locals[i], false)
}

proof fn lemma_port_stop_end(s: Seq<VarModel>, i: int)
    requires
        0 <= i <= s.len(),
        forall|j: int| 0 <= j < s.len() ==> of_kind(#[trigger] s[j], true),
    ensures
        port_stop(s, i) == s.len(),
    decreases s.len() - i,
{
    if i < s.len() {
        assert(of_kind(s[i], true));
        lemma_port_stop_end(s, i + 1);
    }
}

proof fn lemma_local_stop_end(s: Seq<VarModel>, i: int)
    requires
        0 <= i <= s.len(),
        forall|j: int| 0 <= j < s.len() ==> of_kind(#[trigger] s[j], false),
    ensures
        local_stop(s, i) == s.len(),
    decreases s.len() - i,
{
    if i < s.len() {
        assert(of_kind(s[i], false));
        lemma_local_stop_end(s, i + 1);
    }
}

/// In a module whose signals are of the right kinds, the port list is
/// written out whole and closed, and every local signal is written out.
pub proof fn law_port_list_closed(m: ModuleModel)
    requires
        kinds_kept(m),
    ensures
        port_stop(m.ports, 0) == m.ports.len(),
        local_stop(m.locals, 0) == m.locals.len(),
        print_port(m.ports) == "(\n"@ + port_lines(m.ports, m.ports.len() as int) + ");\n"@,
{
    lemma_port_stop_end(m.ports, 0);
    lemma_local_stop_end(m.locals, 0);
}

proof fn lemma_append_kinds(a: Seq<VarModel>, b: Seq<VarModel>, port: bool)
    requires
        forall|i: int| 0 <= i < a.len() ==> of_kind(#[trigger] a[i], port),
        forall|i: int| 0 <= i < b.len() ==> of_kind(#[trigger] b[i], port),
    ensures
        forall|i: int| 0 <= i < (a + b).len() ==> of_kind(#[trigger] (a + b)[i], port),
{
    assert forall|i: int| 0 <= i < (a + b).len() implies of_kind(#[trigger] (a + b)[i], port) by {
        if i < a.len() {
            assert((a + b)[i] == a[i]);
        } else {
            assert((a + b)[i] == b[i - a.len()]);
        }
    }
}

proof fn lemma_push_kind(a: Seq<VarModel>, v: VarModel, port: bool)
    requires
        forall|i: int| 0 <= i < a.len() ==> of_kind(#[trigger] a[i], port),
        of_kind(v, port),
    ensures
        forall|i: int| 0 <= i < a.push(v).len() ==> of_kind(#[trigger] a.push(v)[i], port),
{
    assert forall|i: int| 0 <= i < a.push(v).len() implies of_kind(#[trigger] a.push(v)[i], port) by {
        if i < a.len() {
            assert(a.push(v)[i] == a[i]);
        }
    }
}

/// A module starts with no signals, and adding a parameter, a port, a wire,
/// a register or a memory keeps every signal of the right kind.
pub proof fn law_kinds_kept_by_signals(m: ModuleModel, name: Seq<char>, value: i32, w: EV, l: EV)
    requires
        kinds_kept(m),
    ensures
        kinds_kept(ModuleModel { ports: Seq::empty(), locals: Seq::empty(), ..m }),
        kinds_kept(ModuleModel { params: m.params.push(param_var(name, value)), ..m }),
        kinds_kept(ModuleModel { locals: m.locals.push(param_var(name, value)), ..m }),
        kinds_kept(ModuleModel { ports: m.ports.push(sized_var(name, io_p::input_, false, w)), ..m }),
        kinds_kept(ModuleModel { ports: m.ports.push(sized_var(name, io_p::inout_, false, w)), ..m }),
        kinds_kept(ModuleModel { ports: m.ports.push(sized_var(name, io_p::output_, false, w)), ..m }),
        kinds_kept(ModuleModel { ports: m.ports.push(sized_var(name, io_p::output_, true, w)), ..m }),
        kinds_kept(ModuleModel { locals: m.locals.push(sized_var(name, io_p::none, false, w)), ..m }),
        kinds_kept(ModuleModel { locals: m.locals.push(sized_var(name, io_p::none, true, w)), ..m }),
        kinds_kept(ModuleModel { locals: m.locals.push(mem_var(name, w, l)), ..m }),
{
    lemma_push_kind(m.locals, param_var(name, value), false);
    lemma_push_kind(m.ports, sized_var(name, io_p::input_, false, w), true);
    lemma_push_kind(m.ports, sized_var(name, io_p::inout_, false, w), true);
    lemma_push_kind(m.ports, sized_var(name, io_p::output_, false, w), true);
    lemma_push_kind(m.ports, sized_var(name, io_p::output_, true, w), true);
    lemma_push_kind(m.locals, sized_var(name, io_p::none, false, w), false);
    lemma_push_kind(m.locals, sized_var(name, io_p::none, true, w), false);
    lemma_push_kind(m.locals, mem_var(name, w, l), false);
}

/// The state register of a state machine is a register of the module's own.
pub proof fn law_state_register_is_local(name: Seq<char>)
    ensures
        state_reg(name) matches EV::Ldc(p) && p.io == io_p::none,
{
}

/// Adding a state machine whose state register is a local register keeps
/// every signal of the right kind.
pub proof fn law_kinds_kept_by_fsm(m: ModuleModel, f: FsmModel)
    requires
        kinds_kept(m),
        f.reg matches EV::Ldc(p) ==> p.io == io_p::none,
    ensures
        kinds_kept(with_fsm(m, f)),
{
    let ps = state_params_of(f.states);
    assert forall|i: int| 0 <= i < ps.len() implies of_kind(#[trigger] ps[i], false) by {}
    lemma_append_kinds(m.locals, ps, false);
    match f.reg {
        EV::Ldc(p) => {
            let extra = seq![p, next_reg(p)];
            assert forall|i: int| 0 <= i < extra.len() implies of_kind(#[trigger] extra[i], false) by {}
            lemma_append_kinds(m.locals + ps, extra, false);
        },
        _ => {},
    }
}

proof fn lemma_reg_locals_kind(regs: Seq<EV>)
    ensures
        forall|i: int| 0 <= i < reg_locals(regs).len() ==> of_kind(#[trigger] reg_locals(regs)[i], false),
    decreases regs.len(),
{
    if regs.len() > 0 {
        lemma_reg_locals_kind(regs.drop_last());
        let rest = reg_locals(regs.drop_last());
        match regs.last() {
            EV::Ldc(v) => {
                let r = crate::module::reg_sig(v.name, v.width);
                assert(of_kind(r, false));
                lemma_push_kind(rest, r, false);
                assert(reg_locals(regs) == rest.push(r));
            },
            _ => {
                assert(reg_locals(regs) == rest);
            },
        }
    }
}

/// Adding an AXI4-Lite or AXI4 slave port keeps every signal of the right
/// kind.
pub proof fn law_kinds_kept_by_axi(m: ModuleModel, la: LiteModel, sa: AxisModel)
    requires
        kinds_kept(m),
    ensures
        kinds_kept(with_lite(m, la)),
        kinds_kept(with_axis(m, sa)),
{
    let l = spec_dec(m.axis.len() as int);
    let w = addr_bits(la.regs.len() * 4 - 1) as i32;
    let lp = lite_ports(l, w);
    assert forall|i: int| 0 <= i < lp.len() implies of_kind(#[trigger] lp[i], true) by {}
    lemma_append_kinds(m.ports, lp, true);
    let ll = lite_locals(l, w);
    assert forall|i: int| 0 <= i < ll.len() implies of_kind(#[trigger] ll[i], false) by {}
    lemma_append_kinds(m.locals, ll, false);
    lemma_reg_locals_kind(la.regs);
    lemma_append_kinds(m.locals + ll, reg_locals(la.regs), false);

    let w2 = addr_bits(sa.length * 4 - 1) as i32;
    let ap = axis_ports(w2);
    assert forall|i: int| 0 <= i < ap.len() implies of_kind(#[trigger] ap[i], true) by {}
    lemma_append_kinds(m.ports, ap, true);
    let al = axis_locals(w2);
    assert forall|i: int| 0 <= i < al.len() implies of_kind(#[trigger] al[i], false) by {}
    lemma_append_kinds(m.locals, al, false);
    let side = axis_local_side(sa);
    assert forall|i: int| 0 <= i < side.len() implies of_kind(#[trigger] side[i], false) by {}
    lemma_append_kinds(m.locals + al, side, false);
}

/// Every state's parameter is named after the state and valued by its
/// position, as `AddState` makes them.
pub open spec fn states_numbered(states: Seq<StateModel>) -> bool {
    forall|i: int|
        0 <= i < states.len() ==> (#[trigger] states[i]).state == EV::Ldc(param_var(state_name(states[i]), i as i32))
}

/// Adding a state, and adding a transition to the current state or to the
/// states of a name, keep every state's parameter valued by its position.
pub proof fn law_states_numbered_kept(states: Seq<StateModel>, name: Seq<char>, b: IfModel, k: int)
    requires
        states_numbered(states),
        states.len() <= i32::MAX,
    ensures
        states_numbered(
            states.push(
                StateModel { state: EV::Ldc(param_var(name, states.len() as i32)), branch: Seq::empty() },
            ),
        ),
        0 <= k < states.len() ==> states_numbered(
            states.update(k, StateModel { branch: states[k].branch.push(b), ..states[k] }),
        ),
        states_numbered(add_to_named(states, name, b)),
{
    let x = StateModel { state: EV::Ldc(param_var(name, states.len() as i32)), branch: Seq::empty() };
    let s1 = states.push(x);
    assert forall|i: int| 0 <= i < s1.len() implies (#[trigger] s1[i]).state == EV::Ldc(
        param_var(state_name(s1[i]), i as i32),
    ) by {
        if i < states.len() {
            assert(s1[i] == states[i]);
        }
    }
    if 0 <= k < states.len() {
        let s2 = states.update(k, StateModel { branch: states[k].branch.push(b), ..states[k] });
        assert forall|i: int| 0 <= i < s2.len() implies (#[trigger] s2[i]).state == EV::Ldc(
            param_var(state_name(s2[i]), i as i32),
        ) by {
            assert(s2[i].state == states[i].state);
        }
    }
    let s3 = add_to_named(states, name, b);
    assert forall|i: int| 0 <= i < s3.len() implies (#[trigger] s3[i]).state == EV::Ldc(
        param_var(state_name(s3[i]), i as i32),
    ) by {
        assert(s3[i].state == states[i].state);
    }
}

/// In a state machine whose states are numbered by their positions, the
/// local parameters that adding it to a module declares are exactly the
/// states' own parameters, in order.
pub proof fn law_fsm_params_are_states(states: Seq<StateModel>)
    requires
        states_numbered(states),
    ensures
        state_params_of(states).len() == states.len(),
        forall|i: int| 0 <= i < states.len() ==> EV::Ldc(#[trigger] state_params_of(states)[i]) == states[i].state,
{
    assert forall|i: int| 0 <= i < states.len() implies EV::Ldc(#[trigger] state_params_of(states)[i])
        == states[i].state by {
        assert(states[i].state == EV::Ldc(param_var(state_name(states[i]), i as i32)));
    }
}

/// After setting up a register by its name, or at least one register by
/// number, the current register is one of the port's registers: a local
/// write can be set for it.
pub proof fn law_reg_write_possible(m: LiteModel, num: i32)
    requires
        m.writes.len() == m.regs.len(),
        m.regs.len() < i32::MAX,
    ensures
        0 <= (m.regs.len() as i32) < m.writes.push((EV::Null, EV::Null)).len(),
        num >= 1 ==> 0 <= num - 1 < (m.writes + no_writes(num as int)).len(),
{
}

} // verus!
