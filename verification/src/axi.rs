//! AXI slave ports: the AXI4-Lite register bank and the AXI4 memory-mapped
//! slave, their settings, and the Verilog text that implements them.

use vstd::prelude::*;
use crate::ast::{
    E, EV, wrVar, VarModel, fresh_var, views_of, lemma_views_of, clone_box, clone_boxes,
    is_null, DecompAST,
};
use crate::render::{decomp, printable};
use crate::stmt::e_view_box;
use crate::expr::{str_out, _StrOut};
use crate::text::{spec_dec, spec_hex2, push_dec, dec_string, hex2_string, str_eq};
use crate::axi_text::{
    lite_head, push_lite_head, lite_waddr, push_lite_waddr, lite_wdata_head, push_lite_wdata_head,
    lite_reset_reg, push_lite_reset_reg, lite_case_head, push_lite_case_head, lite_write_reg,
    push_lite_write_reg, lite_default_head, push_lite_default_head, lite_default_reg,
    push_lite_default_reg, lite_local_head, push_lite_local_head, lite_local_write,
    push_lite_local_write, lite_resp, push_lite_resp, lite_resp_body, push_lite_resp_body,
    lite_read_head, push_lite_read_head, lite_read_reg, push_lite_read_reg, lite_tail,
    push_lite_tail, axis_head, push_axis_head, axis_mem, push_axis_mem, axis_no_mem,
    push_axis_no_mem, axis_aw, push_axis_aw, axis_waddr, push_axis_waddr, axis_wready,
    push_axis_wready, axis_ar, push_axis_ar, axis_raddr, push_axis_raddr, axis_rvalid,
    push_axis_rvalid, axis_mem_read, push_axis_mem_read, axis_read_head, push_axis_read_head,
    axis_read_local, push_axis_read_local, axis_read_from, push_axis_read_from, axis_read_tail,
    push_axis_read_tail,
};

verus! {

/// An AXI4-Stream port (not generated yet).
#[derive(Debug, Clone, Copy)]
pub struct AXIST;

/// An AXI4 master port (not generated yet).
#[derive(Debug, Clone, Copy)]
pub struct AXIM;

/// An AXI4 memory-mapped slave port: its clock and reset, the number of
/// words it serves, whether it holds them in a memory of its own, and the
/// signal that read data come from otherwise.
#[derive(Debug)]
pub struct AXIS {
    clk: Box<E>,
    rst: Box<E>,
    length: i32,
    mem: bool,
    rdata: Box<E>,
}

/// What an AXI4 slave port holds.
pub struct AxisModel {
    pub clk: EV,
    pub rst: EV,
    pub length: i32,
    pub mem: bool,
    pub rdata: EV,
}

impl View for AXIS {
    type V = AxisModel;

    closed spec fn view(&self) -> AxisModel {
        AxisModel {
            clk: self.clk@,
            rst: self.rst@,
            length: self.length,
            mem: self.mem,
            rdata: self.rdata@,
        }
    }
}

impl Clone for AXIS {
    fn clone(&self) -> (r: Self)
        ensures
            r@ == self@,
    {
        AXIS {
            clk: clone_box(&self.clk),
            rst: clone_box(&self.rst),
            length: self.length,
            mem: self.mem,
            rdata: clone_box(&self.rdata),
        }
    }
}

/// An AXI4-Lite slave port: its clock and reset, its registers, for each
/// register the enable and data of a write from the local side, and the
/// register that such a write is set for.
#[derive(Debug)]
pub struct AXISLite {
    clk: Box<E>,
    rst: Box<E>,
    reg_array: Vec<Box<E>>,
    wLocal_write: Vec<(Box<E>, Box<E>)>,
    current_reg: i32,
}

/// What an AXI4-Lite slave port holds.
pub struct LiteModel {
    pub clk: EV,
    pub rst: EV,
    pub regs: Seq<EV>,
    pub writes: Seq<(EV, EV)>,
    pub current: i32,
}

/// The models of a list of local writes (enable, data).
pub open spec fn pairs_view(s: Seq<(Box<E>, Box<E>)>) -> Seq<(EV, EV)> {
    Seq::new(s.len(), |i: int| (s[i].0@, s[i].1@))
}

impl View for AXISLite {
    type V = LiteModel;

    closed spec fn view(&self) -> LiteModel {
        LiteModel {
            clk: self.clk@,
            rst: self.rst@,
            regs: views_of(self.reg_array@),
            writes: pairs_view(self.wLocal_write@),
            current: self.current_reg,
        }
    }
}

fn clone_pairs(v: &Vec<(Box<E>, Box<E>)>) -> (r: Vec<(Box<E>, Box<E>)>)
    ensures
        pairs_view(r@) == pairs_view(v@),
{
    let mut r: Vec<(Box<E>, Box<E>)> = Vec::new();
    let mut i: usize = 0;
    while i < v.len()
        invariant
            i <= v@.len(),
            r@.len() == i,
            forall|j: int| 0 <= j < i ==> #[trigger] r@[j].0@ == v@[j].0@ && r@[j].1@ == v@[j].1@,
        decreases v@.len() - i,
    {
        let p = (clone_box(&v[i].0), clone_box(&v[i].1));
        r.push(p);
        i = i + 1;
    }
    assert(pairs_view(r@) =~= pairs_view(v@));
    r
}

impl Clone for AXISLite {
    fn clone(&self) -> (r: Self)
        ensures
            r@ == self@,
    {
        AXISLite {
            clk: clone_box(&self.clk),
            rst: clone_box(&self.rst),
            reg_array: clone_boxes(&self.reg_array),
            wLocal_write: clone_pairs(&self.wLocal_write),
            current_reg: self.current_reg,
        }
    }
}

/// An AXI4-Lite slave port clocked by `clock` and reset by `reset`, with no
/// registers yet.
pub fn AXIS_Lite_new(clock: Box<E>, reset: Box<E>) -> (r: AXISLite)
    ensures
        r@ == (LiteModel {
            clk: clock@,
            rst: reset@,
            regs: Seq::empty(),
            writes: Seq::empty(),
            current: 0,
        }),
{
    let r = AXISLite {
        clk: clock,
        rst: reset,
        reg_array: Vec::new(),
        wLocal_write: Vec::new(),
        current_reg: 0,
    };
    assert(views_of(r.reg_array@) =~= Seq::<EV>::empty());
    assert(pairs_view(r.wLocal_write@) =~= Seq::<(EV, EV)>::empty());
    r
}

/// An AXI4 slave port clocked by `clock` and reset by `reset`, serving no
/// words yet, without memory, whose read data come from the local read wire.
pub fn AXIS_new(clock: Box<E>, reset: Box<E>) -> (r: AXIS)
    ensures
        r@ == (AxisModel { clk: clock@, rst: reset@, length: 0, mem: false, rdata: EV::Null }),
{
    AXIS { clk: clock, rst: reset, length: 0, mem: false, rdata: Box::new(E::Null) }
}

/// `2` to the power `n`.
pub open spec fn two_pow(n: nat) -> int
    decreases n,
{
    if n == 0 {
        1
    } else {
        2 * two_pow((n - 1) as nat)
    }
}

/// The least width from `w` up (and at most 31) whose power of two reaches `n`.
pub open spec fn bits_from(w: int, n: int) -> int
    decreases 31 - w,
{
    if w >= 31 || n <= two_pow(w as nat) {
        w
    } else {
        bits_from(w + 1, n)
    }
}

/// The width of an address that counts up to `n`: the least `w >= 1` with
/// `2^w >= n`.
pub open spec fn addr_bits(n: int) -> int {
    bits_from(1, n)
}

proof fn lemma_two_pow_grows(a: nat, b: nat)
    requires
        a <= b,
    ensures
        two_pow(a) <= two_pow(b),
        two_pow(a) >= 1,
    decreases b,
{
    if b > a {
        lemma_two_pow_grows(a, (b - 1) as nat);
    } else if a > 0 {
        lemma_two_pow_grows((a - 1) as nat, (a - 1) as nat);
    }
}

/// `addr_bits(n)` for `n <= 2^30`: the loop of doublings the width is found by.
pub(crate) fn addr_width(n: i32) -> (w: i32)
    requires
        n <= 0x4000_0000,
    ensures
        w == addr_bits(n as int),
        1 <= w <= 30,
{
    let mut w: i32 = 1;
    let mut p: i32 = 2;
    assert(two_pow(30) == 0x4000_0000) by {
        reveal_with_fuel(two_pow, 31);
    }
    assert(two_pow(1) == 2) by {
        reveal_with_fuel(two_pow, 2);
    }
    while p < n
        invariant
            1 <= w <= 30,
            p == two_pow(w as nat),
            n <= 0x4000_0000,
            two_pow(30) == 0x4000_0000,
            bits_from(w as int, n as int) == bits_from(1, n as int),
        decreases 30 - w,
    {
        if w >= 30 {
            proof {
                lemma_two_pow_grows(30, w as nat);
            }
            assert(false);
        }
        proof {
            lemma_two_pow_grows((w + 1) as nat, 30);
        }
        p = p * 2;
        w = w + 1;
    }
    w
}

/// The model of a 32-bit register named `name`.
pub open spec fn reg32(name: Seq<char>) -> EV {
    EV::Ldc(VarModel { name: name, width: 32, reg: true, ..fresh_var() })
}

/// The model of a wire named `name` of the given width.
pub open spec fn wire_of(name: Seq<char>, width: i32) -> EV {
    EV::Ldc(VarModel { name: name, width: width, ..fresh_var() })
}

/// The registers "slv_reg0", "slv_reg1", ... below `n` (none when `n <= 0`).
pub open spec fn numbered_regs(n: int) -> Seq<EV> {
    Seq::new(if n > 0 { n as nat } else { 0 }, |k: int| reg32("slv_reg"@ + spec_dec(k)))
}

/// `n` local writes that are not set (none when `n <= 0`).
pub open spec fn no_writes(n: int) -> Seq<(EV, EV)> {
    Seq::new(if n > 0 { n as nat } else { 0 }, |k: int| (EV::Null, EV::Null))
}

/// The first register of `s` named `name`, else `Null`.
pub open spec fn find_reg(s: Seq<EV>, name: Seq<char>) -> EV
    decreases s.len(),
{
    if s.len() == 0 {
        EV::Null
    } else if s[0] matches EV::Ldc(w) && w.name == name {
        s[0]
    } else {
        find_reg(s.drop_first(), name)
    }
}

proof fn lemma_views_push(v: Seq<Box<E>>, b: Box<E>)
    ensures
        views_of(v.push(b)) == views_of(v).push(b@),
{
    lemma_views_of(v);
    lemma_views_of(v.push(b));
    assert(views_of(v.push(b)) =~= views_of(v).push(b@));
}

fn new_reg32(name: &str) -> (r: Box<E>)
    ensures
        r@ == reg32(name@),
{
    let mut v = wrVar::new();
    v.Reg(name, 32)
}

fn new_wire(name: &str, width: i32) -> (r: Box<E>)
    ensures
        r@ == wire_of(name@, width),
{
    let mut v = wrVar::new();
    v.Wire(name, width)
}

/// Setting up the registers of an AXI slave port by their number.
pub trait AXI_S_IF_Set<T>: Sized {
    /// Whether `OrderRegSet(num)` can be called on this port.
    spec fn order_set_ok(&self, num: i32) -> bool;

    /// Sets up `num` registers.
    fn OrderRegSet(&mut self, num: i32) -> T
        requires
            old(self).order_set_ok(num),
    ;
}

impl AXI_S_IF_Set<AXISLite> for AXISLite {
    open spec fn order_set_ok(&self, num: i32) -> bool {
        num > i32::MIN
    }

    /// Adds the registers "slv_reg0" .. "slv_reg{num-1}", 32 bits wide, with
    /// no local writes; the current register becomes position `num - 1` (the
    /// last of them when the port had no registers before).
    fn OrderRegSet(&mut self, num: i32) -> (r: AXISLite)
        ensures
            final(self)@ == (LiteModel {
                regs: old(self)@.regs + numbered_regs(num as int),
                writes: old(self)@.writes + no_writes(num as int),
                current: (num - 1) as i32,
                ..old(self)@
            }),
            r@ == final(self)@,
    {
        let ghost regs0 = views_of(self.reg_array@);
        let ghost writes0 = pairs_view(self.wLocal_write@);
        let mut x: i32 = 0;
        proof {
            assert(regs0 + numbered_regs(0) =~= regs0);
            assert(writes0 + no_writes(0) =~= writes0);
        }
        while x < num
            invariant
                0 <= x,
                x <= num || x == 0,
                self.clk == old(self).clk,
                self.rst == old(self).rst,
                self.current_reg == old(self).current_reg,
                regs0 == views_of(old(self).reg_array@),
                writes0 == pairs_view(old(self).wLocal_write@),
                views_of(self.reg_array@) == regs0 + numbered_regs(x as int),
                pairs_view(self.wLocal_write@) == writes0 + no_writes(x as int),
            decreases num - x,
        {
            let ghost v0 = self.reg_array@;
            let ghost w0 = self.wLocal_write@;
            let mut name = String::from_str("slv_reg");
            push_dec(&mut name, x as i64);
            let reg = new_reg32(name.as_str());
            self.reg_array.push(reg);
            self.wLocal_write.push((Box::new(E::Null), Box::new(E::Null)));
            x = x + 1;
            proof {
                lemma_views_push(v0, reg);
                assert(numbered_regs((x - 1) as int).push(reg@) =~= numbered_regs(x as int));
                assert((regs0 + numbered_regs((x - 1) as int)).push(reg@)
                    =~= regs0 + numbered_regs((x - 1) as int).push(reg@));
                assert(pairs_view(self.wLocal_write@) =~= pairs_view(w0).push((EV::Null, EV::Null)));
                assert(no_writes((x - 1) as int).push((EV::Null, EV::Null)) =~= no_writes(x as int));
                assert((writes0 + no_writes((x - 1) as int)).push((EV::Null, EV::Null))
                    =~= writes0 + no_writes((x - 1) as int).push((EV::Null, EV::Null)));
            }
        }
        self.current_reg = num - 1;
        self.clone()
    }
}

impl AXISLite {
    /// Adds a 32-bit register named `name`, with no local write; it becomes
    /// the current register.
    pub fn NamedRegSet(&mut self, name: &str) -> (r: AXISLite)
        requires
            old(self)@.regs.len() < i32::MAX,
        ensures
            final(self)@ == (LiteModel {
                regs: old(self)@.regs.push(reg32(name@)),
                writes: old(self)@.writes.push((EV::Null, EV::Null)),
                current: old(self)@.regs.len() as i32,
                ..old(self)@
            }),
            r@ == final(self)@,
    {
        let ghost v0 = self.reg_array@;
        let ghost w0 = self.wLocal_write@;
        proof {
            lemma_views_of(v0);
        }
        let reg = new_reg32(name);
        self.reg_array.push(reg);
        self.wLocal_write.push((Box::new(E::Null), Box::new(E::Null)));
        self.current_reg = self.reg_array.len() as i32 - 1;
        proof {
            lemma_views_of(self.reg_array@);
            assert(views_of(self.reg_array@) =~= views_of(v0).push(reg32(name@)));
            assert(pairs_view(self.wLocal_write@) =~= pairs_view(w0).push((EV::Null, EV::Null)));
        }
        self.clone()
    }

    /// The first register named `name`, else `Null`.
    pub fn NamedReg(&mut self, name: &str) -> (r: Box<E>)
        ensures
            final(self)@ == old(self)@,
            r@ == find_reg(old(self)@.regs, name@),
    {
        let ghost s = views_of(self.reg_array@);
        proof {
            lemma_views_of(self.reg_array@);
            assert(s.subrange(0, s.len() as int) =~= s);
        }
        let mut i: usize = 0;
        while i < self.reg_array.len()
            invariant
                i <= self.reg_array@.len(),
                s == views_of(self.reg_array@),
                s.len() == self.reg_array@.len(),
                forall|j: int| 0 <= j < s.len() ==> #[trigger] s[j] == e_view_box(self.reg_array@[j]),
                find_reg(s, name@) == find_reg(s.subrange(i as int, s.len() as int), name@),
            decreases self.reg_array@.len() - i,
        {
            let ghost rest = s.subrange(i as int, s.len() as int);
            assert(rest[0] == s[i as int]);
            assert(rest.drop_first() =~= s.subrange(i + 1, s.len() as int));
            let x = &self.reg_array[i];
            match &**x {
                E::Ldc(w) => {
                    let n = w.getName();
                    if str_eq(n.as_str(), name) {
                        return clone_box(x);
                    }
                },
                _ => {},
            }
            i = i + 1;
        }
        Box::new(E::Null)
    }

    /// The register at position `num`.
    pub fn OrderReg(&mut self, num: i32) -> (r: Box<E>)
        requires
            0 <= num < old(self)@.regs.len(),
        ensures
            final(self)@ == old(self)@,
            r@ == old(self)@.regs[num as int],
    {
        proof {
            lemma_views_of(self.reg_array@);
        }
        clone_box(&self.reg_array[num as usize])
    }

    fn set_local_write(&mut self, write_en: Box<E>, write_data: Box<E>)
        requires
            0 <= old(self)@.current < old(self)@.writes.len(),
        ensures
            final(self)@ == (LiteModel {
                writes: old(self)@.writes.update(old(self)@.current as int, (write_en@, write_data@)),
                ..old(self)@
            }),
    {
        let ghost w0 = self.wLocal_write@;
        let i = self.current_reg as usize;
        self.wLocal_write.set(i, (write_en, write_data));
        proof {
            assert(pairs_view(self.wLocal_write@) =~= pairs_view(w0).update(i as int, (write_en@, write_data@)));
        }
    }
}

/// Setting a write of the current register from the local side.
pub trait AXI_S_IF_LocalWrite<T, U>: Sized {
    /// Whether a write can be set: the current register exists.
    spec fn write_ok(&self) -> bool;

    /// Writes `write_data` into the current register whenever `write_en` holds.
    fn RegWrite(&mut self, write_en: U, write_data: T)
        requires
            old(self).write_ok(),
    ;
}

impl AXI_S_IF_LocalWrite<Box<E>, Box<E>> for AXISLite {
    open spec fn write_ok(&self) -> bool {
        0 <= self@.current < self@.writes.len()
    }

    fn RegWrite(&mut self, write_en: Box<E>, write_data: Box<E>)
        ensures
            final(self)@ == (LiteModel {
                writes: old(self)@.writes.update(old(self)@.current as int, (write_en@, write_data@)),
                ..old(self)@
            }),
    {
        self.set_local_write(write_en, write_data);
    }
}

impl AXI_S_IF_LocalWrite<i32, Box<E>> for AXISLite {
    open spec fn write_ok(&self) -> bool {
        0 <= self@.current < self@.writes.len()
    }

    fn RegWrite(&mut self, write_en: Box<E>, write_data: i32)
        ensures
            final(self)@ == (LiteModel {
                writes: old(self)@.writes.update(old(self)@.current as int, (write_en@, EV::Num(write_data))),
                ..old(self)@
            }),
    {
        self.set_local_write(write_en, Box::new(E::Num(write_data)));
    }
}

impl AXI_S_IF_LocalWrite<Box<E>, i32> for AXISLite {
    open spec fn write_ok(&self) -> bool {
        0 <= self@.current < self@.writes.len()
    }

    fn RegWrite(&mut self, write_en: i32, write_data: Box<E>)
        ensures
            final(self)@ == (LiteModel {
                writes: old(self)@.writes.update(old(self)@.current as int, (EV::Num(write_en), write_data@)),
                ..old(self)@
            }),
    {
        self.set_local_write(Box::new(E::Num(write_en)), write_data);
    }
}

impl AXI_S_IF_LocalWrite<i32, i32> for AXISLite {
    open spec fn write_ok(&self) -> bool {
        0 <= self@.current < self@.writes.len()
    }

    fn RegWrite(&mut self, write_en: i32, write_data: i32)
        ensures
            final(self)@ == (LiteModel {
                writes: old(self)@.writes.update(
                    old(self)@.current as int,
                    (EV::Num(write_en), EV::Num(write_data)),
                ),
                ..old(self)@
            }),
    {
        self.set_local_write(Box::new(E::Num(write_en)), Box::new(E::Num(write_data)));
    }
}

impl AXI_S_IF_Set<AXIS> for AXIS {
    open spec fn order_set_ok(&self, num: i32) -> bool {
        true
    }

    /// Serves `num` words.
    fn OrderRegSet(&mut self, num: i32) -> (r: AXIS)
        ensures
            final(self)@ == (AxisModel { length: num, ..old(self)@ }),
            r@ == final(self)@,
    {
        self.length = num;
        self.clone()
    }
}

/// The local side of an AXI4 slave port: its write data, address, write
/// enable, and the memory interface.
pub trait AXIS_RegControl {
    fn write(&mut self) -> Box<E>;

    fn addr(&mut self) -> Box<E>;

    fn wen(&mut self) -> Box<E>;

    fn mem_if(&mut self) -> (Box<E>, Box<E>, Box<E>, Box<E>);
}

impl AXIS_RegControl for AXIS {
    /// The 32-bit wire "axis_write".
    fn write(&mut self) -> (r: Box<E>)
        ensures
            final(self)@ == old(self)@,
            r@ == wire_of("axis_write"@, 32),
    {
        new_wire("axis_write", 32)
    }

    /// The 32-bit wire "axis_addr".
    fn addr(&mut self) -> (r: Box<E>)
        ensures
            final(self)@ == old(self)@,
            r@ == wire_of("axis_addr"@, 32),
    {
        new_wire("axis_addr", 32)
    }

    /// The 1-bit wire "axis_wen".
    fn wen(&mut self) -> (r: Box<E>)
        ensures
            final(self)@ == old(self)@,
            r@ == wire_of("axis_wen"@, 1),
    {
        new_wire("axis_wen", 1)
    }

    /// Gives the port a memory of its own; returns its read data, write data,
    /// write enable and address wires.
    fn mem_if(&mut self) -> (r: (Box<E>, Box<E>, Box<E>, Box<E>))
        ensures
            final(self)@ == (AxisModel { mem: true, ..old(self)@ }),
            r.0@ == wire_of("axis_read"@, 32),
            r.1@ == wire_of("axis_write"@, 32),
            r.2@ == wire_of("axis_wen"@, 1),
            r.3@ == wire_of("axis_addr"@, 32),
    {
        self.mem = true;
        (new_wire("axis_read", 32), new_wire("axis_write", 32), new_wire("axis_wen", 1), new_wire("axis_addr", 32))
    }
}

/// Where the read data of an AXI4 slave port without memory come from.
pub trait AXIS_readcontrol<T> {
    fn read(&mut self, rdata: T) -> AXIS;
}

impl AXIS_readcontrol<Box<E>> for AXIS {
    /// Read data come from `rdata`.
    fn read(&mut self, rdata: Box<E>) -> (r: AXIS)
        ensures
            final(self)@ == (AxisModel { rdata: rdata@, ..old(self)@ }),
            r@ == final(self)@,
    {
        self.rdata = rdata;
        self.clone()
    }
}

impl AXIS_readcontrol<i32> for AXIS {
    /// Read data are the number `rdata`.
    fn read(&mut self, rdata: i32) -> (r: AXIS)
        ensures
            final(self)@ == (AxisModel { rdata: EV::Num(rdata), ..old(self)@ }),
            r@ == final(self)@,
    {
        self.rdata = Box::new(E::Num(rdata));
        self.clone()
    }
}

/// The resets of the first `n` registers.
pub open spec fn reg_resets(regs: Seq<EV>, n: int) -> Seq<char>
    decreases n,
{
    if n <= 0 {
        Seq::empty()
    } else {
        reg_resets(regs, n - 1) + lite_reset_reg(str_out(regs[n - 1]))
    }
}

/// The `case` branches that write the first `n` registers from the bus.
pub open spec fn write_regs(regs: Seq<EV>, n: int, w2: Seq<char>, c: Seq<char>) -> Seq<char>
    decreases n,
{
    if n <= 0 {
        Seq::empty()
    } else {
        write_regs(regs, n - 1, w2, c) + lite_write_reg(w2, spec_hex2((n - 1) as nat), c, str_out(regs[n - 1]))
    }
}

/// The first `n` registers kept as they are.
pub open spec fn default_regs(regs: Seq<EV>, n: int) -> Seq<char>
    decreases n,
{
    if n <= 0 {
        Seq::empty()
    } else {
        default_regs(regs, n - 1) + lite_default_reg(str_out(regs[n - 1]))
    }
}

/// The local write of register `reg`, nothing when its enable is not set.
pub open spec fn local_write_text(reg: EV, w: (EV, EV)) -> Seq<char> {
    if w.0 is Null {
        Seq::empty()
    } else {
        lite_local_write(decomp(false, w.0, ""@, 0), str_out(reg), decomp(false, w.1, ""@, 0))
    }
}

/// The local writes of the first `n` registers.
pub open spec fn local_writes(regs: Seq<EV>, writes: Seq<(EV, EV)>, n: int) -> Seq<char>
    decreases n,
{
    if n <= 0 {
        Seq::empty()
    } else {
        local_writes(regs, writes, n - 1) + local_write_text(regs[n - 1], writes[n - 1])
    }
}

/// The `case` branches that read the first `n` registers onto the bus.
pub open spec fn read_regs(regs: Seq<EV>, n: int, w2: Seq<char>, c: Seq<char>) -> Seq<char>
    decreases n,
{
    if n <= 0 {
        Seq::empty()
    } else {
        read_regs(regs, n - 1, w2, c) + lite_read_reg(w2, spec_hex2((n - 1) as nat), c, str_out(regs[n - 1]))
    }
}

/// The Verilog text of AXI4-Lite slave port number `count`: its handshake
/// logic, and the write and read of each register at word addresses 0, 1, ...
/// whose width is the least `w >= 1` with `2^w >= 4 * registers - 1`.
pub open spec fn lite_text(m: LiteModel, count: int) -> Seq<char> {
    let c = spec_dec(count);
    let clk = str_out(m.clk);
    let rst = str_out(m.rst);
    let w = addr_bits(m.regs.len() * 4 - 1);
    let w1 = spec_dec(w - 1);
    let w2 = spec_dec(w - 2);
    let n = m.regs.len() as int;
    lite_head(c, clk, rst) + lite_waddr(c) + lite_wdata_head(c, clk, rst) + reg_resets(m.regs, n)
        + lite_case_head(c, w1) + write_regs(m.regs, n, w2, c) + lite_default_head()
        + default_regs(m.regs, n) + lite_local_head() + local_writes(m.regs, m.writes, n)
        + lite_resp(c, clk, rst) + lite_resp_body(c) + lite_read_head(c, clk, rst, w1)
        + read_regs(m.regs, n, w2, c) + lite_tail(c)
}

/// A local write can be written out: it is not set, or both its enable and
/// its data can be written out.
pub open spec fn write_printable(w: (EV, EV)) -> bool {
    !(w.0 is Null) ==> printable(w.0, 0) && printable(w.1, 0)
}

/// An AXI4-Lite slave port can be written out: one local write per register,
/// an address width that fits, and every local write that is set can be
/// written out.
pub open spec fn lite_printable(m: LiteModel) -> bool {
    &&& m.regs.len() <= 0x1000_0000
    &&& m.writes.len() == m.regs.len()
    &&& forall|i: int|
        0 <= i < m.writes.len() ==> write_printable(#[trigger] m.writes[i])
}

/// The Verilog text of AXI4-Lite slave port number `count`.
pub fn PrintAXISL(AXISL: &AXISLite, count: i32) -> (st: String)
    requires
        lite_printable(AXISL@),
    ensures
        st@ == lite_text(AXISL@, count as int),
{
    let ghost m = AXISL@;
    let n = AXISL.reg_array.len();
    proof {
        lemma_views_of(AXISL.reg_array@);
    }
    let w = addr_width((n as i32) * 4 - 1);
    let C = dec_string(count as i64);
    let W1 = dec_string((w - 1) as i64);
    let W2 = dec_string((w - 2) as i64);
    let CLK = _StrOut(clone_box(&AXISL.clk));
    let RST = _StrOut(clone_box(&AXISL.rst));
    let c = C.as_str();
    let w1 = W1.as_str();
    let w2 = W2.as_str();
    let clk = CLK.as_str();
    let rst = RST.as_str();
    let mut st = String::new();
    push_lite_head(&mut st, c, clk, rst);
    proof {
        assert(Seq::<char>::empty() + lite_head(c@, clk@, rst@) =~= lite_head(c@, clk@, rst@));
    }
    push_lite_waddr(&mut st, c);
    push_lite_wdata_head(&mut st, c, clk, rst);

    let mut part = String::new();
    let mut i: usize = 0;
    while i < n
        invariant
            i <= n,
            m == AXISL@,
            n == AXISL.reg_array@.len(),
            m.regs.len() == n,
            forall|j: int| 0 <= j < n ==> #[trigger] m.regs[j] == e_view_box(AXISL.reg_array@[j]),
            part@ == reg_resets(m.regs, i as int),
        decreases n - i,
    {
        let name = _StrOut(clone_box(&AXISL.reg_array[i]));
        push_lite_reset_reg(&mut part, name.as_str());
        i = i + 1;
    }
    st.append(part.as_str());
    push_lite_case_head(&mut st, c, w1);

    let mut part = String::new();
    let mut i: usize = 0;
    while i < n
        invariant
            i <= n,
            m == AXISL@,
            n == AXISL.reg_array@.len(),
            m.regs.len() == n,
            n <= 0x1000_0000,
            forall|j: int| 0 <= j < n ==> #[trigger] m.regs[j] == e_view_box(AXISL.reg_array@[j]),
            part@ == write_regs(m.regs, i as int, w2@, c@),
        decreases n - i,
    {
        let name = _StrOut(clone_box(&AXISL.reg_array[i]));
        let k = hex2_string(i as u64);
        push_lite_write_reg(&mut part, w2, k.as_str(), c, name.as_str());
        i = i + 1;
    }
    st.append(part.as_str());
    push_lite_default_head(&mut st);

    let mut part = String::new();
    let mut i: usize = 0;
    while i < n
        invariant
            i <= n,
            m == AXISL@,
            n == AXISL.reg_array@.len(),
            m.regs.len() == n,
            forall|j: int| 0 <= j < n ==> #[trigger] m.regs[j] == e_view_box(AXISL.reg_array@[j]),
            part@ == default_regs(m.regs, i as int),
        decreases n - i,
    {
        let name = _StrOut(clone_box(&AXISL.reg_array[i]));
        push_lite_default_reg(&mut part, name.as_str());
        i = i + 1;
    }
    st.append(part.as_str());
    push_lite_local_head(&mut st);

    let mut part = String::new();
    let mut i: usize = 0;
    while i < n
        invariant
            i <= n,
            m == AXISL@,
            lite_printable(m),
            n == AXISL.reg_array@.len(),
            n == AXISL.wLocal_write@.len(),
            m.regs.len() == n,
            m.writes == pairs_view(AXISL.wLocal_write@),
            forall|j: int| 0 <= j < n ==> #[trigger] m.regs[j] == e_view_box(AXISL.reg_array@[j]),
            part@ == local_writes(m.regs, m.writes, i as int),
        decreases n - i,
    {
        let en = &AXISL.wLocal_write[i].0;
        let data = &AXISL.wLocal_write[i].1;
        assert(m.writes[i as int] == (en@, data@));
        assert(write_printable(m.writes[i as int]));
        if !is_null(&**en) {
            let EN = DecompAST(false, &**en, "", 0);
            let NAME = _StrOut(clone_box(&AXISL.reg_array[i]));
            let DATA = DecompAST(false, &**data, "", 0);
            push_lite_local_write(&mut part, EN.as_str(), NAME.as_str(), DATA.as_str());
        }
        i = i + 1;
    }
    st.append(part.as_str());
    push_lite_resp(&mut st, c, clk, rst);
    push_lite_resp_body(&mut st, c);
    push_lite_read_head(&mut st, c, clk, rst, w1);

    let mut part = String::new();
    let mut i: usize = 0;
    while i < n
        invariant
            i <= n,
            m == AXISL@,
            n == AXISL.reg_array@.len(),
            m.regs.len() == n,
            n <= 0x1000_0000,
            forall|j: int| 0 <= j < n ==> #[trigger] m.regs[j] == e_view_box(AXISL.reg_array@[j]),
            part@ == read_regs(m.regs, i as int, w2@, c@),
        decreases n - i,
    {
        let name = _StrOut(clone_box(&AXISL.reg_array[i]));
        let k = hex2_string(i as u64);
        push_lite_read_reg(&mut part, w2, k.as_str(), c, name.as_str());
        i = i + 1;
    }
    st.append(part.as_str());
    push_lite_tail(&mut st, c);
    st
}

/// The Verilog text of an AXI4 slave port whose word address is
/// `addr_bits(length)` bits wide (bits 2 and up of the byte address): its
/// handshake and burst logic, and either a memory of `length` words of its
/// own, or the wires of the local side and the read data from `rdata` (from
/// the local read wire when `rdata` is `Null`).
pub open spec fn axis_text(m: AxisModel) -> Seq<char> {
    let w = addr_bits(m.length as int);
    let w1 = spec_dec(w + 1);
    let clk = str_out(m.clk);
    let rst = str_out(m.rst);
    let start = if m.mem {
        axis_head() + axis_mem(spec_dec(m.length - 1), clk)
    } else {
        axis_head() + axis_no_mem(w1)
    };
    let body = start + axis_aw(clk, rst) + axis_waddr(clk, rst, w1) + axis_wready(clk, rst)
        + axis_ar(clk, rst) + axis_raddr(clk, rst, w1) + axis_rvalid(clk, rst);
    if m.mem {
        body + axis_mem_read(clk, w1)
    } else if m.rdata is Null {
        body + axis_read_head() + axis_read_local() + axis_read_tail()
    } else {
        body + axis_read_head() + axis_read_from(str_out(m.rdata)) + axis_read_tail()
    }
}

/// An AXI4 slave port can be written out: its address width fits, and the
/// last word of its memory can be numbered.
pub open spec fn axis_printable(m: AxisModel) -> bool {
    &&& m.length <= 0x4000_0000
    &&& m.mem ==> m.length > i32::MIN
}

/// The Verilog text of an AXI4 slave port.
pub fn PrintAXIS(AXI: &AXIS) -> (st: String)
    requires
        axis_printable(AXI@),
    ensures
        st@ == axis_text(AXI@),
{
    let w = addr_width(AXI.length);
    let W1 = dec_string((w + 1) as i64);
    let CLK = _StrOut(clone_box(&AXI.clk));
    let RST = _StrOut(clone_box(&AXI.rst));
    let w1 = W1.as_str();
    let clk = CLK.as_str();
    let rst = RST.as_str();
    let mut st = String::new();
    push_axis_head(&mut st);
    proof {
        assert(Seq::<char>::empty() + axis_head() =~= axis_head());
    }
    if AXI.mem {
        let last = dec_string((AXI.length - 1) as i64);
        push_axis_mem(&mut st, last.as_str(), clk);
    } else {
        push_axis_no_mem(&mut st, w1);
    }
    push_axis_aw(&mut st, clk, rst);
    push_axis_waddr(&mut st, clk, rst, w1);
    push_axis_wready(&mut st, clk, rst);
    push_axis_ar(&mut st, clk, rst);
    push_axis_raddr(&mut st, clk, rst, w1);
    push_axis_rvalid(&mut st, clk, rst);
    if AXI.mem {
        push_axis_mem_read(&mut st, clk, w1);
    } else {
        push_axis_read_head(&mut st);
        if is_null(&*AXI.rdata) {
            push_axis_read_local(&mut st);
        } else {
            let rd = _StrOut(clone_box(&AXI.rdata));
            push_axis_read_from(&mut st, rd.as_str());
        }
        push_axis_read_tail(&mut st);
    }
    st
}

/// An AXI port of one of the four kinds.
#[derive(Debug)]
pub enum AXI {
    Lite(AXISLite),
    Slave(AXIS),
    Master(AXIM),
    Stream(AXIST),
}

/// What an AXI port holds.
pub enum AxiModel {
    Lite(LiteModel),
    Slave(AxisModel),
    Master,
    Stream,
}

impl View for AXI {
    type V = AxiModel;

    closed spec fn view(&self) -> AxiModel {
        match self {
            AXI::Lite(x) => AxiModel::Lite(x@),
            AXI::Slave(x) => AxiModel::Slave(x@),
            AXI::Master(_) => AxiModel::Master,
            AXI::Stream(_) => AxiModel::Stream,
        }
    }
}

impl Clone for AXI {
    fn clone(&self) -> (r: Self)
        ensures
            r@ == self@,
    {
        match self {
            AXI::Lite(x) => AXI::Lite(x.clone()),
            AXI::Slave(x) => AXI::Slave(x.clone()),
            AXI::Master(_) => AXI::Master(AXIM),
            AXI::Stream(_) => AXI::Stream(AXIST),
        }
    }
}

/// The Verilog text of AXI port number `num`.
pub open spec fn axi_text(a: AxiModel, num: int) -> Seq<char> {
    match a {
        AxiModel::Lite(l) => lite_text(l, num),
        AxiModel::Slave(s) => axis_text(s),
        _ => Seq::empty(),
    }
}

/// An AXI port can be written out: it is an AXI4-Lite or AXI4 slave port
/// that can be written out (the other kinds are not generated yet).
pub open spec fn axi_printable(a: AxiModel) -> bool {
    match a {
        AxiModel::Lite(l) => lite_printable(l),
        AxiModel::Slave(s) => axis_printable(s),
        _ => false,
    }
}

/// The Verilog text of AXI port number `num`.
pub fn PrintAXI(AXI_Sugar: &AXI, num: i32) -> (st: String)
    requires
        axi_printable(AXI_Sugar@),
    ensures
        st@ == axi_text(AXI_Sugar@, num as int),
{
    match AXI_Sugar {
        AXI::Lite(x) => PrintAXISL(x, num),
        AXI::Slave(x) => PrintAXIS(x),
        AXI::Master(_) => String::new(),
        AXI::Stream(_) => String::new(),
    }
}

impl AXISLite {
    /// The registers.
    pub(crate) fn reg_list(&self) -> (r: &Vec<Box<E>>)
        ensures
            views_of(r@) == self@.regs,
    {
        &self.reg_array
    }
}

impl AXIS {
    /// The number of words served.
    pub(crate) fn word_count(&self) -> (r: i32)
        ensures
            r == self@.length,
    {
        self.length
    }

    /// Whether the port has a memory of its own.
    pub(crate) fn has_mem(&self) -> (r: bool)
        ensures
            r == self@.mem,
    {
        self.mem
    }

    /// Whether read data come from the local read wire.
    pub(crate) fn reads_local(&self) -> (r: bool)
        ensures
            r == (self@.rdata is Null),
    {
        is_null(&*self.rdata)
    }
}

impl AXI {
    /// An AXI4-Lite slave port as an AXI port.
    pub(crate) fn from_lite(x: AXISLite) -> (r: AXI)
        ensures
            r@ == AxiModel::Lite(x@),
    {
        AXI::Lite(x)
    }

    /// An AXI4 slave port as an AXI port.
    pub(crate) fn from_slave(x: AXIS) -> (r: AXI)
        ensures
            r@ == AxiModel::Slave(x@),
    {
        AXI::Slave(x)
    }
}

} // verus!
