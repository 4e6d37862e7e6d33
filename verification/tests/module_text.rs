use vcore::ast::wrVar;
use vcore::expr::{_Add, _Eq, _Num, _V, _Veq, Form, addForm};
use vcore::module::{Func_trait, Memset, VModule, Vset};
use vcore::stmt::{Nonedge, Posedge, SetEqual, func};

#[test]
fn empty_module_text() {
    let mut m = VModule::new("top");
    assert_eq!(m.get_code(), " ");
    let text = m.endmodule();
    assert_eq!(text, "module top (\n);\n\nendmodule\n");
    assert_eq!(m.get_code(), text);
}

#[test]
fn endmodule_twice_gives_the_same_text() {
    let mut m = VModule::new("twice");
    let a = m.Input("a", 1);
    let y = m.Output("y", 1);
    m.Assign(y._e(a));
    let first = m.endmodule();
    let second = m.endmodule();
    assert_eq!(first, second);
    assert_eq!(m.get_code(), first);
}

#[test]
fn params_ports_locals_and_assignments() {
    let mut m = VModule::new("counter");
    m.Param("WIDTH", 8);
    let _clk = m.Input("clk", 1);
    let _rst = m.Input("rst", 1);
    let out = m.Output("cnt", 8);
    let r = m.Reg("r_cnt", 8);
    m.Assign(out._e(r));
    let text = m.endmodule();
    assert_eq!(
        text,
        "module counter #(\n    parameter WIDTH = 8\n)\n(\n    input  clk,\n    input  rst,\n    output [7:0] cnt\n);\n    // ----Generate Local Parts----\n\n    reg [7:0] r_cnt;\n\n    // ----Generate Assign Compornent----\n\n    assign cnt = r_cnt;\n\n\nendmodule\n"
    );
}

#[test]
fn two_parameters_are_separated_by_a_comma() {
    let mut m = VModule::new("p");
    m.Param("A", 1);
    m.Param("B", -2);
    let text = m.endmodule();
    assert_eq!(
        text,
        "module p #(\n    parameter A = 1,\n    parameter B = -2\n)\n(\n);\n\nendmodule\n"
    );
}

#[test]
fn inout_and_local_parameter() {
    let mut m = VModule::new("io");
    m.Inout("sda", 1);
    m.LParam("DEPTH", 16);
    m.Wire("bus", 32);
    let text = m.endmodule();
    assert_eq!(
        text,
        "module io (\n    inout  sda\n);\n    // ----Generate Local Parts----\n\n    localparam DEPTH = 16;\n    wire [31:0] bus;\n\nendmodule\n"
    );
}

#[test]
fn width_given_by_a_width_parameter() {
    let mut v = wrVar::new();
    v.Width("W");
    let w = _V(v);
    let mut m = VModule::new("wp");
    m.Wire("bus", w);
    let p = m.Param("N", 4);
    m.Wire("plain", p);
    let text = m.endmodule();
    assert_eq!(
        text,
        "module wp #(\n    parameter N = 4\n)\n(\n);\n    // ----Generate Local Parts----\n\n    wire [W-1:0] bus;\n    wire  plain;\n\nendmodule\n"
    );
}

#[test]
fn memory_sized_by_parameters() {
    let mut m = VModule::new("ram");
    let w = m.Param("WIDTH", 8);
    let d = m.Param("DEPTH", 256);
    m.Mem("mem", (w, d));
    let locals = m.out_l_param();
    assert_eq!(locals.len(), 1);
    assert_eq!(locals[0].getName(), "mem");
    assert_eq!(locals[0].getWP(), "WIDTH");
    assert_eq!(locals[0].getLP(), "DEPTH");
    assert!(locals[0].getReg());
    let text = m.endmodule();
    assert!(text.contains("    reg [WIDTH-1:0] mem [DEPTH-1:0];\n"));
}

#[test]
fn always_block_with_if_and_else() {
    let mut m = VModule::new("blink");
    let clk = m.Input("clk", 1);
    let rst = m.Input("rst", 1);
    let led = m.Reg_Output("led", 1);
    let mut al = Posedge(clk);
    al.non();
    al.If(rst, Form(_Veq(led.clone(), _Num(0))));
    al.Else(Form(_Veq(led.clone(), _Num(1))));
    m.Always(al);
    let text = m.endmodule();
    assert_eq!(
        text,
        "module blink (\n    input  clk,\n    input  rst,\n    output reg  led\n);\n\n    // ----Generate Always Block----\n\n    always@(posedge clk) begin\n        if(rst) begin\n            led <= 0;\n        end\n        else begin\n            led <= 1;\n        end\n    end\n\nendmodule\n"
    );
}

#[test]
fn always_block_with_case_and_default() {
    let mut m = VModule::new("mux");
    let sel = m.Input("sel", 2);
    let y = m.Reg_Output("y", 8);
    let mut al = Nonedge();
    al.Case(sel);
    al.S(_Num(0), Form(_Veq(y.clone(), _Num(1))));
    al.Default(Form(_Veq(y.clone(), _Num(2))).Form(_Veq(y.clone(), _Num(3))));
    m.Always(al);
    let text = m.endmodule();
    assert_eq!(
        text,
        "module mux (\n    input [1:0] sel,\n    output reg [7:0] y\n);\n\n    // ----Generate Always Block----\n\n    always@() begin\n        case (sel)\n            0 :y = 1;\n            default  :begin \n                y = 2;\n                y = 3;\n            end \n        endcase\n    end\n\nendmodule\n"
    );
}

#[test]
fn function_with_if_and_else() {
    let mut m = VModule::new("f");
    let mut f = func("inc", 8);
    let a = f.Input("a", 8);
    let own = f.own();
    f.If(_Eq(a.clone(), _Num(0)), Form(_Veq(own.clone(), _Num(1))));
    f.Else(Form(_Veq(own.clone(), _Add(a.clone(), _Num(1)))));
    m.Function(&f);
    assert_eq!(m.out_func_name(), vec!["inc".to_string()]);
    m.Function(f);
    assert_eq!(m.out_func_name().len(), 2);
    let text = m.endmodule();
    let block = "\n    function [7:0] inc(\n        input [7:0]a\n    );\n        if(a==0) begin\n            inc <= 1;\n        end\n        else begin\n            inc <= a+1;\n        end\n    endfunction\n\n";
    let expected = format!(
        "module f (\n);\n\n    // ----Generate Function Block----\n{}{}\nendmodule\n",
        block, block
    );
    assert_eq!(text, expected);
}

#[test]
fn inline_text_is_kept_with_a_blank_line() {
    let mut m = VModule::new("inl");
    m.Inline("    // hand written");
    let text = m.endmodule();
    assert_eq!(
        text,
        "module inl (\n);\n\n    // ----Extra Component Set----\n\n    // hand written\n\n\nendmodule\n"
    );
}

#[test]
fn getters_return_what_was_added() {
    let mut m = VModule::new("g");
    assert_eq!(m.get_mod_name(), "g");
    let a = m.Input("a", 4);
    let b = m.Output("b", 4);
    m.Param("P", 3);
    m.Reg("r", 2);
    m.Assign(b._e(a));
    let ports = m.out_port();
    assert_eq!(ports.len(), 2);
    assert_eq!(ports[0].getName(), "a");
    assert_eq!(ports[0].getWidth(), 4);
    assert_eq!(ports[1].getName(), "b");
    let params = m.out_param();
    assert_eq!(params.len(), 1);
    assert_eq!(params[0].getValue(), 3);
    let locals = m.out_l_param();
    assert_eq!(locals.len(), 1);
    assert!(locals[0].getReg());
    let assigns = m.out_assign();
    assert_eq!(assigns.len(), 1);
    assert_eq!(m.out_always().len(), 0);
}
