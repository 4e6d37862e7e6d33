use vcore::ast::E;
use vcore::axi::{
    AXIS_Lite_new, AXIS_RegControl, AXIS_new, AXIS_readcontrol, AXI_S_IF_LocalWrite, AXI_S_IF_Set,
};
use vcore::expr::_StrOut;
use vcore::module::{AXI_trait, VModule, Vset};

fn name_of(e: &E) -> String {
    match e {
        E::Ldc(w) => w.getName(),
        _ => "Null".to_string(),
    }
}

#[test]
fn lite_port_with_two_registers() {
    let mut m = VModule::new("regs");
    let clk = m.Input("clk", 1);
    let rst = m.Input("rst", 1);
    let mut a = AXIS_Lite_new(clk, rst);
    a.OrderRegSet(2);
    m.AXI(a);
    let text = m.endmodule();
    // ports: address width 3 for 2 registers (2^3 >= 2 * 4 - 1)
    assert!(text.contains("(\n    input  clk,\n    input  rst,\n    output  o_s_arready0,\n    input  i_s_arvalid0,\n    input [2:0] i_s_araddr0,\n    input [2:0] i_s_arprot0,\n    output [31:0] o_s_rdata0,\n"));
    assert!(text.contains("    input  i_s_bready0\n);\n"));
    // wires, registers, and the port's registers
    assert!(text.contains("    reg  r_arready0;\n    wire  w_arvalid0;\n    reg [2:0] r_araddr0;\n"));
    assert!(text.contains("    wire [3:0] r_wstrb0;\n"));
    assert!(text.contains("    wire  w_bready0;\n    reg [31:0] slv_reg0;\n    reg [31:0] slv_reg1;\n"));
    // connections
    assert!(text.contains("    assign o_s_arready0 = r_arready0;\n    assign w_arvalid0 = i_s_arvalid0;\n"));
    assert!(text.contains("    assign o_s_rresp0 = 0;\n"));
    assert!(text.contains("    assign w_bready0 = i_s_bready0;\n\n"));
    // the port's logic
    assert!(text.contains("\n    // ----Extra Component Set----\n\n    // AXI Lite Slave Port : Number 0\n    reg r_en0;\n"));
    assert!(text.contains("            slv_reg0 <= 32'd0;\n            slv_reg1 <= 32'd0;\n"));
    assert!(text.contains("                case ( r_awaddr0[2:2] )\n    // generate write register\n                    1'h00 : begin\n                        if ( r_wstrb0[0] == 1'b1 ) slv_reg0 <= w_wdata0[7:0];\n"));
    assert!(text.contains("                    1'h01 : begin\n                        if ( r_wstrb0[0] == 1'b1 ) slv_reg1 <= w_wdata0[7:0];\n                        if ( r_wstrb0[1] == 1'b1 ) slv_reg1 <= w_wdata0[15:8];\n                        if ( r_wstrb0[2] == 1'b1 ) slv_reg1 <= w_wdata0[23:16];\n                        if ( r_wstrb0[3] == 1'b1 ) slv_reg1 <= w_wdata0[31:24];\n                    end\n"));
    assert!(text.contains("                    default: begin\n                        slv_reg0 <= slv_reg0;\n                        slv_reg1 <= slv_reg1;\n                    end\n                endcase\n            end\n    // Local write en\n        end\n    end\n\n"));
    assert!(text.contains("                case( r_araddr0[2:2] )\n                    1'h00 : r_rdata0 <= slv_reg0;\n                    1'h01 : r_rdata0 <= slv_reg1;\n                    default: r_rdata0 <= 32'hDEAD_DEAD;\n                endcase\n"));
    assert!(text.ends_with("            end\n        end\n    end\n\n\nendmodule\n"));
}

#[test]
fn lite_address_width_grows_with_the_registers() {
    let mut m = VModule::new("wide");
    let clk = m.Input("clk", 1);
    let rst = m.Input("rst", 1);
    let mut a = AXIS_Lite_new(clk, rst);
    a.OrderRegSet(8);
    m.AXI(a);
    let text = m.endmodule();
    // 8 registers: 8 * 4 - 1 = 31, so 5 bits (2^5 = 32)
    assert!(text.contains("    input [4:0] i_s_araddr0,\n"));
    assert!(text.contains("                case ( r_awaddr0[4:2] )\n"));
    assert!(text.contains("                    3'h07 : r_rdata0 <= slv_reg7;\n"));
}

#[test]
fn second_lite_port_is_numbered_one() {
    let mut m = VModule::new("two");
    let clk = m.Input("clk", 1);
    let rst = m.Input("rst", 1);
    let mut a = AXIS_Lite_new(clk.clone(), rst.clone());
    a.NamedRegSet("ctrl");
    let mut b = AXIS_Lite_new(clk, rst);
    b.NamedRegSet("stat");
    m.AXI(a);
    m.AXI(b);
    let text = m.endmodule();
    assert!(text.contains("    output  o_s_arready1,\n"));
    assert!(text.contains("    // AXI Lite Slave Port : Number 1\n"));
    assert!(text.contains("                    0'h00 : r_rdata1 <= stat;\n"));
}

#[test]
fn named_register_is_found_again() {
    let mut a = AXIS_Lite_new(Box::new(E::Null), Box::new(E::Null));
    a.NamedRegSet("ctrl");
    a.NamedRegSet("data");
    assert_eq!(name_of(&a.NamedReg("data")), "data");
    assert_eq!(name_of(&a.NamedReg("ctrl")), "ctrl");
    assert!(matches!(*a.NamedReg("none"), E::Null));
    assert_eq!(name_of(&a.OrderReg(1)), "data");
}

#[test]
fn numbered_registers_follow_named_ones() {
    let mut a = AXIS_Lite_new(Box::new(E::Null), Box::new(E::Null));
    a.NamedRegSet("first");
    a.OrderRegSet(3);
    assert_eq!(name_of(&a.OrderReg(0)), "first");
    assert_eq!(name_of(&a.OrderReg(1)), "slv_reg0");
    assert_eq!(name_of(&a.OrderReg(3)), "slv_reg2");
}

#[test]
fn local_write_of_the_current_register() {
    let mut m = VModule::new("lw");
    let clk = m.Input("clk", 1);
    let rst = m.Input("rst", 1);
    let en = m.Input("en", 1);
    let data = m.Input("data", 32);
    let mut a = AXIS_Lite_new(clk, rst);
    a.OrderRegSet(2);
    a.RegWrite(en, data);
    m.AXI(a);
    let text = m.endmodule();
    assert!(text.contains("    // Local write en\n\n            if( en ) begin \n                    slv_reg1 <= data;\n            end\n        end\n    end\n\n"));
}

#[test]
fn local_write_by_numbers() {
    let mut a = AXIS_Lite_new(Box::new(E::Null), Box::new(E::Null));
    a.NamedRegSet("r");
    a.RegWrite(1, 7);
    let mut m = VModule::new("n");
    m.AXI(a);
    let text = m.endmodule();
    assert!(text.contains("\n            if( 1 ) begin \n                    r <= 7;\n            end\n"));
}

#[test]
fn slave_port_with_memory() {
    let mut m = VModule::new("mem");
    let clk = m.Input("clk", 1);
    let rst = m.Input("rst", 1);
    let mut s = AXIS_new(clk, rst);
    s.OrderRegSet(16);
    let (rd, wr, wen, addr) = s.mem_if();
    assert_eq!(_StrOut(rd), "axis_read");
    assert_eq!(_StrOut(wr), "axis_write");
    assert_eq!(_StrOut(wen), "axis_wen");
    assert_eq!(_StrOut(addr), "axis_addr");
    m.AXI(s);
    let text = m.endmodule();
    // ports: 16 * 4 - 1 = 63, so 6 address bits
    assert!(text.contains("(\n    input  clk,\n    input  rst,\n    input  i_saxi_arid,\n    output  o_saxi_arready,\n    input  i_saxi_arvalid,\n    input [5:0] i_saxi_araddr,\n    input [7:0] i_saxi_arlen,\n"));
    assert!(text.contains("    input  i_saxi_bready\n);\n"));
    assert!(text.contains("    reg  r_axi_rlast;\n    wire [31:0] axis_write;\n    reg [31:0] axis_read;\n    wire [31:0] axis_addr;\n    wire  axis_wen;\n"));
    assert!(text.contains("    assign o_saxi_rid = i_saxi_arid;\n    assign o_saxi_rresp = 0;\n"));
    assert!(text.contains("    assign o_saxi_bid = i_saxi_awid;\n    assign o_saxi_bresp = 0;\n"));
    // the port's logic: 16 words, 4 address bits
    assert!(text.contains("    // AXI-full Slave Port\n\n"));
    assert!(text.contains("    reg [31:0] axi_mem [0:15];\n    always @( posedge clk ) begin\n"));
    assert!(text.contains("                        r_axi_awaddr[5:2] <= r_axi_awaddr[5:2] + 1;\n"));
    assert!(text.contains("\n    always @( posedge clk ) begin\n        r_axi_rdata <= axi_mem[r_axi_araddr[5:2]];\n        axis_read <= axi_mem[axis_addr];\n    end\n\n\nendmodule\n"));
}

#[test]
fn slave_port_reading_a_signal() {
    let mut m = VModule::new("rd");
    let clk = m.Input("clk", 1);
    let rst = m.Input("rst", 1);
    let data = m.Reg("data", 32);
    let mut s = AXIS_new(clk, rst);
    s.OrderRegSet(4);
    s.read(data);
    m.AXI(s);
    let text = m.endmodule();
    assert!(!text.contains("axis_read"));
    assert!(text.contains("    assign axis_wen = r_axi_wready & w_axi_wvalid;\n    assign axis_addr = (r_axi_awv_awr_flag) ? r_axi_awaddr[3:2] : \n                       (r_axi_arv_arr_flag) ? r_axi_araddr[3:2] : 0;    // awready - awv_awr_flag generating\n"));
    assert!(text.contains("\n    always @(*) begin\n        r_axi_rdata <= data;\n    end\n\n    assign axis_write = w_axi_wdata;\n"));
}

#[test]
fn slave_port_reading_the_local_wire() {
    let mut m = VModule::new("loc");
    let clk = m.Input("clk", 1);
    let rst = m.Input("rst", 1);
    let mut s = AXIS_new(clk, rst);
    s.OrderRegSet(4);
    let w = s.write();
    let a = s.addr();
    let e = s.wen();
    assert_eq!(_StrOut(w), "axis_write");
    assert_eq!(_StrOut(a), "axis_addr");
    assert_eq!(_StrOut(e), "axis_wen");
    m.AXI(s);
    let text = m.endmodule();
    assert!(text.contains("    wire [31:0] axis_read;\n    wire [31:0] axis_write;\n"));
    assert!(text.contains("        r_axi_rdata <= axis_read;\n"));
}

#[test]
fn slave_port_reading_a_number_shows_no_name() {
    let mut m = VModule::new("num");
    let clk = m.Input("clk", 1);
    let rst = m.Input("rst", 1);
    let mut s = AXIS_new(clk, rst);
    s.read(5);
    m.AXI(s);
    let text = m.endmodule();
    assert!(text.contains("        r_axi_rdata <= Null;\n"));
}
