//! The fixed text of the AXI slave ports, piece by piece.

use vstd::prelude::*;

verus! {

/// The declarations of an AXI4-Lite slave port and the start of its write-address logic.
pub open spec fn lite_head(c: Seq<char>, clk: Seq<char>, rst: Seq<char>) -> Seq<char> {
    "    // AXI Lite Slave Port : Number "@
        + c
        + "\n"@
        + "    reg r_en"@
        + c
        + ";\n"@
        + "    wire w_wdata_en"@
        + c
        + ";\n"@
        + "    wire w_rdata_en"@
        + c
        + ";\n"@
        + "\n"@
        + "    // wready - waddress generating\n"@
        + "    always @( posedge "@
        + clk
        + " ) begin\n"@
        + "        if( "@
        + rst
        + " ) begin\n"@
        + "            r_wready"@
        + c
        + " <= 1'b0;\n"@
        + "            r_awready"@
        + c
        + " <= 1'b0;\n"@
        + "            r_en"@
        + c
        + " <= 1'b1;\n"@
        + "            r_awaddr"@
        + c
        + " <= 0;\n"@
        + "        end else begin\n"@
}

pub(crate) fn push_lite_head(st: &mut String, c: &str, clk: &str, rst: &str)
    ensures
        final(st)@ == old(st)@ + lite_head(c@, clk@, rst@),
{
    let mut t = String::from_str("    // AXI Lite Slave Port : Number ");
    t.append(c);
    t.append("\n");
    t.append("    reg r_en");
    t.append(c);
    t.append(";\n");
    t.append("    wire w_wdata_en");
    t.append(c);
    t.append(";\n");
    t.append("    wire w_rdata_en");
    t.append(c);
    t.append(";\n");
    t.append("\n");
    t.append("    // wready - waddress generating\n");
    t.append("    always @( posedge ");
    t.append(clk);
    t.append(" ) begin\n");
    t.append("        if( ");
    t.append(rst);
    t.append(" ) begin\n");
    t.append("            r_wready");
    t.append(c);
    t.append(" <= 1'b0;\n");
    t.append("            r_awready");
    t.append(c);
    t.append(" <= 1'b0;\n");
    t.append("            r_en");
    t.append(c);
    t.append(" <= 1'b1;\n");
    t.append("            r_awaddr");
    t.append(c);
    t.append(" <= 0;\n");
    t.append("        end else begin\n");
    st.append(t.as_str());
}

/// The write-ready and write-address logic of an AXI4-Lite slave port.
pub open spec fn lite_waddr(c: Seq<char>) -> Seq<char> {
    "            if( ~r_wready"@
        + c
        + " && w_awvalid"@
        + c
        + " && w_wvalid"@
        + c
        + " && r_en"@
        + c
        + " ) begin\n"@
        + "                r_wready"@
        + c
        + " <= 1'b1;\n"@
        + "            end else begin\n"@
        + "                r_wready"@
        + c
        + " <= 1'b0;\n"@
        + "            end\n"@
        + "\n"@
        + "            if( ~r_awready"@
        + c
        + " && w_awvalid"@
        + c
        + " && w_wvalid"@
        + c
        + " && r_en"@
        + c
        + " ) begin\n"@
        + "                r_awready"@
        + c
        + " <= 1'b1;\n"@
        + "                r_en"@
        + c
        + " <= 1'b0;\n"@
        + "                r_awaddr"@
        + c
        + " <= i_s_awaddr"@
        + c
        + ";\n"@
        + "            end else begin\n"@
        + "                if( w_bready"@
        + c
        + " && r_bvalid"@
        + c
        + " ) begin\n"@
        + "                    r_en"@
        + c
        + " <= 1'b1;\n"@
        + "                end\n"@
        + "                r_awready"@
        + c
        + " <= 1'b0;\n"@
        + "            end\n"@
        + "        end\n"@
        + "    end\n"@
        + "\n"@
}

pub(crate) fn push_lite_waddr(st: &mut String, c: &str)
    ensures
        final(st)@ == old(st)@ + lite_waddr(c@),
{
    let mut t = String::from_str("            if( ~r_wready");
    t.append(c);
    t.append(" && w_awvalid");
    t.append(c);
    t.append(" && w_wvalid");
    t.append(c);
    t.append(" && r_en");
    t.append(c);
    t.append(" ) begin\n");
    t.append("                r_wready");
    t.append(c);
    t.append(" <= 1'b1;\n");
    t.append("            end else begin\n");
    t.append("                r_wready");
    t.append(c);
    t.append(" <= 1'b0;\n");
    t.append("            end\n");
    t.append("\n");
    t.append("            if( ~r_awready");
    t.append(c);
    t.append(" && w_awvalid");
    t.append(c);
    t.append(" && w_wvalid");
    t.append(c);
    t.append(" && r_en");
    t.append(c);
    t.append(" ) begin\n");
    t.append("                r_awready");
    t.append(c);
    t.append(" <= 1'b1;\n");
    t.append("                r_en");
    t.append(c);
    t.append(" <= 1'b0;\n");
    t.append("                r_awaddr");
    t.append(c);
    t.append(" <= i_s_awaddr");
    t.append(c);
    t.append(";\n");
    t.append("            end else begin\n");
    t.append("                if( w_bready");
    t.append(c);
    t.append(" && r_bvalid");
    t.append(c);
    t.append(" ) begin\n");
    t.append("                    r_en");
    t.append(c);
    t.append(" <= 1'b1;\n");
    t.append("                end\n");
    t.append("                r_awready");
    t.append(c);
    t.append(" <= 1'b0;\n");
    t.append("            end\n");
    t.append("        end\n");
    t.append("    end\n");
    t.append("\n");
    st.append(t.as_str());
}

/// The write-enable assignment and the start of the write-data block of an AXI4-Lite slave port.
pub open spec fn lite_wdata_head(c: Seq<char>, clk: Seq<char>, rst: Seq<char>) -> Seq<char> {
    "    assign w_wdata_en"@
        + c
        + " = r_awready"@
        + c
        + " && r_wready"@
        + c
        + " && w_awvalid"@
        + c
        + " && w_wvalid"@
        + c
        + ";\n"@
        + "\n"@
        + "    // wdata generating\n"@
        + "    always@( posedge "@
        + clk
        + " ) begin\n"@
        + "        if( "@
        + rst
        + " ) begin\n"@
}

pub(crate) fn push_lite_wdata_head(st: &mut String, c: &str, clk: &str, rst: &str)
    ensures
        final(st)@ == old(st)@ + lite_wdata_head(c@, clk@, rst@),
{
    let mut t = String::from_str("    assign w_wdata_en");
    t.append(c);
    t.append(" = r_awready");
    t.append(c);
    t.append(" && r_wready");
    t.append(c);
    t.append(" && w_awvalid");
    t.append(c);
    t.append(" && w_wvalid");
    t.append(c);
    t.append(";\n");
    t.append("\n");
    t.append("    // wdata generating\n");
    t.append("    always@( posedge ");
    t.append(clk);
    t.append(" ) begin\n");
    t.append("        if( ");
    t.append(rst);
    t.append(" ) begin\n");
    st.append(t.as_str());
}

/// The reset of one register of an AXI4-Lite slave port.
pub open spec fn lite_reset_reg(name: Seq<char>) -> Seq<char> {
    "            "@
        + name
        + " <= 32'd0;\n"@
}

pub(crate) fn push_lite_reset_reg(st: &mut String, name: &str)
    ensures
        final(st)@ == old(st)@ + lite_reset_reg(name@),
{
    let mut t = String::from_str("            ");
    t.append(name);
    t.append(" <= 32'd0;\n");
    st.append(t.as_str());
}

/// The start of the register-write `case` of an AXI4-Lite slave port.
pub open spec fn lite_case_head(c: Seq<char>, w1: Seq<char>) -> Seq<char> {
    "        end\n"@
        + "        else begin\n"@
        + "            if( w_wdata_en"@
        + c
        + " == 1'd1 ) begin\n"@
        + "                case ( r_awaddr"@
        + c
        + "["@
        + w1
        + ":2] )\n"@
        + "    // generate write register\n"@
}

pub(crate) fn push_lite_case_head(st: &mut String, c: &str, w1: &str)
    ensures
        final(st)@ == old(st)@ + lite_case_head(c@, w1@),
{
    let mut t = String::from_str("        end\n");
    t.append("        else begin\n");
    t.append("            if( w_wdata_en");
    t.append(c);
    t.append(" == 1'd1 ) begin\n");
    t.append("                case ( r_awaddr");
    t.append(c);
    t.append("[");
    t.append(w1);
    t.append(":2] )\n");
    t.append("    // generate write register\n");
    st.append(t.as_str());
}

/// The byte-wise write of one register of an AXI4-Lite slave port.
pub open spec fn lite_write_reg(w2: Seq<char>, k: Seq<char>, c: Seq<char>, name: Seq<char>) -> Seq<char> {
    "                    "@
        + w2
        + "'h"@
        + k
        + " : begin\n"@
        + "                        if ( r_wstrb"@
        + c
        + "[0] == 1'b1 ) "@
        + name
        + " <= w_wdata"@
        + c
        + "[7:0];\n"@
        + "                        if ( r_wstrb"@
        + c
        + "[1] == 1'b1 ) "@
        + name
        + " <= w_wdata"@
        + c
        + "[15:8];\n"@
        + "                        if ( r_wstrb"@
        + c
        + "[2] == 1'b1 ) "@
        + name
        + " <= w_wdata"@
        + c
        + "[23:16];\n"@
        + "                        if ( r_wstrb"@
        + c
        + "[3] == 1'b1 ) "@
        + name
        + " <= w_wdata"@
        + c
        + "[31:24];\n"@
        + "                    end\n"@
}

pub(crate) fn push_lite_write_reg(st: &mut String, w2: &str, k: &str, c: &str, name: &str)
    ensures
        final(st)@ == old(st)@ + lite_write_reg(w2@, k@, c@, name@),
{
    let mut t = String::from_str("                    ");
    t.append(w2);
    t.append("'h");
    t.append(k);
    t.append(" : begin\n");
    t.append("                        if ( r_wstrb");
    t.append(c);
    t.append("[0] == 1'b1 ) ");
    t.append(name);
    t.append(" <= w_wdata");
    t.append(c);
    t.append("[7:0];\n");
    t.append("                        if ( r_wstrb");
    t.append(c);
    t.append("[1] == 1'b1 ) ");
    t.append(name);
    t.append(" <= w_wdata");
    t.append(c);
    t.append("[15:8];\n");
    t.append("                        if ( r_wstrb");
    t.append(c);
    t.append("[2] == 1'b1 ) ");
    t.append(name);
    t.append(" <= w_wdata");
    t.append(c);
    t.append("[23:16];\n");
    t.append("                        if ( r_wstrb");
    t.append(c);
    t.append("[3] == 1'b1 ) ");
    t.append(name);
    t.append(" <= w_wdata");
    t.append(c);
    t.append("[31:24];\n");
    t.append("                    end\n");
    st.append(t.as_str());
}

/// The start of the default branch of the register-write `case`.
pub open spec fn lite_default_head() -> Seq<char> {
    "                    default: begin\n"@
}

pub(crate) fn push_lite_default_head(st: &mut String)
    ensures
        final(st)@ == old(st)@ + lite_default_head(),
{
    let mut t = String::from_str("                    default: begin\n");
    st.append(t.as_str());
}

/// One register kept as it is in the default branch.
pub open spec fn lite_default_reg(name: Seq<char>) -> Seq<char> {
    "                        "@
        + name
        + " <= "@
        + name
        + ";\n"@
}

pub(crate) fn push_lite_default_reg(st: &mut String, name: &str)
    ensures
        final(st)@ == old(st)@ + lite_default_reg(name@),
{
    let mut t = String::from_str("                        ");
    t.append(name);
    t.append(" <= ");
    t.append(name);
    t.append(";\n");
    st.append(t.as_str());
}

/// The end of the register-write `case` and the start of the local writes.
pub open spec fn lite_local_head() -> Seq<char> {
    "                    end\n"@
        + "                endcase\n"@
        + "            end\n"@
        + "    // Local write en\n"@
}

pub(crate) fn push_lite_local_head(st: &mut String)
    ensures
        final(st)@ == old(st)@ + lite_local_head(),
{
    let mut t = String::from_str("                    end\n");
    t.append("                endcase\n");
    t.append("            end\n");
    t.append("    // Local write en\n");
    st.append(t.as_str());
}

/// One write of a register from the local side.
pub open spec fn lite_local_write(en: Seq<char>, name: Seq<char>, data: Seq<char>) -> Seq<char> {
    "\n"@
        + "            if( "@
        + en
        + " ) begin \n"@
        + "                    "@
        + name
        + " <= "@
        + data
        + ";\n"@
        + "            end\n"@
}

pub(crate) fn push_lite_local_write(st: &mut String, en: &str, name: &str, data: &str)
    ensures
        final(st)@ == old(st)@ + lite_local_write(en@, name@, data@),
{
    let mut t = String::from_str("\n");
    t.append("            if( ");
    t.append(en);
    t.append(" ) begin \n");
    t.append("                    ");
    t.append(name);
    t.append(" <= ");
    t.append(data);
    t.append(";\n");
    t.append("            end\n");
    st.append(t.as_str());
}

/// The end of the write-data block and the write-response and read-address logic.
pub open spec fn lite_resp(c: Seq<char>, clk: Seq<char>, rst: Seq<char>) -> Seq<char> {
    "        end\n"@
        + "    end\n"@
        + "\n"@
        + "    // wready - waddress generating\n"@
        + "    always @( posedge "@
        + clk
        + " ) begin\n"@
        + "        if( "@
        + rst
        + " ) begin\n"@
        + "            r_bvalid"@
        + c
        + " <= 1'b0;\n"@
        + "            r_arready"@
        + c
        + " <= 1'b0;\n"@
        + "            r_araddr"@
        + c
        + " <= 0;\n"@
        + "            r_rvalid"@
        + c
        + " <= 1'b0;\n"@
        + "        end else begin\n"@
}

pub(crate) fn push_lite_resp(st: &mut String, c: &str, clk: &str, rst: &str)
    ensures
        final(st)@ == old(st)@ + lite_resp(c@, clk@, rst@),
{
    let mut t = String::from_str("        end\n");
    t.append("    end\n");
    t.append("\n");
    t.append("    // wready - waddress generating\n");
    t.append("    always @( posedge ");
    t.append(clk);
    t.append(" ) begin\n");
    t.append("        if( ");
    t.append(rst);
    t.append(" ) begin\n");
    t.append("            r_bvalid");
    t.append(c);
    t.append(" <= 1'b0;\n");
    t.append("            r_arready");
    t.append(c);
    t.append(" <= 1'b0;\n");
    t.append("            r_araddr");
    t.append(c);
    t.append(" <= 0;\n");
    t.append("            r_rvalid");
    t.append(c);
    t.append(" <= 1'b0;\n");
    t.append("        end else begin\n");
    st.append(t.as_str());
}

/// The write-response and read-address conditions of an AXI4-Lite slave port.
pub open spec fn lite_resp_body(c: Seq<char>) -> Seq<char> {
    "            if( r_awready"@
        + c
        + " && w_awvalid"@
        + c
        + " && ~r_bvalid"@
        + c
        + " && r_wready"@
        + c
        + " && w_wvalid"@
        + c
        + " ) begin\n"@
        + "                r_bvalid"@
        + c
        + " <= 1'b1;\n"@
        + "            end else if( w_bready"@
        + c
        + " && r_bvalid"@
        + c
        + " ) begin\n"@
        + "                r_bvalid"@
        + c
        + " <= 1'b0;\n"@
        + "            end\n"@
        + "\n"@
        + "            if( ~r_arready"@
        + c
        + " && w_arvalid"@
        + c
        + " ) begin\n"@
        + "                r_arready"@
        + c
        + " <= 1'b1;\n"@
        + "                r_araddr"@
        + c
        + " <= i_s_araddr"@
        + c
        + ";\n"@
        + "            end else begin\n"@
        + "                r_arready"@
        + c
        + " <= 1'b0;\n"@
        + "            end\n"@
        + "            if( r_arready"@
        + c
        + " && w_arvalid"@
        + c
        + " && ~r_rvalid"@
        + c
        + " ) begin\n"@
        + "                r_rvalid"@
        + c
        + " <= 1'b1;\n"@
        + "            end else if ( r_rvalid"@
        + c
        + " && w_rready"@
        + c
        + " ) begin\n"@
        + "                r_rvalid"@
        + c
        + " <= 1'b0;\n"@
        + "            end\n"@
        + "        end\n"@
        + "    end\n"@
        + "\n"@
}

pub(crate) fn push_lite_resp_body(st: &mut String, c: &str)
    ensures
        final(st)@ == old(st)@ + lite_resp_body(c@),
{
    let mut t = String::from_str("            if( r_awready");
    t.append(c);
    t.append(" && w_awvalid");
    t.append(c);
    t.append(" && ~r_bvalid");
    t.append(c);
    t.append(" && r_wready");
    t.append(c);
    t.append(" && w_wvalid");
    t.append(c);
    t.append(" ) begin\n");
    t.append("                r_bvalid");
    t.append(c);
    t.append(" <= 1'b1;\n");
    t.append("            end else if( w_bready");
    t.append(c);
    t.append(" && r_bvalid");
    t.append(c);
    t.append(" ) begin\n");
    t.append("                r_bvalid");
    t.append(c);
    t.append(" <= 1'b0;\n");
    t.append("            end\n");
    t.append("\n");
    t.append("            if( ~r_arready");
    t.append(c);
    t.append(" && w_arvalid");
    t.append(c);
    t.append(" ) begin\n");
    t.append("                r_arready");
    t.append(c);
    t.append(" <= 1'b1;\n");
    t.append("                r_araddr");
    t.append(c);
    t.append(" <= i_s_araddr");
    t.append(c);
    t.append(";\n");
    t.append("            end else begin\n");
    t.append("                r_arready");
    t.append(c);
    t.append(" <= 1'b0;\n");
    t.append("            end\n");
    t.append("            if( r_arready");
    t.append(c);
    t.append(" && w_arvalid");
    t.append(c);
    t.append(" && ~r_rvalid");
    t.append(c);
    t.append(" ) begin\n");
    t.append("                r_rvalid");
    t.append(c);
    t.append(" <= 1'b1;\n");
    t.append("            end else if ( r_rvalid");
    t.append(c);
    t.append(" && w_rready");
    t.append(c);
    t.append(" ) begin\n");
    t.append("                r_rvalid");
    t.append(c);
    t.append(" <= 1'b0;\n");
    t.append("            end\n");
    t.append("        end\n");
    t.append("    end\n");
    t.append("\n");
    st.append(t.as_str());
}

/// The start of the read-data logic of an AXI4-Lite slave port.
pub open spec fn lite_read_head(c: Seq<char>, clk: Seq<char>, rst: Seq<char>, w1: Seq<char>) -> Seq<char> {
    "    // rdata generation\n"@
        + "    assign w_rdata_en"@
        + c
        + " = r_arready"@
        + c
        + " && w_arvalid"@
        + c
        + " && ~r_rvalid"@
        + c
        + ";\n"@
        + "\n"@
        + "    always @( posedge "@
        + clk
        + " ) begin\n"@
        + "        if( "@
        + rst
        + " ) begin\n"@
        + "            r_rdata"@
        + c
        + " <= 32'd0; \n"@
        + "        end\n"@
        + "        else begin\n"@
        + "            if( w_rdata_en"@
        + c
        + " ) begin\n"@
        + "                case( r_araddr"@
        + c
        + "["@
        + w1
        + ":2] )\n"@
}

pub(crate) fn push_lite_read_head(st: &mut String, c: &str, clk: &str, rst: &str, w1: &str)
    ensures
        final(st)@ == old(st)@ + lite_read_head(c@, clk@, rst@, w1@),
{
    let mut t = String::from_str("    // rdata generation\n");
    t.append("    assign w_rdata_en");
    t.append(c);
    t.append(" = r_arready");
    t.append(c);
    t.append(" && w_arvalid");
    t.append(c);
    t.append(" && ~r_rvalid");
    t.append(c);
    t.append(";\n");
    t.append("\n");
    t.append("    always @( posedge ");
    t.append(clk);
    t.append(" ) begin\n");
    t.append("        if( ");
    t.append(rst);
    t.append(" ) begin\n");
    t.append("            r_rdata");
    t.append(c);
    t.append(" <= 32'd0; \n");
    t.append("        end\n");
    t.append("        else begin\n");
    t.append("            if( w_rdata_en");
    t.append(c);
    t.append(" ) begin\n");
    t.append("                case( r_araddr");
    t.append(c);
    t.append("[");
    t.append(w1);
    t.append(":2] )\n");
    st.append(t.as_str());
}

/// The read of one register of an AXI4-Lite slave port.
pub open spec fn lite_read_reg(w2: Seq<char>, k: Seq<char>, c: Seq<char>, name: Seq<char>) -> Seq<char> {
    "                    "@
        + w2
        + "'h"@
        + k
        + " : r_rdata"@
        + c
        + " <= "@
        + name
        + ";\n"@
}

pub(crate) fn push_lite_read_reg(st: &mut String, w2: &str, k: &str, c: &str, name: &str)
    ensures
        final(st)@ == old(st)@ + lite_read_reg(w2@, k@, c@, name@),
{
    let mut t = String::from_str("                    ");
    t.append(w2);
    t.append("'h");
    t.append(k);
    t.append(" : r_rdata");
    t.append(c);
    t.append(" <= ");
    t.append(name);
    t.append(";\n");
    st.append(t.as_str());
}

/// The end of the read-data logic of an AXI4-Lite slave port.
pub open spec fn lite_tail(c: Seq<char>) -> Seq<char> {
    "                    default: r_rdata"@
        + c
        + " <= 32'hDEAD_DEAD;\n"@
        + "                endcase\n"@
        + "            end\n"@
        + "        end\n"@
        + "    end\n"@
        + "\n"@
}

pub(crate) fn push_lite_tail(st: &mut String, c: &str)
    ensures
        final(st)@ == old(st)@ + lite_tail(c@),
{
    let mut t = String::from_str("                    default: r_rdata");
    t.append(c);
    t.append(" <= 32'hDEAD_DEAD;\n");
    t.append("                endcase\n");
    t.append("            end\n");
    t.append("        end\n");
    t.append("    end\n");
    t.append("\n");
    st.append(t.as_str());
}

/// The declarations of an AXI4 slave port.
pub open spec fn axis_head() -> Seq<char> {
    "    // AXI-full Slave Port\n"@
        + "\n"@
        + "    reg            r_axi_awv_awr_flag;\n"@
        + "    reg            r_axi_arv_arr_flag;\n"@
        + "    reg    [7:0]   r_axi_awlen_count;\n"@
        + "    reg    [7:0]   r_axi_arlen_count;\n"@
        + "    reg    [1:0]   r_axi_arburst;\n"@
        + "    reg    [1:0]   r_axi_awburst;\n"@
        + "\n"@
}

pub(crate) fn push_axis_head(st: &mut String)
    ensures
        final(st)@ == old(st)@ + axis_head(),
{
    let mut t = String::from_str("    // AXI-full Slave Port\n");
    t.append("\n");
    t.append("    reg            r_axi_awv_awr_flag;\n");
    t.append("    reg            r_axi_arv_arr_flag;\n");
    t.append("    reg    [7:0]   r_axi_awlen_count;\n");
    t.append("    reg    [7:0]   r_axi_arlen_count;\n");
    t.append("    reg    [1:0]   r_axi_arburst;\n");
    t.append("    reg    [1:0]   r_axi_awburst;\n");
    t.append("\n");
    st.append(t.as_str());
}

/// The memory of an AXI4 slave port and its write logic.
pub open spec fn axis_mem(last: Seq<char>, clk: Seq<char>) -> Seq<char> {
    "    reg [31:0] axi_mem [0:"@
        + last
        + "];\n"@
        + "    always @( posedge "@
        + clk
        + " ) begin\n"@
        + "        if ( r_axi_wready & w_axi_wvalid ) begin\n"@
        + "            axi_mem[r_axi_awaddr] <= w_axi_wdata;\n"@
        + "        end else if ( axis_wen ) begin\n"@
        + "            axi_mem[axis_addr] <= axis_write;\n"@
        + "        end\n"@
        + "    end\n"@
        + "\n"@
}

pub(crate) fn push_axis_mem(st: &mut String, last: &str, clk: &str)
    ensures
        final(st)@ == old(st)@ + axis_mem(last@, clk@),
{
    let mut t = String::from_str("    reg [31:0] axi_mem [0:");
    t.append(last);
    t.append("];\n");
    t.append("    always @( posedge ");
    t.append(clk);
    t.append(" ) begin\n");
    t.append("        if ( r_axi_wready & w_axi_wvalid ) begin\n");
    t.append("            axi_mem[r_axi_awaddr] <= w_axi_wdata;\n");
    t.append("        end else if ( axis_wen ) begin\n");
    t.append("            axi_mem[axis_addr] <= axis_write;\n");
    t.append("        end\n");
    t.append("    end\n");
    t.append("\n");
    st.append(t.as_str());
}

/// The local write-enable and address of an AXI4 slave port without memory.
pub open spec fn axis_no_mem(w1: Seq<char>) -> Seq<char> {
    "    assign axis_wen = r_axi_wready & w_axi_wvalid;\n"@
        + "    assign axis_addr = (r_axi_awv_awr_flag) ? r_axi_awaddr["@
        + w1
        + ":2] : \n"@
        + "                       (r_axi_arv_arr_flag) ? r_axi_araddr["@
        + w1
        + ":2] : 0;"@
}

pub(crate) fn push_axis_no_mem(st: &mut String, w1: &str)
    ensures
        final(st)@ == old(st)@ + axis_no_mem(w1@),
{
    let mut t = String::from_str("    assign axis_wen = r_axi_wready & w_axi_wvalid;\n");
    t.append("    assign axis_addr = (r_axi_awv_awr_flag) ? r_axi_awaddr[");
    t.append(w1);
    t.append(":2] : \n");
    t.append("                       (r_axi_arv_arr_flag) ? r_axi_araddr[");
    t.append(w1);
    t.append(":2] : 0;");
    st.append(t.as_str());
}

/// The write-address-ready logic of an AXI4 slave port.
pub open spec fn axis_aw(clk: Seq<char>, rst: Seq<char>) -> Seq<char> {
    "    // awready - awv_awr_flag generating\n"@
        + "    always @( posedge "@
        + clk
        + " ) begin\n"@
        + "        if ( "@
        + rst
        + " ) begin\n"@
        + "            r_axi_awready <= 1'b0;\n"@
        + "            r_axi_awv_awr_flag <= 1'b0;\n"@
        + "        end else begin\n"@
        + "            if (~r_axi_awready && w_axi_awvalid && ~r_axi_awv_awr_flag && ~r_axi_arv_arr_flag ) begin\n"@
        + "                r_axi_awready <= 1'b1;\n"@
        + "            r_axi_awv_awr_flag <= 1'b1;\n"@
        + "            end else if ( w_axi_wlast && r_axi_wready ) begin\n"@
        + "                r_axi_awv_awr_flag <= 1'b0;\n"@
        + "            end else begin\n"@
        + "                r_axi_awready <= 1'b0;\n"@
        + "            end\n"@
        + "        end\n"@
        + "    end\n"@
        + "\n"@
}

pub(crate) fn push_axis_aw(st: &mut String, clk: &str, rst: &str)
    ensures
        final(st)@ == old(st)@ + axis_aw(clk@, rst@),
{
    let mut t = String::from_str("    // awready - awv_awr_flag generating\n");
    t.append("    always @( posedge ");
    t.append(clk);
    t.append(" ) begin\n");
    t.append("        if ( ");
    t.append(rst);
    t.append(" ) begin\n");
    t.append("            r_axi_awready <= 1'b0;\n");
    t.append("            r_axi_awv_awr_flag <= 1'b0;\n");
    t.append("        end else begin\n");
    t.append("            if (~r_axi_awready && w_axi_awvalid && ~r_axi_awv_awr_flag && ~r_axi_arv_arr_flag ) begin\n");
    t.append("                r_axi_awready <= 1'b1;\n");
    t.append("            r_axi_awv_awr_flag <= 1'b1;\n");
    t.append("            end else if ( w_axi_wlast && r_axi_wready ) begin\n");
    t.append("                r_axi_awv_awr_flag <= 1'b0;\n");
    t.append("            end else begin\n");
    t.append("                r_axi_awready <= 1'b0;\n");
    t.append("            end\n");
    t.append("        end\n");
    t.append("    end\n");
    t.append("\n");
    st.append(t.as_str());
}

/// The write-address logic of an AXI4 slave port.
pub open spec fn axis_waddr(clk: Seq<char>, rst: Seq<char>, w1: Seq<char>) -> Seq<char> {
    "    // waddress generation\n"@
        + "    always @( posedge "@
        + clk
        + " ) begin\n"@
        + "        if ( "@
        + rst
        + " ) begin\n"@
        + "            r_axi_awaddr <= 0;\n"@
        + "            r_axi_awlen_count <= 0;\n"@
        + "            r_axi_awburst <= 0;\n"@
        + "            r_axi_awlen <= 0;\n"@
        + "        end else begin\n"@
        + "            if ( ~r_axi_awready && w_axi_awvalid && ~r_axi_awv_awr_flag ) begin\n"@
        + "                r_axi_awaddr <= i_saxi_awaddr;\n"@
        + "                r_axi_awburst <= i_saxi_awburst;\n"@
        + "                r_axi_awlen <= i_saxi_awlen;\n"@
        + "                r_axi_awlen_count <= 0;\n"@
        + "            end else if ( ( r_axi_awlen_count <= r_axi_awlen ) && r_axi_wready && w_axi_wvalid ) begin\n"@
        + "                r_axi_awlen_count <= r_axi_awlen_count + 1;\n"@
        + "\n"@
        + "                case ( r_axi_awburst )\n"@
        + "                    2'b00: begin\n"@
        + "                        r_axi_awaddr <= r_axi_awaddr;\n"@
        + "                    end\n"@
        + "                    2'b01: begin\n"@
        + "                        r_axi_awaddr["@
        + w1
        + ":2] <= r_axi_awaddr["@
        + w1
        + ":2] + 1;\n"@
        + "                        r_axi_awaddr[1:0] <= 2'b00;\n"@
        + "                    end\n"@
        + "                    default: begin\n"@
        + "                        r_axi_awaddr <= r_axi_awaddr["@
        + w1
        + ":2] + 1;\n"@
        + "                    end\n"@
        + "                endcase\n"@
        + "            end\n"@
        + "        end\n"@
        + "    end\n"@
        + "\n"@
}

pub(crate) fn push_axis_waddr(st: &mut String, clk: &str, rst: &str, w1: &str)
    ensures
        final(st)@ == old(st)@ + axis_waddr(clk@, rst@, w1@),
{
    let mut t = String::from_str("    // waddress generation\n");
    t.append("    always @( posedge ");
    t.append(clk);
    t.append(" ) begin\n");
    t.append("        if ( ");
    t.append(rst);
    t.append(" ) begin\n");
    t.append("            r_axi_awaddr <= 0;\n");
    t.append("            r_axi_awlen_count <= 0;\n");
    t.append("            r_axi_awburst <= 0;\n");
    t.append("            r_axi_awlen <= 0;\n");
    t.append("        end else begin\n");
    t.append("            if ( ~r_axi_awready && w_axi_awvalid && ~r_axi_awv_awr_flag ) begin\n");
    t.append("                r_axi_awaddr <= i_saxi_awaddr;\n");
    t.append("                r_axi_awburst <= i_saxi_awburst;\n");
    t.append("                r_axi_awlen <= i_saxi_awlen;\n");
    t.append("                r_axi_awlen_count <= 0;\n");
    t.append("            end else if ( ( r_axi_awlen_count <= r_axi_awlen ) && r_axi_wready && w_axi_wvalid ) begin\n");
    t.append("                r_axi_awlen_count <= r_axi_awlen_count + 1;\n");
    t.append("\n");
    t.append("                case ( r_axi_awburst )\n");
    t.append("                    2'b00: begin\n");
    t.append("                        r_axi_awaddr <= r_axi_awaddr;\n");
    t.append("                    end\n");
    t.append("                    2'b01: begin\n");
    t.append("                        r_axi_awaddr[");
    t.append(w1);
    t.append(":2] <= r_axi_awaddr[");
    t.append(w1);
    t.append(":2] + 1;\n");
    t.append("                        r_axi_awaddr[1:0] <= 2'b00;\n");
    t.append("                    end\n");
    t.append("                    default: begin\n");
    t.append("                        r_axi_awaddr <= r_axi_awaddr[");
    t.append(w1);
    t.append(":2] + 1;\n");
    t.append("                    end\n");
    t.append("                endcase\n");
    t.append("            end\n");
    t.append("        end\n");
    t.append("    end\n");
    t.append("\n");
    st.append(t.as_str());
}

/// The write-ready and write-response logic of an AXI4 slave port.
pub open spec fn axis_wready(clk: Seq<char>, rst: Seq<char>) -> Seq<char> {
    "    // wready generation\n"@
        + "    always @( posedge "@
        + clk
        + " ) begin\n"@
        + "        if ( "@
        + rst
        + " ) begin\n"@
        + "            r_axi_wready <= 0;\n"@
        + "        end else begin\n"@
        + "            if ( ~r_axi_wready && w_axi_wvalid && r_axi_awv_awr_flag ) begin\n"@
        + "                r_axi_wready <= 1'b1;\n"@
        + "            end else begin\n"@
        + "                r_axi_wready <= 1'b0;\n"@
        + "            end\n"@
        + "        end\n"@
        + "    end\n"@
        + "\n"@
        + "    // write response generation\n"@
        + "    always @( posedge "@
        + clk
        + " ) begin\n"@
        + "        if ( "@
        + rst
        + " ) begin\n"@
        + "            r_axi_bvalid <= 0;\n"@
        + "        end else begin\n"@
        + "            if ( r_axi_awv_awr_flag && r_axi_wready && w_axi_wvalid && ~r_axi_bvalid && w_axi_wlast ) begin\n"@
        + "                r_axi_bvalid <= 1'b1;\n"@
        + "            end else begin\n"@
        + "                if ( w_axi_bready && r_axi_bvalid ) begin\n"@
        + "                    r_axi_bvalid <= 1'b0;\n"@
        + "                end\n"@
        + "            end\n"@
        + "        end\n"@
        + "    end\n"@
        + "\n"@
}

pub(crate) fn push_axis_wready(st: &mut String, clk: &str, rst: &str)
    ensures
        final(st)@ == old(st)@ + axis_wready(clk@, rst@),
{
    let mut t = String::from_str("    // wready generation\n");
    t.append("    always @( posedge ");
    t.append(clk);
    t.append(" ) begin\n");
    t.append("        if ( ");
    t.append(rst);
    t.append(" ) begin\n");
    t.append("            r_axi_wready <= 0;\n");
    t.append("        end else begin\n");
    t.append("            if ( ~r_axi_wready && w_axi_wvalid && r_axi_awv_awr_flag ) begin\n");
    t.append("                r_axi_wready <= 1'b1;\n");
    t.append("            end else begin\n");
    t.append("                r_axi_wready <= 1'b0;\n");
    t.append("            end\n");
    t.append("        end\n");
    t.append("    end\n");
    t.append("\n");
    t.append("    // write response generation\n");
    t.append("    always @( posedge ");
    t.append(clk);
    t.append(" ) begin\n");
    t.append("        if ( ");
    t.append(rst);
    t.append(" ) begin\n");
    t.append("            r_axi_bvalid <= 0;\n");
    t.append("        end else begin\n");
    t.append("            if ( r_axi_awv_awr_flag && r_axi_wready && w_axi_wvalid && ~r_axi_bvalid && w_axi_wlast ) begin\n");
    t.append("                r_axi_bvalid <= 1'b1;\n");
    t.append("            end else begin\n");
    t.append("                if ( w_axi_bready && r_axi_bvalid ) begin\n");
    t.append("                    r_axi_bvalid <= 1'b0;\n");
    t.append("                end\n");
    t.append("            end\n");
    t.append("        end\n");
    t.append("    end\n");
    t.append("\n");
    st.append(t.as_str());
}

/// The read-address-ready logic of an AXI4 slave port.
pub open spec fn axis_ar(clk: Seq<char>, rst: Seq<char>) -> Seq<char> {
    "    // arready - arv_arr_flag generation\n"@
        + "    always @( posedge "@
        + clk
        + " ) begin\n"@
        + "        if ( "@
        + rst
        + " ) begin\n"@
        + "            r_axi_arready <= 1'b0;\n"@
        + "            r_axi_arv_arr_flag <= 1'b0;\n"@
        + "        end else begin\n"@
        + "            if ( ~r_axi_arready && w_axi_arvalid && ~r_axi_awv_awr_flag && ~r_axi_arv_arr_flag ) begin\n"@
        + "                r_axi_arready <= 1'b1;\n"@
        + "                r_axi_arv_arr_flag <= 1'b1;\n"@
        + "            end else if ( r_axi_rvalid && w_axi_rready && r_axi_arlen_count == r_axi_arlen ) begin\n"@
        + "                r_axi_arv_arr_flag <= 1'b0;\n"@
        + "            end else begin\n"@
        + "                r_axi_arready <= 1'b0;\n"@
        + "            end\n"@
        + "        end\n"@
        + "    end\n"@
        + "\n"@
}

pub(crate) fn push_axis_ar(st: &mut String, clk: &str, rst: &str)
    ensures
        final(st)@ == old(st)@ + axis_ar(clk@, rst@),
{
    let mut t = String::from_str("    // arready - arv_arr_flag generation\n");
    t.append("    always @( posedge ");
    t.append(clk);
    t.append(" ) begin\n");
    t.append("        if ( ");
    t.append(rst);
    t.append(" ) begin\n");
    t.append("            r_axi_arready <= 1'b0;\n");
    t.append("            r_axi_arv_arr_flag <= 1'b0;\n");
    t.append("        end else begin\n");
    t.append("            if ( ~r_axi_arready && w_axi_arvalid && ~r_axi_awv_awr_flag && ~r_axi_arv_arr_flag ) begin\n");
    t.append("                r_axi_arready <= 1'b1;\n");
    t.append("                r_axi_arv_arr_flag <= 1'b1;\n");
    t.append("            end else if ( r_axi_rvalid && w_axi_rready && r_axi_arlen_count == r_axi_arlen ) begin\n");
    t.append("                r_axi_arv_arr_flag <= 1'b0;\n");
    t.append("            end else begin\n");
    t.append("                r_axi_arready <= 1'b0;\n");
    t.append("            end\n");
    t.append("        end\n");
    t.append("    end\n");
    t.append("\n");
    st.append(t.as_str());
}

/// The read-address logic of an AXI4 slave port.
pub open spec fn axis_raddr(clk: Seq<char>, rst: Seq<char>, w1: Seq<char>) -> Seq<char> {
    "    // raddress generation\n"@
        + "    always @( posedge "@
        + clk
        + " ) begin\n"@
        + "        if ( "@
        + rst
        + " ) begin\n"@
        + "            r_axi_araddr <= 0;\n"@
        + "            r_axi_arlen_count <= 0;\n"@
        + "            r_axi_arburst <= 0;\n"@
        + "            r_axi_arlen <= 0;\n"@
        + "            r_axi_rlast <= 0;\n"@
        + "        end else begin\n"@
        + "            if ( ~r_axi_arready && w_axi_arvalid && ~r_axi_arv_arr_flag ) begin\n"@
        + "                r_axi_araddr <= i_saxi_araddr;\n"@
        + "                r_axi_arburst <= i_saxi_arburst;\n"@
        + "                r_axi_arlen <= i_saxi_arlen;\n"@
        + "                r_axi_arlen_count <= 0;\n"@
        + "                r_axi_rlast <= 0;\n"@
        + "            end else if ( ( r_axi_arlen_count <= r_axi_arlen ) && r_axi_rvalid && w_axi_rready ) begin\n"@
        + "                r_axi_arlen_count <= r_axi_arlen_count + 1;\n"@
        + "                r_axi_rlast <= 0;\n"@
        + "                case ( r_axi_arburst )\n"@
        + "                    2'b00: begin\n"@
        + "                        r_axi_araddr <= r_axi_araddr;\n"@
        + "                    end\n"@
        + "                    2'b01: begin\n"@
        + "                        r_axi_araddr["@
        + w1
        + ":2] <= r_axi_araddr["@
        + w1
        + ":2] + 1;\n"@
        + "                        r_axi_araddr[1:0] <= 2'b00;\n"@
        + "                    end\n"@
        + "                    default: begin\n"@
        + "                        r_axi_araddr <= r_axi_araddr["@
        + w1
        + ":2];\n"@
        + "                    end\n"@
        + "                endcase\n"@
        + "            end else if ( ( r_axi_arlen_count == r_axi_arlen ) && ~r_axi_rlast && r_axi_arv_arr_flag ) begin\n"@
        + "                r_axi_rlast <= 1'b1;\n"@
        + "            end else if ( w_axi_rready ) begin\n"@
        + "                r_axi_rlast <= 1'b0;\n"@
        + "            end\n"@
        + "        end\n"@
        + "    end\n"@
        + "\n"@
}

pub(crate) fn push_axis_raddr(st: &mut String, clk: &str, rst: &str, w1: &str)
    ensures
        final(st)@ == old(st)@ + axis_raddr(clk@, rst@, w1@),
{
    let mut t = String::from_str("    // raddress generation\n");
    t.append("    always @( posedge ");
    t.append(clk);
    t.append(" ) begin\n");
    t.append("        if ( ");
    t.append(rst);
    t.append(" ) begin\n");
    t.append("            r_axi_araddr <= 0;\n");
    t.append("            r_axi_arlen_count <= 0;\n");
    t.append("            r_axi_arburst <= 0;\n");
    t.append("            r_axi_arlen <= 0;\n");
    t.append("            r_axi_rlast <= 0;\n");
    t.append("        end else begin\n");
    t.append("            if ( ~r_axi_arready && w_axi_arvalid && ~r_axi_arv_arr_flag ) begin\n");
    t.append("                r_axi_araddr <= i_saxi_araddr;\n");
    t.append("                r_axi_arburst <= i_saxi_arburst;\n");
    t.append("                r_axi_arlen <= i_saxi_arlen;\n");
    t.append("                r_axi_arlen_count <= 0;\n");
    t.append("                r_axi_rlast <= 0;\n");
    t.append("            end else if ( ( r_axi_arlen_count <= r_axi_arlen ) && r_axi_rvalid && w_axi_rready ) begin\n");
    t.append("                r_axi_arlen_count <= r_axi_arlen_count + 1;\n");
    t.append("                r_axi_rlast <= 0;\n");
    t.append("                case ( r_axi_arburst )\n");
    t.append("                    2'b00: begin\n");
    t.append("                        r_axi_araddr <= r_axi_araddr;\n");
    t.append("                    end\n");
    t.append("                    2'b01: begin\n");
    t.append("                        r_axi_araddr[");
    t.append(w1);
    t.append(":2] <= r_axi_araddr[");
    t.append(w1);
    t.append(":2] + 1;\n");
    t.append("                        r_axi_araddr[1:0] <= 2'b00;\n");
    t.append("                    end\n");
    t.append("                    default: begin\n");
    t.append("                        r_axi_araddr <= r_axi_araddr[");
    t.append(w1);
    t.append(":2];\n");
    t.append("                    end\n");
    t.append("                endcase\n");
    t.append("            end else if ( ( r_axi_arlen_count == r_axi_arlen ) && ~r_axi_rlast && r_axi_arv_arr_flag ) begin\n");
    t.append("                r_axi_rlast <= 1'b1;\n");
    t.append("            end else if ( w_axi_rready ) begin\n");
    t.append("                r_axi_rlast <= 1'b0;\n");
    t.append("            end\n");
    t.append("        end\n");
    t.append("    end\n");
    t.append("\n");
    st.append(t.as_str());
}

/// The read-valid logic and the byte-masked write data of an AXI4 slave port.
pub open spec fn axis_rvalid(clk: Seq<char>, rst: Seq<char>) -> Seq<char> {
    "    // rvalid generation\n"@
        + "    always @( posedge "@
        + clk
        + " ) begin\n"@
        + "        if ( "@
        + rst
        + " ) begin\n"@
        + "            r_axi_rvalid <= 0;\n"@
        + "        end else begin\n"@
        + "            if ( ~r_axi_wready && w_axi_wvalid && r_axi_awv_awr_flag ) begin\n"@
        + "                r_axi_rvalid <= 1'b1;\n"@
        + "            end else begin\n"@
        + "                r_axi_rvalid <= 1'b0;\n"@
        + "            end\n"@
        + "        end\n"@
        + "    end\n"@
        + "\n"@
        + "    assign w_axi_wdata[0+:8] = i_saxi_wstrb[0] ? i_saxi_wdata[0+:8] : 0;\n"@
        + "    assign w_axi_wdata[8+:8] = i_saxi_wstrb[1] ? i_saxi_wdata[8+:8] : 0;\n"@
        + "    assign w_axi_wdata[16+:8] = i_saxi_wstrb[2] ? i_saxi_wdata[16+:8] : 0;\n"@
        + "    assign w_axi_wdata[24+:8] = i_saxi_wstrb[3] ? i_saxi_wdata[24+:8] : 0;\n"@
}

pub(crate) fn push_axis_rvalid(st: &mut String, clk: &str, rst: &str)
    ensures
        final(st)@ == old(st)@ + axis_rvalid(clk@, rst@),
{
    let mut t = String::from_str("    // rvalid generation\n");
    t.append("    always @( posedge ");
    t.append(clk);
    t.append(" ) begin\n");
    t.append("        if ( ");
    t.append(rst);
    t.append(" ) begin\n");
    t.append("            r_axi_rvalid <= 0;\n");
    t.append("        end else begin\n");
    t.append("            if ( ~r_axi_wready && w_axi_wvalid && r_axi_awv_awr_flag ) begin\n");
    t.append("                r_axi_rvalid <= 1'b1;\n");
    t.append("            end else begin\n");
    t.append("                r_axi_rvalid <= 1'b0;\n");
    t.append("            end\n");
    t.append("        end\n");
    t.append("    end\n");
    t.append("\n");
    t.append("    assign w_axi_wdata[0+:8] = i_saxi_wstrb[0] ? i_saxi_wdata[0+:8] : 0;\n");
    t.append("    assign w_axi_wdata[8+:8] = i_saxi_wstrb[1] ? i_saxi_wdata[8+:8] : 0;\n");
    t.append("    assign w_axi_wdata[16+:8] = i_saxi_wstrb[2] ? i_saxi_wdata[16+:8] : 0;\n");
    t.append("    assign w_axi_wdata[24+:8] = i_saxi_wstrb[3] ? i_saxi_wdata[24+:8] : 0;\n");
    st.append(t.as_str());
}

/// The read of the memory of an AXI4 slave port.
pub open spec fn axis_mem_read(clk: Seq<char>, w1: Seq<char>) -> Seq<char> {
    "\n"@
        + "    always @( posedge "@
        + clk
        + " ) begin\n"@
        + "        r_axi_rdata <= axi_mem[r_axi_araddr["@
        + w1
        + ":2]];\n"@
        + "        axis_read <= axi_mem[axis_addr];\n"@
        + "    end\n"@
        + "\n"@
}

pub(crate) fn push_axis_mem_read(st: &mut String, clk: &str, w1: &str)
    ensures
        final(st)@ == old(st)@ + axis_mem_read(clk@, w1@),
{
    let mut t = String::from_str("\n");
    t.append("    always @( posedge ");
    t.append(clk);
    t.append(" ) begin\n");
    t.append("        r_axi_rdata <= axi_mem[r_axi_araddr[");
    t.append(w1);
    t.append(":2]];\n");
    t.append("        axis_read <= axi_mem[axis_addr];\n");
    t.append("    end\n");
    t.append("\n");
    st.append(t.as_str());
}

/// The start of the read-data block of an AXI4 slave port without memory.
pub open spec fn axis_read_head() -> Seq<char> {
    "\n"@
        + "    always @(*) begin\n"@
}

pub(crate) fn push_axis_read_head(st: &mut String)
    ensures
        final(st)@ == old(st)@ + axis_read_head(),
{
    let mut t = String::from_str("\n");
    t.append("    always @(*) begin\n");
    st.append(t.as_str());
}

/// Read data taken from the local read wire.
pub open spec fn axis_read_local() -> Seq<char> {
    "        r_axi_rdata <= axis_read;\n"@
}

pub(crate) fn push_axis_read_local(st: &mut String)
    ensures
        final(st)@ == old(st)@ + axis_read_local(),
{
    let mut t = String::from_str("        r_axi_rdata <= axis_read;\n");
    st.append(t.as_str());
}

/// Read data taken from the given signal.
pub open spec fn axis_read_from(rd: Seq<char>) -> Seq<char> {
    "        r_axi_rdata <= "@
        + rd
        + ";\n"@
}

pub(crate) fn push_axis_read_from(st: &mut String, rd: &str)
    ensures
        final(st)@ == old(st)@ + axis_read_from(rd@),
{
    let mut t = String::from_str("        r_axi_rdata <= ");
    t.append(rd);
    t.append(";\n");
    st.append(t.as_str());
}

/// The end of the read-data block of an AXI4 slave port without memory.
pub open spec fn axis_read_tail() -> Seq<char> {
    "    end\n"@
        + "\n"@
        + "    assign axis_write = w_axi_wdata;\n"@
}

pub(crate) fn push_axis_read_tail(st: &mut String)
    ensures
        final(st)@ == old(st)@ + axis_read_tail(),
{
    let mut t = String::from_str("    end\n");
    t.append("\n");
    t.append("    assign axis_write = w_axi_wdata;\n");
    st.append(t.as_str());
}

} // verus!
