use vcore::ast::E;
use vcore::expr::{_Eq, _Num, _StrOut};
use vcore::fsm::Clock_Reset;
use vcore::module::{FSM_trait, VModule, Vset};

#[test]
fn state_machine_text() {
    let mut m = VModule::new("fsm_top");
    let clk = m.Input("clk", 1);
    let rst = m.Input("rst", 1);
    let go = m.Input("go", 1);
    let mut f = Clock_Reset(clk, rst);
    f.AddState("IDLE");
    f.AddState("RUN");
    f.goto("IDLE", _Eq(go.clone(), _Num(0)));
    f.Current("RUN");
    f.from("IDLE", go.clone());
    let reg = m.FSM(f);
    assert_eq!(_StrOut(reg), "state");
    let text = m.endmodule();
    let expected = [
        "module fsm_top (\n    input  clk,\n    input  rst,\n    input  go\n);\n",
        "    // ----Generate Local Parts----\n\n",
        "    localparam IDLE = 0;\n    localparam RUN = 1;\n",
        "    reg [31:0] state;\n    reg [31:0] state_Next;\n",
        "\n    // ----Extra Component Set----\n\n",
        "    always@(posedge clk or posedge rst) begin\n",
        "        if (rst == 1) begin \n            state <= IDLE; \n        end\n",
        "        else begin \n            state <= state_Next; \n        end \n    end \n\n",
        "    always@(posedge clk) begin\n",
        "        if (rst) state_Next <= IDLE;\n",
        "        else begin\n",
        "            case(state)\n",
        "                IDLE : begin\n",
        "                    if(go) begin\n",
        "                        state_Next <= RUN;\n",
        "                    end\n",
        "                end\n",
        "                RUN : begin\n",
        "                    if(go==0) begin\n",
        "                        state_Next <= IDLE;\n",
        "                    end\n",
        "                end\n",
        "            endcase \n        end\n    end\n\n",
        "\nendmodule\n",
    ]
    .concat();
    assert_eq!(text, expected);
}

#[test]
fn renamed_state_register() {
    let mut m = VModule::new("s");
    let clk = m.Input("clk", 1);
    let rst = m.Input("rst", 1);
    let mut f = Clock_Reset(clk, rst);
    f.State("mode");
    f.AddState("A");
    let reg = m.FSM(&f);
    assert_eq!(_StrOut(reg), "mode");
    let locals = m.out_l_param();
    assert_eq!(locals.len(), 3);
    assert_eq!(locals[0].getName(), "A");
    assert_eq!(locals[0].getValue(), 0);
    assert_eq!(locals[1].getName(), "mode");
    assert_eq!(locals[1].getWidth(), 32);
    assert_eq!(locals[2].getName(), "mode_Next");
    assert!(locals[2].getReg());
}

#[test]
fn added_state_is_found_by_its_name() {
    let clk = Box::new(E::Null);
    let rst = Box::new(E::Null);
    let mut f = Clock_Reset(clk, rst);
    f.AddState("IDLE");
    f.AddState("BUSY");
    let p = f.Param("BUSY");
    match *p {
        E::Ldc(ref w) => {
            assert_eq!(w.getName(), "BUSY");
            assert_eq!(w.getValue(), 1);
        }
        _ => panic!("state not found"),
    }
    let q = f.Param("NONE");
    assert!(matches!(*q, E::Null));
}

#[test]
fn current_moves_to_the_named_state() {
    let mut f = Clock_Reset(Box::new(E::Null), Box::new(E::Null));
    f.AddState("A");
    f.AddState("B");
    f.AddState("C");
    f.Current("A");
    // the current state is now "A": `from` leads into it, `goto` out of it
    f.from("C", _Num(1));
    f.goto("B", _Num(2));
    let mut m = VModule::new("c");
    m.FSM(f);
    let text = m.endmodule();
    assert!(text.contains("                C : begin\n                    if(1) begin\n                        state_Next <= A;\n"));
    assert!(text.contains("                A : begin\n                    if(2) begin\n                        state_Next <= B;\n"));
}

#[test]
fn from_leads_into_the_newest_state() {
    let mut f = Clock_Reset(Box::new(E::Null), Box::new(E::Null));
    f.AddState("A");
    f.AddState("B");
    f.from("A", _Num(1));
    let mut m = VModule::new("n");
    m.FSM(f);
    let text = m.endmodule();
    assert!(text.contains("                A : begin\n                    if(1) begin\n                        state_Next <= B;\n                    end\n                end\n                B : begin\n                end\n"));
}
