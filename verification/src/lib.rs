//! Generating Verilog from Rust: a module is built up from parameters, ports,
//! local signals, assignments, `always` blocks, functions, state machines and
//! AXI slave ports, and then written out as Verilog text.
//!
//! Every builder and every writer states what it does over a model of the
//! values it works on (`ModuleModel`, `EV`, ...), and the text of each part of
//! a module is given by a spec function (`module_text`, `decomp`, ...).
#![allow(non_snake_case)]
#![allow(non_camel_case_types)]
use vstd::prelude::*;

pub mod text;
pub mod ast;
pub mod render;
pub mod expr;
pub mod ops;
pub mod stmt;
pub mod fsm;
pub mod axi_text;
pub mod axi;
pub mod module;
pub mod laws;
pub mod laws_text;

verus! {
}
