//! Native functions exposed to a host runtime through a C-ABI registration
//! protocol: the binding registry, the code generator's expansion plan, the
//! once-only module bootstrap and the host-facing data that goes with them.
#![allow(non_camel_case_types)]

pub mod fib;
pub mod registry;
pub mod codegen;
pub mod bootstrap;
pub mod sys;
pub mod user;
