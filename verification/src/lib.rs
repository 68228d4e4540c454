pub mod addressing_modes;
mod bit_facts;
pub mod op_codes;
pub mod semantics;
pub mod cpu;
pub mod laws;
pub mod arithmetic_laws;
pub mod addressing_laws;
pub mod flow_laws;
