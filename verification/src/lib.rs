//! A small register-based virtual CPU with a flat byte-addressable memory,
//! a pluggable I/O port and a fetch/decode/execute engine.

pub mod cpu;
pub mod fault;
pub mod io;
pub mod isa;
pub mod laws;
pub mod memory;
pub mod state;
