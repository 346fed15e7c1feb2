//! Witness-generation and arithmetization core for an EVM STARK prover.
//!
//! The library covers the column-layout contract for trace tables, the
//! address/memory model, the interpreter driver that runs a kernel program
//! to its halt routine, the shaping of accumulated rows into power-of-two
//! column-major tables, the memory-continuation table that carries a memory
//! snapshot across proof-segment boundaries, and the cross-table-lookup
//! wiring that ties tables together.

pub mod ctl;
pub mod generation;
pub mod memory;
pub mod memory_continuation;
pub mod poseidon_sponge;
pub mod shaping;
