//! A software CPU: a fixed-memory virtual machine that fetches, decodes and
//! executes a compact byte-encoded instruction set.
//!
//! * [`emulator`] holds the engine: registers, memory, the stack inside
//!   it, the hooks of the host, and the step. [`execute`] holds its
//!   instructions one by one.
//! * [`machine`] says in mathematics what a step does, and [`laws`] what
//!   follows from that.
//! * [`value`] and [`arith`] read register bytes as typed values and
//!   compute on them; [`float`] reads float words by their bits;
//!   [`bytes`] packs numbers into bytes.
//! * [`structures`] and [`parser`] serve program text: the names of types
//!   and opcodes, and literals.

pub mod arith;
pub mod bytes;
pub mod constants;
pub mod emulator;
pub mod execute;
pub mod float;
pub mod laws;
pub mod machine;
pub mod parser;
pub mod structures;
pub mod value;
