//! A Brainfuck-to-WebAssembly compiler.
//!
//! Source text is folded into a compact instruction sequence (`fold`), and the
//! sequence is translated into a WebAssembly module implementing a tape
//! machine whose two system calls read and write single bytes (`emit`).

pub mod fold;
pub mod wasm;
pub mod emit;

pub use fold::Bf;
pub use fold::BfError;
pub use fold::BfInstr;
pub use fold::is_valid_instr;
pub use emit::bf_to_wasm;
