//! A small RISC-style CPU emulator core: instruction decoding, a register
//! file with a program counter and cycle counter, and a flat byte memory.
//!
//! The core performs no input or output. What a host should log is handed
//! back as a [`diagnostic::Diagnostic`].

use vstd::prelude::*;

pub mod cpu;
pub mod decode;
pub mod diagnostic;
pub mod machine;
pub mod memory;

pub use cpu::CPU;
pub use memory::Memory;

verus! {

/// The version of this library, as text.
pub open spec fn version_text() -> Seq<char> {
    "0.1.0"@
}

/// The version of this library.
pub fn version() -> (version: String)
    ensures
        version@ == version_text(),
{
    String::from_str("0.1.0")
}

} // verus!
