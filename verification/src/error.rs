//! Failure taxonomy of the emulator core.
//!
//! Decode and execute errors are not recoverable: they propagate to the
//! run-loop caller, which reports them and terminates.  Malformed cartridge
//! images are rejected before a `Cpu` is ever constructed.

use vstd::prelude::*;

verus! {

/// A failure raised while decoding or executing an instruction.
#[derive(Clone, Copy, Debug, PartialEq, Eq, Structural)]
pub enum EmuError {
    /// The byte at the program counter does not encode any instruction this
    /// core recognizes.  Decode never mutates the processor before a
    /// successful match, so the reported state is exactly the state at fetch.
    UnsupportedOpcode { opcode: u8, pc: u16 },
    /// The instruction was recognized, but requests an addressing mode this
    /// core does not implement (the indirect modes).
    UnsupportedAddressingMode,
}

/// A failure raised while parsing a cartridge image, before the core is
/// constructed.
#[derive(Clone, Copy, Debug, PartialEq, Eq, Structural)]
pub enum RomError {
    /// The image does not begin with the expected magic bytes.
    InvalidMagic,
    /// A header byte that must be zero is set, or the program bank count is
    /// not one this core's fixed mapping supports.
    UnsupportedFormat,
    /// The image is shorter than its header promises.
    TruncatedImage,
}

} // verus!
