//! A CHIP-8 virtual machine core: a 4 KiB-memory, 16-register, 64x32-pixel
//! 8-bit target. The crate holds the instruction-set engine — machine state,
//! opcode decoder, per-opcode execution semantics, timer decay and the XOR
//! framebuffer — with the behaviour of each operation stated in its contract.
//! Hosts drive it through [`emulator::EmulatedChip8`]: load a font and a
//! program, then call `step` once per emulated cycle with the elapsed time
//! and the current key states, and read the display back out for rendering.

pub mod display;
pub mod emulator;
pub mod opcodes;
pub mod program;
