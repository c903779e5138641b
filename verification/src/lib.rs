//! The processing core of an 8-bit game console: a cycle-counted 6502-family
//! processor, the address bus that connects it to 2 KB of work RAM and to the
//! picture processor's register ports, and the picture processor's register
//! and memory model.
//!
//! Every operation has a mathematical model (a `spec` function over plain
//! values) next to its executable form, and the executable form is proved to
//! compute exactly what the model says.

pub mod bits;
pub mod cartridge;
pub mod cpu;
pub mod mem;
pub mod ppu;
pub mod tiles;
