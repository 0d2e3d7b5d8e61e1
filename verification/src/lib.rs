//! The core of an emulator for an 8-bit handheld game console: the
//! processor with its register file and instruction set, the banked memory
//! map, the pixel processor, the timer, the joypad and the interrupt
//! registers, all behind one bus.
//!
//! The core is a pure state machine. A driver makes it run by calling
//! [`cpu::CPU::cycle`] (or [`cpu::CPU::run`]), shows the picture that
//! [`cpu::CPU::pixel_buffer`] hands out, and reports key presses to
//! [`keys::Keys`]. Every operation comes with a contract that states, over a
//! mathematical view of the machine, exactly what the operation does.

pub mod config;
pub mod cpu;
pub mod debug;
pub mod frame;
pub mod gpu;
pub mod io;
pub mod keys;
pub mod lcd;
pub mod machine;
pub mod memory;
pub mod memory_bus;
pub mod opcode;
pub mod registers;
pub mod scanline;
