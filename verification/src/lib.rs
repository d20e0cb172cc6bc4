//! A cycle-stepped interpreter for the CHIP-8 virtual machine.
//!
//! The crate is the core of an emulator: opcode decoding, the instruction
//! dispatcher and its handlers, the registers, memory and call stack they
//! work on, the two timers, the key pad with its wait for a key press, and
//! the display with its sprite blitter. A host supplies the rest: a window
//! that shows the display's frame, key events, a tone, and the bytes of the
//! program to run.
//!
//! * [`opcode`] decodes instruction words.
//! * [`machine`] is the mathematical model: the state of an emulator and
//!   what each instruction does to it.
//! * [`emulator`] holds the executable state, its construction and program
//!   loading.
//! * [`instructions`] holds one handler for each instruction.
//! * [`dispatch`] holds the dispatcher and the driver steps around it: a
//!   cycle, which is one step, and a frame, which is a timer tick and a
//!   batch of cycles.
//! * [`display`], [`keypad`] and [`timers`] are the three devices.
//! * [`laws`] states what holds across instructions.
//! * [`config`] picks the program to run.

pub mod config;
pub mod dispatch;
pub mod display;
pub mod emulator;
pub mod instructions;
pub mod keypad;
pub mod laws;
pub mod machine;
pub mod opcode;
pub mod timers;
