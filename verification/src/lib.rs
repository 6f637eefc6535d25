//! A CHIP-8 virtual machine.
//!
//! `emu` holds the machine: the instruction set and its decoder, the frame buffer, the key
//! pad and the execution engine. `parser` turns programs from bytes into instructions and into
//! assembly text, and back. Every function states what it returns or changes in terms of
//! the mathematical model beside it, and is proved to do so.

pub mod emu;
pub mod parser;
