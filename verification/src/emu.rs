//! The machine and its parts.
//!
//! `vm` is the execution engine; it owns a frame buffer (`gpu`) and a key pad (`input`) and
//! executes the instructions that `instruction` decodes. `mnemonic` writes instructions as
//! assembly lines, `iter` walks a program word by word, `font` holds the built-in sprites
//! and `keymap` says which keys of a keyboard stand for the keys of the pad. `opcode` and
//! `display` are plainer forms of the instruction and of the frame buffer.

pub mod display;
pub mod font;
pub mod gpu;
pub mod input;
pub mod instruction;
pub mod iter;
pub mod keymap;
pub mod mnemonic;
pub mod opcode;
pub mod vm;
