//! A static binary translator for a small 16-bit guest instruction set.
//!
//! The crate decodes 16-bit instruction words into a closed instruction
//! model, discovers the labels that control transfers need, lowers every
//! instruction to a fixed native-assembly template, and models the
//! memory-mapped peripheral protocol and the execution harness state that
//! the translated program runs against.

pub mod cli;
pub mod codegen;
pub mod display;
pub mod harness;
pub mod interface;
pub mod isa;
pub mod labels;
pub mod parse;
pub mod rng;
pub mod text;
