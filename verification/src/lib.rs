//! An interpreter for an 8-bit virtual console: sixteen byte registers, four
//! kilobytes of memory, a sixteen-entry call stack, two countdown timers, a
//! sixteen-key pad and a 64x32 monochrome screen.

pub mod display;
pub mod font;
pub mod instruction;
pub mod interpreter;
pub mod laws;
pub mod model;
mod random;
