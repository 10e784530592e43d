//! A terminal control library: a color model, a buffered cell grid with a
//! clipped line renderer, and the contract every terminal backend must uphold.

pub mod attr;
pub mod color;
pub mod console;
pub mod render;
pub mod terminal;
pub mod window;

pub use crate::console::Terminal as SystemTerminal;
