//! A verified terminal emulator core.
//!
//! The library decodes a VT100/xterm-compatible byte stream and maintains an
//! in-memory screen reflecting its semantic effect. The `parser` module holds
//! the escape-sequence state machine; `processor` turns its events into
//! operations on the `screen` and into response bytes for the child;
//! `renderer` produces the SGR sequences that repaint a cell's attributes on
//! the outer terminal; `task` decides the terminal task's next step. Every
//! operation is specified against a mathematical model of the state it
//! touches, and the properties the emulator is expected to keep — the cursor
//! staying on the grid, the parser's insensitivity to fragmentation, the SGR
//! reset restoring the default template — are stated and proved alongside.

pub mod b64;
pub mod cell;
pub mod charset;
pub mod color;
pub mod grid;
pub mod iter;
pub mod modes;
pub mod parser;
pub mod point;
pub mod processor;
pub mod renderer;
pub mod screen;
pub mod sgr;
pub mod task;
pub mod text;
