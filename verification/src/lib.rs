//! Working-tree status for a shell prompt: a record of what a status
//! snapshot says, a parser that fills it from line-oriented status text, and
//! a renderer that turns it into styled fragments under a format template.

pub mod laws;
pub mod lazy;
pub mod number;
pub mod parser;
pub mod record;
pub mod render;
pub mod simple;
pub mod style;
pub mod template;
pub mod text;
pub mod util;
