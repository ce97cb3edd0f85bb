//! An in-process substitute for a program's standard input, output and error
//! streams, so that an interactive command-line tool can be driven from the
//! embedding code instead of through real pipes: three shared text buffers
//! with blocking, non-blocking and line-oriented operations.

pub mod buffer;
pub mod host;
pub mod input;
pub mod laws;
pub mod output;
pub mod streams;
pub mod text;

pub use crate::input::Altin;
pub use crate::input::AltinLock;
pub use crate::input::Lines;
pub use crate::output::Altout;
pub use crate::output::AltoutLock;
pub use crate::streams::Altio;
