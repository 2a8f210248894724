//! Console-output abstraction for a command-line tool: resolves verbosity and
//! color settings from raw flags, formats and routes status messages to the
//! two standard streams, and tracks the per-stream erase bookkeeping that
//! keeps an in-place progress line from corrupting later output.

pub mod ansi;
pub mod shell;
mod sink;
