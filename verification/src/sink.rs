//! The crate's only window onto the process's standard streams: trusted
//! wrappers around the write, flush and color-capability calls. Everything
//! above this module is verified; these bodies only hand text on.

use vstd::prelude::*;
use std::io::Write;
use crate::shell::WriteError;

verus! {

/// Relies on `std::io::Stdout::write_all`: writes the whole string to the
/// primary stream, or reports the stream's failure.
#[verifier::external_body]
pub(crate) fn write_primary(s: &str) -> (r: Result<(), WriteError>)
{
    std::io::stdout().write_all(s.as_bytes()).map_err(|_| WriteError)
}

/// Relies on `std::io::Stderr::write_all`: writes the whole string to the
/// secondary stream, or reports the stream's failure.
#[verifier::external_body]
pub(crate) fn write_secondary(s: &str) -> (r: Result<(), WriteError>)
{
    std::io::stderr().write_all(s.as_bytes()).map_err(|_| WriteError)
}

/// Relies on `std::io::Stderr::flush`: forces buffered secondary-stream
/// output out, or reports the stream's failure.
#[verifier::external_body]
pub(crate) fn flush_secondary() -> (r: Result<(), WriteError>)
{
    std::io::stderr().flush().map_err(|_| WriteError)
}

/// Relies on `supports_color::on_cached`, the query `owo_colors` makes for
/// `if_supports_color`: whether the secondary stream takes basic ANSI color now.
/// The answer depends on the run-time environment, so nothing is promised of it.
#[verifier::external_body]
pub(crate) fn secondary_supports_color() -> (r: bool)
{
    supports_color::on_cached(supports_color::Stream::Stderr)
        .map(|level| level.has_basic)
        .unwrap_or(false)
}

} // verus!
