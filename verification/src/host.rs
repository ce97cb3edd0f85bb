//! Declarations for the two host-library types that cross this crate's
//! boundary — `std::io::Error` (named in read results for source
//! compatibility with the real console streams, never constructed here) and
//! `core::fmt::Arguments` (a pre-built format) — and the one call that
//! renders such a format into text.

use vstd::prelude::*;

verus! {

#[verifier::external_type_specification]
#[verifier::external_body]
pub struct ExIoError(std::io::Error);

#[verifier::external_type_specification]
#[verifier::external_body]
pub struct ExArguments<'a>(core::fmt::Arguments<'a>);

/// Relies on `format!` over `core::fmt::Arguments` (via its `Display`):
/// rendering a pre-built format into a fresh `String`. Rendering into memory
/// reports no error; a caller-supplied formatting impl that fails or panics
/// panics here, the fatal condition it is meant to be. Nothing is assumed
/// about the text that comes out.
#[verifier::external_body]
pub fn render_arguments(args: core::fmt::Arguments<'_>) -> String {
    format!("{}", args)
}

} // verus!
