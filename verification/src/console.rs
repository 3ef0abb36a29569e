//! The one place where the library touches the console.

use vstd::prelude::*;

use std::io::Write;

verus! {

/// Relies on `std::io::Stdout::write_fmt`, through `writeln`: prints the
/// line and claims nothing.
#[verifier::external_body]
pub(crate) fn emit_line(s: &str) {
    let mut out = std::io::stdout();
    let _ = writeln!(out, "{}", s);
}

} // verus!
