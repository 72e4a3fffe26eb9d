//! Writing a line of text to standard output.

use std::io::Write;
use vstd::prelude::*;

verus! {

/// Relies on `std::io::Stdout::write_fmt`, through `writeln`: prints the
/// given text and a newline to standard output; a write error is ignored.
#[verifier::external_body]
pub(crate) fn print_line(s: &str) {
    let _ = writeln!(std::io::stdout(), "{}", s);
}

} // verus!
