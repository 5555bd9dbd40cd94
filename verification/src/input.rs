//! Where the text of a discussion is read from.

use vstd::prelude::*;

use crate::text::text_equals;

verus! {

/// The source of an input text.
#[derive(Debug, Clone, Copy, PartialEq, Eq, Structural)]
pub enum InputSource {
    /// Standard input, named by the path `-`.
    Stdin,
    /// The file at the path.
    File,
}

/// The source named by an input path: `-` is standard input, anything else a file.
pub fn input_source(path: &str) -> (r: InputSource)
    ensures
        (r == InputSource::Stdin) <==> (path@ == "-"@),
{
    if text_equals(path, "-") {
        InputSource::Stdin
    } else {
        InputSource::File
    }
}

} // verus!
