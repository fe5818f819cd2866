//! The arguments the pipeline consumes, as plain values: parsing the
//! command line itself is left to the surrounding program.

use vstd::prelude::*;

verus! {

/// The run's inputs: the image file to convert, the output path for the
/// text lines, and the raw depth still to be validated.
pub struct ProgramArgs {
    /// File to convert.
    pub file: String,
    /// Output file.
    pub output: String,
    /// Bit depth to use for the conversion.
    pub depth: u8,
}

} // verus!
