//! The failures that parsing, validation, resolution and construction can
//! report. All of them are ordinary values: no component aborts the process.

use vstd::prelude::*;
use crate::options::CommandOptions;

verus! {

/// A recoverable failure of the command pipeline.
#[derive(Debug, Clone, Copy, PartialEq, Eq, Structural)]
pub enum TaskError {
    /// The argument list is shorter than the identified command's minimum.
    NotEnoughArguments,
    /// A required option's flag occurs nowhere in the argument list.
    MissingRequiredOption(CommandOptions),
    /// An option's flag is the final token, so no value follows it.
    MissingOptionValue(CommandOptions),
    /// An option's value is empty or does not name a known level.
    InvalidOptionValue(CommandOptions),
    /// A due token that does not match the duration grammar.
    InvalidDurationFormat,
    /// A resolved due instant that does not fit a 64-bit count of seconds.
    DurationOutOfRange,
    /// Task construction was reached with no title staged.
    MissingTitle,
    /// Task construction was reached with no due token staged.
    MissingDue,
}

} // verus!
