//! The one line that is printed about an import, and where it goes.

use crate::decimal::{decimal, push_decimal};
use crate::decode::outcome_model;
use crate::error::{ImportError, ImportErrorModel};
use crate::record::{Record, RecordModel};
use vstd::prelude::*;

verus! {

/// Where a line is printed.
#[derive(Debug, Clone, Copy, PartialEq, Eq)]
pub enum Stream {
    /// Standard output.
    Stdout,
    /// Standard error.
    Stderr,
}

/// A line, without its line end, and the stream that it goes to.
#[derive(Debug, PartialEq, Eq)]
pub struct Report {
    pub stream: Stream,
    pub line: String,
}

/// The line for an import of `count` records.
pub open spec fn loaded_text(count: nat) -> Seq<char> {
    "Loaded "@ + decimal(count) + " records"@
}

/// The line for an import that failed with `message`.
pub open spec fn error_text(message: Seq<char>) -> Seq<char> {
    "Error reading JSON: "@ + message
}

/// The stream and the line for the outcome of an import: the count of the
/// records on standard output, the message of the failure on standard error.
pub open spec fn report_of(outcome: Result<Seq<RecordModel>, ImportErrorModel>) -> (
    Stream,
    Seq<char>,
) {
    match outcome {
        Ok(records) => (Stream::Stdout, loaded_text(records.len())),
        Err(error) => (Stream::Stderr, error_text(error.message())),
    }
}

/// The line for an import of `count` records.
pub fn loaded_line(count: usize) -> (line: String)
    ensures
        line@ == loaded_text(count as nat),
{
    let mut line = String::from_str("Loaded ");
    push_decimal(&mut line, count);
    line.append(" records");
    line
}

/// The line for an import that failed with `error`.
pub fn error_line(error: &ImportError) -> (line: String)
    ensures
        line@ == error_text(error@.message()),
{
    let mut line = String::from_str("Error reading JSON: ");
    let message = error.message();
    line.append(message.as_str());
    line
}

/// The line to print for the outcome of an import, and the stream to print
/// it on.
pub fn report(outcome: &Result<Vec<Record>, ImportError>) -> (printed: Report)
    ensures
        (printed.stream, printed.line@) == report_of(outcome_model(*outcome)),
{
    match outcome {
        Ok(records) => Report { stream: Stream::Stdout, line: loaded_line(records.len()) },
        Err(error) => Report { stream: Stream::Stderr, line: error_line(error) },
    }
}

} // verus!
