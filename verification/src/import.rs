//! The import: from the text of a document, or from the outcome of reading
//! its file, to the records or the failure.

use crate::decode::{decode_rows, outcome_model, records_from_rows};
use crate::document::{json_rows, parse_rows, parsed_model, Row, RowModel};
use crate::error::{ImportError, ImportErrorModel};
use crate::record::{Record, RecordModel};
use vstd::prelude::*;

verus! {

/// What an import returns for an outcome of parsing: the records that the
/// objects hold, a parse failure with the parser's diagnostic where the text
/// was rejected, a parse failure for the first object that is no record.
pub open spec fn import_outcome(parsed: Result<Seq<RowModel>, Seq<char>>) -> Result<
    Seq<RecordModel>,
    ImportErrorModel,
> {
    match parsed {
        Ok(rows) => decode_rows(rows),
        Err(diagnostic) => Err(ImportErrorModel::Parse { diagnostic }),
    }
}

/// What an import returns for an outcome of reading the file at `path`: a
/// read failure with the path and the cause where the file was not read,
/// else what the text gives.
pub open spec fn read_outcome(path: Seq<char>, contents: Result<Seq<char>, Seq<char>>) -> Result<
    Seq<RecordModel>,
    ImportErrorModel,
> {
    match contents {
        Ok(text) => import_outcome(json_rows(text)),
        Err(cause) => Err(ImportErrorModel::Io { path, cause }),
    }
}

/// The mathematical value of an outcome of reading a file.
pub open spec fn contents_model(contents: Result<String, String>) -> Result<Seq<char>, Seq<char>> {
    match contents {
        Ok(text) => Ok(text@),
        Err(cause) => Err(cause@),
    }
}

/// Finishes an import from the outcome of parsing.
pub fn import_parsed(parsed: Result<Vec<Row>, String>) -> (outcome: Result<
    Vec<Record>,
    ImportError,
>)
    ensures
        outcome_model(outcome) == import_outcome(parsed_model(parsed)),
        outcome matches Ok(records) ==> (parsed matches Ok(rows) && records.len() == rows.len()),
        parsed is Err ==> (outcome matches Err(error) && error@ is Parse),
{
    match parsed {
        Ok(rows) => records_from_rows(&rows),
        Err(diagnostic) => Err(ImportError::Parse { diagnostic }),
    }
}

/// Imports the records of a document from its text.
///
/// The text is parsed by `serde_json` as an array of objects; the outcome of
/// that is [`json_rows`] of the text, and the import is what
/// [`import_outcome`] makes of it.
pub fn import_text(text: &str) -> (outcome: Result<Vec<Record>, ImportError>)
    ensures
        outcome_model(outcome) == import_outcome(json_rows(text@)),
        outcome matches Ok(records) ==> (json_rows(text@) matches Ok(rows) && records.len()
            == rows.len()),
        outcome matches Err(error) ==> error@ is Parse,
        json_rows(text@) is Err ==> outcome is Err,
{
    import_parsed(parse_rows(text))
}

/// Imports the records of the file at `path` from the outcome of reading it:
/// its text, or the cause for which it could not be read.
pub fn import_data(path: &str, contents: Result<String, String>) -> (outcome: Result<
    Vec<Record>,
    ImportError,
>)
    ensures
        outcome_model(outcome) == read_outcome(path@, contents_model(contents)),
        contents is Err <==> (outcome matches Err(error) && error@ is Io),
{
    match contents {
        Ok(text) => import_text(text.as_str()),
        Err(cause) => Err(ImportError::Io { path: String::from_str(path), cause }),
    }
}

} // verus!
