//! Why an import failed.

use vstd::prelude::*;

verus! {

/// The failure of an import.
#[derive(Debug, PartialEq, Eq)]
pub enum ImportError {
    /// The file at `path` could not be read; `cause` is the system's
    /// description of what went wrong.
    Io { path: String, cause: String },
    /// The text is not a JSON array of records; `diagnostic` says where it
    /// departs from one.
    Parse { diagnostic: String },
}

/// The mathematical value of an [`ImportError`].
pub ghost enum ImportErrorModel {
    Io { path: Seq<char>, cause: Seq<char> },
    Parse { diagnostic: Seq<char> },
}

impl ImportErrorModel {
    /// The description of the failure for a reader: the cause of a failed
    /// read, the diagnostic of a failed parse.
    pub open spec fn message(self) -> Seq<char> {
        match self {
            ImportErrorModel::Io { path, cause } => cause,
            ImportErrorModel::Parse { diagnostic } => diagnostic,
        }
    }
}

impl View for ImportError {
    type V = ImportErrorModel;

    open spec fn view(&self) -> ImportErrorModel {
        match *self {
            ImportError::Io { path, cause } => ImportErrorModel::Io { path: path@, cause: cause@ },
            ImportError::Parse { diagnostic } => ImportErrorModel::Parse { diagnostic: diagnostic@ },
        }
    }
}

impl ImportError {
    /// Whether the file could not be read.
    pub fn is_io(&self) -> (io: bool)
        ensures
            io == (self@ is Io),
    {
        match self {
            ImportError::Io { .. } => true,
            ImportError::Parse { .. } => false,
        }
    }

    /// Whether the text could not be parsed.
    pub fn is_parse(&self) -> (parse: bool)
        ensures
            parse == (self@ is Parse),
    {
        match self {
            ImportError::Io { .. } => false,
            ImportError::Parse { .. } => true,
        }
    }

    /// The description of the failure for a reader.
    pub fn message(&self) -> (message: String)
        ensures
            message@ == self@.message(),
    {
        match self {
            ImportError::Io { cause, .. } => cause.clone(),
            ImportError::Parse { diagnostic } => diagnostic.clone(),
        }
    }
}

} // verus!
