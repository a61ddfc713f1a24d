//! The errors of reading inputs and of writing or reading artifacts.

use vstd::prelude::*;

use crate::text;
use crate::text::{Piece, PieceView};

verus! {

/// Why an output or a policy artifact could not be written or read.
#[derive(Clone, Debug, PartialEq)]
pub enum OutputError {
    /// A file operation failed.
    IoError {
        /// The file or directory.
        path: String,
        /// What the operating system reported.
        message: String,
    },
    /// A value could not be encoded, or bytes could not be decoded.
    SerializationError {
        /// What was being encoded or decoded.
        entity: String,
        /// What is wrong.
        message: String,
    },
    /// A manifest could not be written or read.
    ManifestError {
        /// Which manifest.
        manifest_type: String,
        /// What is wrong.
        message: String,
    },
}

impl OutputError {
    /// Whether this is the serialization error of `entity` with that message.
    pub open spec fn says(self, entity: Seq<char>, message: Seq<char>) -> bool {
        match self {
            OutputError::SerializationError { entity: e, message: m } => e@ == entity && m@
                == message,
            _ => false,
        }
    }

    /// A serialization error.
    pub fn serialization(entity: &str, message: String) -> (r: OutputError)
        ensures
            r.says(entity@, message@),
    {
        OutputError::SerializationError { entity: entity.to_owned(), message }
    }

    /// A serialization error with a fixed message.
    pub fn fixed(entity: &str, message: &str) -> (r: OutputError)
        ensures
            r.says(entity@, message@),
    {
        OutputError::SerializationError {
            entity: entity.to_owned(),
            message: message.to_owned(),
        }
    }
}

/// Why an input file was refused.
#[derive(Clone, Debug, PartialEq)]
pub enum LoadError {
    /// The file could not be read.
    IoError {
        /// The file.
        path: String,
        /// What the operating system reported.
        message: String,
    },
    /// The file is not of the expected syntax.
    ParseError {
        /// The file.
        path: String,
        /// What the parser reported.
        message: String,
    },
    /// A value breaks a rule of the input.
    SchemaError {
        /// The file.
        path: String,
        /// The field that breaks the rule.
        field: String,
        /// The rule and the value.
        message: Vec<Piece>,
    },
}

impl LoadError {
    /// Whether this is the schema error of that field with that message.
    pub open spec fn says(
        self,
        path: Seq<char>,
        field: Seq<char>,
        message: Seq<PieceView>,
    ) -> bool {
        match self {
            LoadError::SchemaError { path: p, field: f, message: m } => p@ == path && f@ == field
                && text::pieces(m@) == message,
            _ => false,
        }
    }

    /// A schema error.
    pub fn schema(path: &str, field: String, message: Vec<Piece>) -> (r: LoadError)
        ensures
            r.says(path@, field@, text::pieces(message@)),
    {
        LoadError::SchemaError { path: path.to_owned(), field, message }
    }
}

/// What a schema rule finds wrong: a field and what is wrong with it.
#[verifier::ext_equal]
pub struct Finding {
    /// The field's path in the file.
    pub field: Seq<char>,
    /// The message.
    pub message: Seq<PieceView>,
}

/// A check's result reports `finding`: no error where there is none, and else the
/// schema error that says it.
pub open spec fn reports<T>(result: Result<T, LoadError>, path: Seq<char>, finding: Option<
    Finding,
>) -> bool {
    match (result, finding) {
        (Ok(_), None) => true,
        (Err(e), Some(f)) => e.says(path, f.field, f.message),
        _ => false,
    }
}

/// What a check's result says: it is a success exactly where nothing is found, and what
/// is found is the file, the field and the message of a schema error.
pub proof fn findings_are_reported<T>(
    result: Result<T, LoadError>,
    path: Seq<char>,
    finding: Option<Finding>,
)
    requires
        reports(result, path, finding),
    ensures
        result is Ok <==> finding is None,
        finding matches Some(f) ==> match result {
            Err(LoadError::SchemaError { path: p, field, message }) => {
                &&& p@ == path
                &&& field@ == f.field
                &&& message@.len() == f.message.len()
                &&& forall|k: int|
                    0 <= k < f.message.len() ==> (#[trigger] message@[k])@ == f.message[k]
            },
            _ => false,
        },
{
    if let Err(LoadError::SchemaError { path: p, field, message }) = result {
        assert forall|k: int| 0 <= k < message@.len() implies (#[trigger] message@[k])@
            == text::pieces(message@)[k] by {}
    }
}

} // verus!
