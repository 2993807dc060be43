use vstd::prelude::*;

verus! {

/// Structurally valid input that this client deliberately does not handle.
/// Distinct from a decode failure so that a caller can tell "this will never
/// work" from "this input was bad".
#[derive(Clone, Copy, PartialEq, Eq, Structural, Debug)]
pub enum UnsupportedFeature {
    /// A dictionary batch frame; dictionary-encoded columns are not supported.
    DictionaryBatch,
    /// A tensor frame.
    Tensor,
    /// A sparse tensor frame.
    SparseTensor,
    /// A column type outside the supported set.
    ColumnType,
    /// Materializing the results of a prepared statement query.
    PreparedQueryResults,
}

/// The error taxonomy of the protocol client.
#[derive(Debug)]
pub enum FlightError {
    /// The remote call failed at the transport layer; carried verbatim.
    Transport(String),
    /// A response is structurally incomplete relative to the protocol:
    /// a missing endpoint or ticket, or zero response frames where one
    /// was required.
    Malformed(String),
    /// Bytes that should parse as a command, schema or record batch do not.
    Decode(String),
    /// A structurally valid frame or column of a kind the client
    /// intentionally does not support.
    Unsupported(UnsupportedFeature),
    /// An operation on a prepared statement that was already closed.
    IllegalState,
}

impl FlightError {
    /// A human-readable description, in place of `Display`.
    pub fn message(&self) -> (m: String)
        ensures
            match self {
                FlightError::Transport(s) => m@ == s@,
                FlightError::Malformed(s) => m@ == s@,
                FlightError::Decode(s) => m@ == s@,
                FlightError::Unsupported(k) => match k {
                    UnsupportedFeature::DictionaryBatch => m@
                        == "dictionary batch frames are not supported"@,
                    UnsupportedFeature::Tensor => m@ == "tensor frames are not supported"@,
                    UnsupportedFeature::SparseTensor => m@
                        == "sparse tensor frames are not supported"@,
                    UnsupportedFeature::ColumnType => m@ == "column type is not supported"@,
                    UnsupportedFeature::PreparedQueryResults => m@
                        == "prepared statement query results are not supported"@,
                },
                FlightError::IllegalState => m@ == "Statement already closed."@,
            },
    {
        match self {
            FlightError::Transport(s) => s.clone(),
            FlightError::Malformed(s) => s.clone(),
            FlightError::Decode(s) => s.clone(),
            FlightError::Unsupported(k) => match k {
                UnsupportedFeature::DictionaryBatch => "dictionary batch frames are not supported".to_owned(),
                UnsupportedFeature::Tensor => "tensor frames are not supported".to_owned(),
                UnsupportedFeature::SparseTensor => "sparse tensor frames are not supported".to_owned(),
                UnsupportedFeature::ColumnType => "column type is not supported".to_owned(),
                UnsupportedFeature::PreparedQueryResults => "prepared statement query results are not supported".to_owned(),
            },
            FlightError::IllegalState => "Statement already closed.".to_owned(),
        }
    }
}

} // verus!
