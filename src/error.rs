use vstd::prelude::*;

verus! {

/// What can go wrong while reading or updating the configuration.
#[derive(Debug, Clone, PartialEq, Eq)]
pub enum CherryDbError {
    /// The store could not be opened, read or written.
    DatabaseError(String),
    /// A JSON text did not parse.
    JsonError(String),
    /// A store value is not a header byte followed by valid UTF-16 LE text.
    EncodingError(String),
    /// No entry of the store holds an `"mcp"` string field.
    ConfigNotFound,
    /// The store path does not exist.
    InvalidPath(String),
    /// No server has the requested identifier.
    ServerNotFound(String),
    /// A server record is not acceptable.
    InvalidServer(String),
}

} // verus!
