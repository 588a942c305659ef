//! Errors reported by this library.

use vstd::prelude::*;

verus! {

/// The kinds of failure this library distinguishes.
#[derive(Debug, Clone, Copy, PartialEq, Eq, Hash, Structural)]
pub enum ErrorKind {
    /// A value could not be converted to the wire format.
    BsonEncoding,
    /// A wire-format value could not be converted to the expected type.
    BsonDecoding,
    /// An identifier was required but none was present.
    MissingId,
    /// A required key was absent from a document.
    MissingDocumentField,
    /// A key was present in a document, but its value had the wrong type.
    IllTypedDocumentField,
    /// A fresh object identifier could not be generated.
    ObjectIdGeneration,
    /// A count reported by the store was negative.
    IntConversionUnderflow,
    /// A count reported by the store does not fit in a `usize`.
    IntConversionOverflow,
    /// The store or the transport to it reported a failure.
    MongoDbError,
    /// The store reported a write exception for a single-document write.
    MongoDbWriteException,
    /// The store reported a write exception for a bulk write.
    MongoDbBulkWriteException,
}

/// An error: its kind and a human-readable message.
#[derive(Debug, Clone)]
pub struct Error {
    pub kind: ErrorKind,
    pub message: String,
}

impl Error {
    /// Creates an error of the given kind with the given message.
    pub fn new(kind: ErrorKind, message: String) -> (r: Error)
        ensures
            r.kind == kind,
            r.message@ == message@,
    {
        Error { kind, message }
    }

    /// The kind of this error.
    pub fn kind(&self) -> (r: ErrorKind)
        ensures
            r == self.kind,
    {
        self.kind
    }

    /// The message of this error.
    pub fn message(&self) -> (r: &str)
        ensures
            r@ == self.message@,
    {
        self.message.as_str()
    }
}

/// Relies on `format!`: the context, a colon and a space, then the message.
#[verifier::external_body]
fn prefixed(context: &str, message: &str) -> (r: String)
    ensures
        r@ == context@ + ": "@ + message@,
{
    format!("{}: {}", context, message)
}

impl Error {
    /// The same error, its message prefixed by `context`: what was being done
    /// when it occurred.
    pub fn chain(self, context: &str) -> (r: Error)
        ensures
            r.kind == self.kind,
            r.message@ == context@ + ": "@ + self.message@,
    {
        Error { kind: self.kind, message: prefixed(context, self.message.as_str()) }
    }
}

/// The result type of this library.
pub type Result<T> = core::result::Result<T, Error>;

} // verus!
