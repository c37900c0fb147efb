//! Typed errors: invalid configuration, a remote response that violates the
//! expected contract, and a remote operation that failed with an HTTP status
//! outside the operation's success set.
use vstd::prelude::*;

use vstd::string::StringExecFns;

verus! {

/// The kind of a failure.
#[derive(Clone, Copy, PartialEq, Eq, Debug, Structural)]
pub enum ErrorKind {
    /// A required configuration field is missing; raised only at build time.
    ConfigInvalid,
    /// The remote response violates the expected contract.
    Unexpected,
    /// The remote returned an HTTP status outside the success set of the
    /// operation, carried along with the response body.
    RemoteOperationFailed,
}

/// A failure, annotated with the originating operation and the backend
/// identity.
#[derive(Debug)]
pub struct Error {
    /// What went wrong.
    pub kind: ErrorKind,
    /// The operation that failed.
    pub operation: String,
    /// The backend identity: the scheme this adapter serves.
    pub service: String,
    /// A human-readable description.
    pub message: String,
    /// The HTTP status for a failed remote operation.
    pub status: Option<u16>,
    /// The response body for a failed remote operation.
    pub body: Vec<u8>,
}

impl Error {
    /// A build-time configuration error.
    pub fn config_invalid(operation: &str, message: &str) -> (e: Error)
        ensures
            e.kind == ErrorKind::ConfigInvalid,
            e.operation@ == operation@,
            e.service@ == "azdls"@,
            e.message@ == message@,
            e.status is None,
    {
        Error {
            kind: ErrorKind::ConfigInvalid,
            operation: String::from_str(operation),
            service: String::from_str("azdls"),
            message: String::from_str(message),
            status: None,
            body: Vec::new(),
        }
    }

    /// A remote response that violates the expected contract.
    pub fn unexpected(operation: &str, message: &str) -> (e: Error)
        ensures
            e.kind == ErrorKind::Unexpected,
            e.operation@ == operation@,
            e.service@ == "azdls"@,
            e.message@ == message@,
            e.status is None,
    {
        Error {
            kind: ErrorKind::Unexpected,
            operation: String::from_str(operation),
            service: String::from_str("azdls"),
            message: String::from_str(message),
            status: None,
            body: Vec::new(),
        }
    }

    /// A remote operation that failed with `status`, keeping the drained
    /// response body for diagnosis.
    pub fn remote_operation_failed(operation: &str, status: u16, body: Vec<u8>) -> (e: Error)
        ensures
            e.kind == ErrorKind::RemoteOperationFailed,
            e.operation@ == operation@,
            e.service@ == "azdls"@,
            e.message@ == "the remote returned a status outside the success set"@,
            e.status == Some(status),
            e.body@ == body@,
    {
        Error {
            kind: ErrorKind::RemoteOperationFailed,
            operation: String::from_str(operation),
            service: String::from_str("azdls"),
            message: String::from_str("the remote returned a status outside the success set"),
            status: Some(status),
            body,
        }
    }

    /// What went wrong.
    pub fn kind(&self) -> (k: ErrorKind)
        ensures
            k == self.kind,
    {
        self.kind
    }
}

} // verus!
