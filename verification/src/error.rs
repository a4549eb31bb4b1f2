//! The failures that the operations report.
use vstd::prelude::*;

verus! {

/// The error of an operation.
///
/// `E` is the driver's own account of a failure: for a driver on the
/// standard library the error of the failed call, as it is. The library
/// never looks into it, never makes one up and never drops one: each
/// variant but `EndOfStream` carries the cause that the driver reported,
/// unchanged.
#[derive(Debug, PartialEq, Eq)]
pub enum IpcError<E> {
    /// The path cannot be listened on.
    Bind(E),
    /// Accepting a peer failed.
    Accept(E),
    /// Dialing failed.
    Connect(E),
    /// Reading failed.
    Read(E),
    /// The peer closed the connection: a read returned no bytes.
    EndOfStream,
    /// Writing failed.
    Write(E),
}

impl<E> IpcError<E> {
    /// The cause that the driver reported, if the error has one.
    pub open spec fn cause_spec(self) -> Option<E> {
        match self {
            IpcError::Bind(cause) => Some(cause),
            IpcError::Accept(cause) => Some(cause),
            IpcError::Connect(cause) => Some(cause),
            IpcError::Read(cause) => Some(cause),
            IpcError::EndOfStream => None,
            IpcError::Write(cause) => Some(cause),
        }
    }

    /// Gives the driver's cause back as it came; `None` for `EndOfStream`,
    /// which no failure of the operating system stands behind.
    pub fn into_cause(self) -> (cause: Option<E>)
        ensures
            cause == self.cause_spec(),
    {
        match self {
            IpcError::Bind(cause) => Some(cause),
            IpcError::Accept(cause) => Some(cause),
            IpcError::Connect(cause) => Some(cause),
            IpcError::Read(cause) => Some(cause),
            IpcError::EndOfStream => None,
            IpcError::Write(cause) => Some(cause),
        }
    }
}

} // verus!
