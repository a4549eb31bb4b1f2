//! What the library asks of its driver, and what the driver answers.
//!
//! The driver is the code that owns the sockets. It carries out one
//! [`Request`] at a time, blocking or suspending as it sees fit, and reports
//! how the request ended.
use vstd::prelude::*;

verus! {

/// One thing for the driver to do.
#[derive(Debug, PartialEq, Eq)]
pub enum Request {
    /// Delete the file at the path. How this ends is never asked.
    RemoveFile(String),
    /// Bind a listening socket at the path.
    Bind(String),
    /// Dial the listener at the path.
    Connect(String),
    /// Make exactly one read call, for at most this many bytes.
    Read(usize),
    /// Write all of these bytes, retrying until none is left or writing fails.
    WriteAll(Vec<u8>),
    /// Close the connection.
    Close,
}

/// A [`Request`] as a mathematical value.
pub enum RequestView {
    RemoveFile(Seq<char>),
    Bind(Seq<char>),
    Connect(Seq<char>),
    Read(nat),
    WriteAll(Seq<u8>),
    Close,
}

impl View for Request {
    type V = RequestView;

    open spec fn view(&self) -> RequestView {
        match self {
            Request::RemoveFile(path) => RequestView::RemoveFile(path@),
            Request::Bind(path) => RequestView::Bind(path@),
            Request::Connect(path) => RequestView::Connect(path@),
            Request::Read(max) => RequestView::Read(*max as nat),
            Request::WriteAll(bytes) => RequestView::WriteAll(bytes@),
            Request::Close => RequestView::Close,
        }
    }
}

/// How a request on a connection ended. `E` is the driver's own account
/// of a failure, which the library hands on as it is.
#[derive(Debug, PartialEq, Eq)]
pub enum Outcome<E> {
    /// It was carried out and produced no bytes.
    Done,
    /// It was carried out and produced these bytes: what one read call
    /// returned, which is empty once the peer has closed.
    Received(Vec<u8>),
    /// The operating system refused it, for this cause.
    Failed(E),
}

/// An [`Outcome`] as a mathematical value.
pub enum OutcomeView<E> {
    Done,
    Received(Seq<u8>),
    Failed(E),
}

impl<E> OutcomeView<E> {
    /// The bytes that the request produced; none unless it was a read.
    pub open spec fn bytes(self) -> Seq<u8> {
        match self {
            OutcomeView::Received(bytes) => bytes,
            _ => Seq::empty(),
        }
    }
}

impl<E> View for Outcome<E> {
    type V = OutcomeView<E>;

    open spec fn view(&self) -> OutcomeView<E> {
        match self {
            Outcome::Done => OutcomeView::Done,
            Outcome::Received(bytes) => OutcomeView::Received(bytes@),
            Outcome::Failed(cause) => OutcomeView::Failed(*cause),
        }
    }
}

} // verus!
