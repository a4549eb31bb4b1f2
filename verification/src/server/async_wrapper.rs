//! The listener for a cooperative driver: the same decisions, taken while
//! the driver suspends a task instead of blocking a thread.
use vstd::prelude::*;
use vstd::utf8::*;

use crate::connection::{
    finish_read, finish_read_text, finish_send, read_text_spec, sent_spec, text_view,
};
use crate::driver::{Outcome, Request, RequestView};
use crate::error::IpcError;
use crate::message::{encode_message, message_bytes, READ_BUFFER_SIZE};
use crate::path::full_path_spec;
use crate::server::{accepted_spec, RawListener};

verus! {

/// A connection that an [`AsyncListener`] accepted.
#[derive(Debug, PartialEq, Eq)]
pub struct Connection<S> {
    pub stream: S,
}

impl<S> Connection<S> {
    /// Wraps the handle of a connected socket.
    pub fn new(stream: S) -> (connection: Self)
        ensures
            connection.stream == stream,
    {
        Self { stream }
    }

    /// The request behind [`Connection::read`]: one read call for a full
    /// read buffer.
    pub fn read_request(&self) -> (request: Request)
        ensures
            request@ == RequestView::Read(READ_BUFFER_SIZE as nat),
    {
        Request::Read(READ_BUFFER_SIZE)
    }

    /// Ends a typed read, as text. No bytes means `EndOfStream`.
    pub fn read_text<E>(&self, outcome: Outcome<E>) -> (result: Result<String, IpcError<E>>)
        ensures
            text_view(result) == read_text_spec(outcome@),
            result matches Ok(text) ==> (valid_utf8(message_bytes(outcome@.bytes())) ==> text@
                == decode_utf8(message_bytes(outcome@.bytes()))),
    {
        finish_read_text(outcome)
    }

    /// Ends a typed read: the decoded message, converted into the caller's
    /// type. No bytes means `EndOfStream`.
    pub fn read<T: From<String>, E>(&self, outcome: Outcome<E>) -> (result: Result<T, IpcError<E>>)
        ensures
            result is Ok <==> read_text_spec(outcome@) is Ok,
            result matches Err(error) ==> read_text_spec(outcome@) == Err::<Seq<char>, IpcError<E>>(
                error,
            ),
            result matches Ok(value) ==> exists|text: String|
                read_text_spec(outcome@) == Ok::<Seq<char>, IpcError<E>>(text@) && (valid_utf8(
                    message_bytes(outcome@.bytes()),
                ) ==> text@ == decode_utf8(message_bytes(outcome@.bytes()))) && call_ensures(
                    T::from,
                    (text,),
                    value,
                ),
    {
        finish_read(outcome)
    }

    /// The request that sends `response` as text: its UTF-8 encoding.
    pub fn send(&self, response: &str) -> (request: Request)
        ensures
            request@ == RequestView::WriteAll(encode_utf8(response@)),
    {
        Request::WriteAll(encode_message(response))
    }

    /// Ends a send: all of it went out, or it failed.
    pub fn sent<E>(&self, outcome: Outcome<E>) -> (result: Result<(), IpcError<E>>)
        ensures
            result == sent_spec(outcome@),
    {
        finish_send(outcome)
    }
}

/// A listener for a cooperative driver, built on [`RawListener`].
#[derive(Debug)]
pub struct AsyncListener<L> {
    pub ipc_server: RawListener<L>,
}

impl<L> AsyncListener<L> {
    /// Ends the bind of [`crate::server::bind_requests`]: a listener for
    /// the socket that the driver bound, or `Bind` with the driver's cause.
    pub fn new<E>(sock_name: &str, bound: Result<L, E>) -> (result: Result<Self, IpcError<E>>)
        ensures
            match bound {
                Ok(listener) => result matches Ok(server) && server.ipc_server.socket_name@
                    == sock_name@ && server.ipc_server.raw_path@ == full_path_spec(sock_name@)
                    && server.ipc_server.listener == listener,
                Err(cause) => result matches Err(error) && error == IpcError::Bind(cause),
            },
    {
        match RawListener::new(sock_name, bound) {
            Ok(ipc_server) => Ok(AsyncListener { ipc_server }),
            Err(error) => Err(error),
        }
    }

    /// The path that the listener is bound to.
    pub fn get_raw_path(&self) -> (path: String)
        ensures
            path@ == self.ipc_server.raw_path@,
    {
        self.ipc_server.raw_path.clone()
    }

    /// Ends an accept: the connection to the peer, or `Accept` with the
    /// driver's cause. The listener can accept again either way.
    pub fn wait_for_connection<S, E>(&self, accepted: Result<S, E>) -> (result: Result<
        Connection<S>,
        IpcError<E>,
    >)
        ensures
            result == match accepted_spec(accepted) {
                Ok(stream) => Ok::<Connection<S>, IpcError<E>>(Connection { stream }),
                Err(error) => Err::<Connection<S>, IpcError<E>>(error),
            },
    {
        match self.ipc_server.wait_connection(accepted) {
            Ok(data) => Ok(Connection::new(data.stream)),
            Err(error) => Err(error),
        }
    }
}

} // verus!
