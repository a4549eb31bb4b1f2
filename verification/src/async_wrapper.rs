//! Listener, connection and dial for a cooperative driver: one that
//! suspends the calling task while a request is pending. The decisions are
//! those of the blocking side.
use vstd::prelude::*;
use vstd::string::*;
use vstd::utf8::*;

use crate::connection::{
    finish_read, finish_read_raw, finish_read_text, finish_send, read_raw_buffer, read_raw_spec,
    read_text_spec, sent_spec, text_view,
};
use crate::driver::{Outcome, Request, RequestView};
use crate::error::IpcError;
use crate::message::{encode_message, message_bytes, READ_BUFFER_SIZE};
use crate::path::{full_path_spec, get_full_path};
use crate::server::accepted_spec;

verus! {

/// A connection held by a task of a cooperative driver.
#[derive(Debug, PartialEq, Eq)]
pub struct AsyncConnection<S> {
    pub stream: S,
}

impl<S> AsyncConnection<S> {
    /// Wraps the handle of a connected socket.
    pub fn new(stream: S) -> (connection: Self)
        ensures
            connection.stream == stream,
    {
        Self { stream }
    }

    /// The request behind [`AsyncConnection::read_raw`]: one read call for
    /// as many bytes as `buf` holds.
    pub fn read_raw_request(&self, buf: &[u8]) -> (request: Request)
        ensures
            request@ == RequestView::Read(buf@.len()),
    {
        Request::Read(buf.len())
    }

    /// Ends a raw read: places what arrived at the start of `buf` and
    /// returns how many bytes that was. No bytes means that the peer has
    /// closed, which is `EndOfStream` and never `Ok(0)`.
    pub fn read_raw<E>(&self, buf: &mut [u8], outcome: Outcome<E>) -> (result: Result<usize, IpcError<E>>)
        ensures
            result == read_raw_spec(old(buf)@.len(), outcome@),
            final(buf)@ == read_raw_buffer(old(buf)@, outcome@),
            result matches Ok(count) ==> 0 < count <= old(buf)@.len(),
    {
        finish_read_raw(buf, outcome)
    }

    /// The request behind [`AsyncConnection::read`]: one read call for a
    /// full read buffer.
    pub fn read_request(&self) -> (request: Request)
        ensures
            request@ == RequestView::Read(READ_BUFFER_SIZE as nat),
    {
        Request::Read(READ_BUFFER_SIZE)
    }

    /// Ends a typed read, as text. No bytes means `EndOfStream`.
    pub fn read_text<E>(&self, outcome: Outcome<E>) -> (result: Result<String, IpcError<E>>)
        ensures
            text_view(result) == read_text_spec(outcome@),
            result matches Ok(text) ==> (valid_utf8(message_bytes(outcome@.bytes())) ==> text@
                == decode_utf8(message_bytes(outcome@.bytes()))),
    {
        finish_read_text(outcome)
    }

    /// Ends a typed read: the decoded message, converted into the caller's
    /// type. No bytes means `EndOfStream`.
    pub fn read<T: From<String>, E>(&self, outcome: Outcome<E>) -> (result: Result<T, IpcError<E>>)
        ensures
            result is Ok <==> read_text_spec(outcome@) is Ok,
            result matches Err(error) ==> read_text_spec(outcome@) == Err::<Seq<char>, IpcError<E>>(
                error,
            ),
            result matches Ok(value) ==> exists|text: String|
                read_text_spec(outcome@) == Ok::<Seq<char>, IpcError<E>>(text@) && (valid_utf8(
                    message_bytes(outcome@.bytes()),
                ) ==> text@ == decode_utf8(message_bytes(outcome@.bytes()))) && call_ensures(
                    T::from,
                    (text,),
                    value,
                ),
    {
        finish_read(outcome)
    }

    /// The request that sends `response` as text: its UTF-8 encoding.
    pub fn send(&self, response: &str) -> (request: Request)
        ensures
            request@ == RequestView::WriteAll(encode_utf8(response@)),
    {
        Request::WriteAll(encode_message(response))
    }

    /// Ends a send: all of it went out, or it failed.
    pub fn sent<E>(&self, outcome: Outcome<E>) -> (result: Result<(), IpcError<E>>)
        ensures
            result == sent_spec(outcome@),
    {
        finish_send(outcome)
    }
}

/// A listener held by a task of a cooperative driver: the handle of one
/// bound socket, the name it was given, as it was given, and the path it is
/// bound to.
#[derive(Debug)]
pub struct AsyncServer<L> {
    pub listener: L,
    pub raw_path: String,
    pub full_path: String,
}

impl<L> AsyncServer<L> {
    /// Ends the bind of [`crate::server::bind_requests`]: a listener for
    /// the socket that the driver bound, or `Bind` with the driver's cause.
    pub fn new<E>(sock_name: &str, bound: Result<L, E>) -> (result: Result<Self, IpcError<E>>)
        ensures
            match bound {
                Ok(listener) => result matches Ok(server) && server.raw_path@ == sock_name@
                    && server.full_path@ == full_path_spec(sock_name@) && server.listener
                    == listener,
                Err(cause) => result matches Err(error) && error == IpcError::Bind(cause),
            },
    {
        match bound {
            Ok(listener) => Ok(
                AsyncServer {
                    listener,
                    raw_path: String::from_str(sock_name),
                    full_path: get_full_path(sock_name),
                },
            ),
            Err(cause) => Err(IpcError::Bind(cause)),
        }
    }

    /// The name that the listener was made with, exactly as it was given:
    /// not the path that the name stands for, which is `full_path`.
    pub fn get_raw_path(&self) -> (path: String)
        ensures
            path@ == self.raw_path@,
    {
        self.raw_path.clone()
    }

    /// Ends an accept: the connection to the peer, or `Accept` with the
    /// driver's cause. The listener can accept again either way.
    pub fn wait_for_connection<S, E>(&self, accepted: Result<S, E>) -> (result: Result<
        AsyncConnection<S>,
        IpcError<E>,
    >)
        ensures
            result == match accepted_spec(accepted) {
                Ok(stream) => Ok::<AsyncConnection<S>, IpcError<E>>(AsyncConnection { stream }),
                Err(error) => Err::<AsyncConnection<S>, IpcError<E>>(error),
            },
    {
        match accepted {
            Ok(stream) => Ok(AsyncConnection::new(stream)),
            Err(cause) => Err(IpcError::Accept(cause)),
        }
    }
}

/// The request that dials the listener named `sock_name`.
pub fn new_client_async(sock_name: &str) -> (request: Request)
    ensures
        request@ == RequestView::Connect(full_path_spec(sock_name@)),
{
    Request::Connect(get_full_path(sock_name))
}

/// Ends a dial: the connection over the socket that the driver opened, or
/// `Connect` with the driver's cause.
pub fn connected_async<S, E>(dialed: Result<S, E>) -> (result: Result<
    AsyncConnection<S>,
    IpcError<E>,
>)
    ensures
        result == match dialed {
            Ok(stream) => Ok::<AsyncConnection<S>, IpcError<E>>(AsyncConnection { stream }),
            Err(cause) => Err::<AsyncConnection<S>, IpcError<E>>(IpcError::Connect(cause)),
        },
{
    match dialed {
        Ok(stream) => Ok(AsyncConnection::new(stream)),
        Err(cause) => Err(IpcError::Connect(cause)),
    }
}

} // verus!
