//! A connection to one peer: what to ask of the driver, and what its
//! answers mean.
use vstd::prelude::*;
use vstd::utf8::*;

use crate::driver::{Outcome, OutcomeView, Request, RequestView};
use crate::error::IpcError;
use crate::message::{
    decode_message, deliver, delivered, encode_message, fitting, lemma_decode_encoded,
    message_bytes, utf8_lossy, READ_BUFFER_SIZE,
};

verus! {

/// What a raw read into a buffer of `room` bytes returns for `outcome`:
/// the number of bytes placed, never zero.
pub open spec fn read_raw_spec<E>(room: nat, outcome: OutcomeView<E>) -> Result<usize, IpcError<E>> {
    match outcome {
        OutcomeView::Failed(cause) => Err(IpcError::Read(cause)),
        _ => {
            let count = fitting(room, outcome.bytes().len());
            if count == 0 {
                Err(IpcError::EndOfStream)
            } else {
                Ok(count as usize)
            }
        },
    }
}

/// The caller's buffer after a raw read that ended in `outcome`.
pub open spec fn read_raw_buffer<E>(buf: Seq<u8>, outcome: OutcomeView<E>) -> Seq<u8> {
    delivered(buf, outcome.bytes())
}

/// What a typed read returns for `outcome`, as text.
pub open spec fn read_text_spec<E>(outcome: OutcomeView<E>) -> Result<Seq<char>, IpcError<E>> {
    match outcome {
        OutcomeView::Failed(cause) => Err(IpcError::Read(cause)),
        _ => if outcome.bytes().len() == 0 {
            Err(IpcError::EndOfStream)
        } else {
            Ok(utf8_lossy(message_bytes(outcome.bytes())))
        },
    }
}

/// A typed read's result with its text as a sequence of characters.
pub open spec fn text_view<E>(result: Result<String, IpcError<E>>) -> Result<Seq<char>, IpcError<E>> {
    match result {
        Ok(text) => Ok(text@),
        Err(error) => Err(error),
    }
}

/// The request that sends `response` as it is.
pub open spec fn send_raw_spec(response: Seq<u8>) -> RequestView {
    RequestView::WriteAll(response)
}

/// The request that sends `response` as text.
pub open spec fn send_spec(response: Seq<char>) -> RequestView {
    RequestView::WriteAll(encode_utf8(response))
}

/// The bytes that a request puts on the wire: those of a write, none for
/// any other request.
pub open spec fn written(request: RequestView) -> Seq<u8> {
    match request {
        RequestView::WriteAll(bytes) => bytes,
        _ => Seq::empty(),
    }
}

/// What a write returns for `outcome`.
pub open spec fn sent_spec<E>(outcome: OutcomeView<E>) -> Result<(), IpcError<E>> {
    match outcome {
        OutcomeView::Failed(cause) => Err(IpcError::Write(cause)),
        _ => Ok(()),
    }
}

/// What was sent is what is read. When one read call of the peer returns
/// all the bytes of a send, and the payload is not empty and fits the
/// peer's buffer, the raw read returns the payload's length and the buffer
/// starts with the payload.
pub proof fn law_sent_bytes_are_read<E>(payload: Seq<u8>, buf: Seq<u8>)
    requires
        0 < payload.len() <= buf.len() <= usize::MAX,
    ensures
        read_raw_spec(buf.len(), OutcomeView::<E>::Received(written(send_raw_spec(payload)))) == Ok::<
            usize,
            IpcError<E>,
        >(payload.len() as usize),
        read_raw_buffer(buf, OutcomeView::<E>::Received(written(send_raw_spec(payload)))).take(
            payload.len() as int,
        ) == payload,
        read_raw_buffer(buf, OutcomeView::<E>::Received(written(send_raw_spec(payload)))).skip(
            payload.len() as int,
        ) == buf.skip(payload.len() as int),
{
    let after = read_raw_buffer(buf, OutcomeView::<E>::Received(payload));
    assert(payload.take(payload.len() as int) =~= payload);
    assert(after.take(payload.len() as int) =~= payload);
    assert(after.skip(payload.len() as int) =~= buf.skip(payload.len() as int));
}

/// Text that was sent is the text that is read. When one read call of the
/// peer returns all the bytes of a text send, and the text is not empty and
/// its encoding fits the read buffer, the typed read succeeds on a message
/// that is valid UTF-8 and decodes to the text. By their own contracts
/// `read_text` then returns the text, and `read` hands it to the caller's
/// conversion.
pub proof fn law_sent_text_is_read<E>(text: Seq<char>)
    requires
        0 < encode_utf8(text).len() <= READ_BUFFER_SIZE,
    ensures
        read_text_spec(OutcomeView::<E>::Received(written(send_spec(text)))) is Ok,
        message_bytes(written(send_spec(text))) == encode_utf8(text),
        valid_utf8(message_bytes(written(send_spec(text)))),
        decode_utf8(message_bytes(written(send_spec(text)))) == text,
{
    lemma_decode_encoded(text);
}

/// A read on a connection whose peer has closed ends in `EndOfStream`, raw
/// or typed, whatever the size of the buffer.
pub proof fn law_closed_peer_is_end_of_stream<E>(room: nat, outcome: OutcomeView<E>)
    requires
        !(outcome is Failed),
        outcome.bytes().len() == 0,
    ensures
        read_raw_spec(room, outcome) == Err::<usize, IpcError<E>>(IpcError::EndOfStream),
        read_text_spec(outcome) == Err::<Seq<char>, IpcError<E>>(IpcError::EndOfStream),
{
}

/// No read succeeds with nothing: a raw read never returns `Ok(0)`, and a
/// typed read that returns text had a message of at least one byte.
pub proof fn law_no_empty_read<E>(room: nat, outcome: OutcomeView<E>)
    requires
        room <= usize::MAX,
    ensures
        read_raw_spec(room, outcome) matches Ok(count) ==> 0 < count <= room,
        read_text_spec(outcome) is Ok ==> message_bytes(outcome.bytes()).len() > 0,
        read_text_spec(outcome) is Ok ==> !(outcome is Failed),
{
}

/// Ends a raw read for every kind of connection.
pub(crate) fn finish_read_raw<E>(buf: &mut [u8], outcome: Outcome<E>) -> (result: Result<
    usize,
    IpcError<E>,
>)
    ensures
        result == read_raw_spec(old(buf)@.len(), outcome@),
        final(buf)@ == read_raw_buffer(old(buf)@, outcome@),
        result matches Ok(count) ==> 0 < count <= old(buf)@.len(),
{
    match outcome {
        Outcome::Failed(cause) => {
            assert(buf@ =~= delivered(buf@, Seq::empty()));
            Err(IpcError::Read(cause))
        },
        Outcome::Done => {
            assert(buf@ =~= delivered(buf@, Seq::empty()));
            Err(IpcError::EndOfStream)
        },
        Outcome::Received(bytes) => {
            let count = deliver(buf, bytes.as_slice());
            if count == 0 {
                Err(IpcError::EndOfStream)
            } else {
                Ok(count)
            }
        },
    }
}

/// Ends a typed read for every kind of connection, as text.
pub(crate) fn finish_read_text<E>(outcome: Outcome<E>) -> (result: Result<String, IpcError<E>>)
    ensures
        text_view(result) == read_text_spec(outcome@),
        result matches Ok(text) ==> (valid_utf8(message_bytes(outcome@.bytes())) ==> text@
            == decode_utf8(message_bytes(outcome@.bytes()))),
{
    match outcome {
        Outcome::Failed(cause) => Err(IpcError::Read(cause)),
        Outcome::Done => Err(IpcError::EndOfStream),
        Outcome::Received(bytes) => {
            if bytes.len() == 0 {
                Err(IpcError::EndOfStream)
            } else {
                Ok(decode_message(bytes.as_slice()))
            }
        },
    }
}

/// Ends a typed read for every kind of connection, in the caller's type.
pub(crate) fn finish_read<T: From<String>, E>(outcome: Outcome<E>) -> (result: Result<T, IpcError<E>>)
    ensures
        result is Ok <==> read_text_spec(outcome@) is Ok,
        result matches Err(error) ==> read_text_spec(outcome@) == Err::<Seq<char>, IpcError<E>>(
            error,
        ),
        result matches Ok(value) ==> exists|text: String|
            read_text_spec(outcome@) == Ok::<Seq<char>, IpcError<E>>(text@) && (valid_utf8(
                message_bytes(outcome@.bytes()),
            ) ==> text@ == decode_utf8(message_bytes(outcome@.bytes()))) && call_ensures(
                T::from,
                (text,),
                value,
            ),
{
    match finish_read_text(outcome) {
        Ok(text) => {
            let value = T::from(text);
            Ok(value)
        },
        Err(error) => Err(error),
    }
}

/// Ends a send for every kind of connection.
pub(crate) fn finish_send<E>(outcome: Outcome<E>) -> (result: Result<(), IpcError<E>>)
    ensures
        result == sent_spec(outcome@),
{
    match outcome {
        Outcome::Failed(cause) => Err(IpcError::Write(cause)),
        _ => Ok(()),
    }
}

/// A connection to one peer, accepted by a listener or dialed by a client.
/// It owns the driver's handle of the socket and is not cloned: whoever
/// holds the value holds the connection.
#[derive(Debug, PartialEq, Eq)]
pub struct Connection<S> {
    pub stream: S,
}

impl<S> Connection<S> {
    /// Wraps the handle of a connected socket.
    pub fn new(stream: S) -> (connection: Self)
        ensures
            connection.stream == stream,
    {
        Self { stream }
    }

    /// The request behind [`Connection::read_raw`]: one read call for as
    /// many bytes as `buf` holds.
    pub fn read_raw_request(&self, buf: &[u8]) -> (request: Request)
        ensures
            request@ == RequestView::Read(buf@.len()),
    {
        Request::Read(buf.len())
    }

    /// Ends a raw read: places what arrived at the start of `buf` and
    /// returns how many bytes that was. No bytes means that the peer has
    /// closed, which is `EndOfStream` and never `Ok(0)`.
    pub fn read_raw<E>(&self, buf: &mut [u8], outcome: Outcome<E>) -> (result: Result<usize, IpcError<E>>)
        ensures
            result == read_raw_spec(old(buf)@.len(), outcome@),
            final(buf)@ == read_raw_buffer(old(buf)@, outcome@),
            result matches Ok(count) ==> 0 < count <= old(buf)@.len(),
    {
        finish_read_raw(buf, outcome)
    }

    /// The request behind [`Connection::read`] and
    /// [`Connection::read_text`]: one read call for a full read buffer.
    pub fn read_request(&self) -> (request: Request)
        ensures
            request@ == RequestView::Read(READ_BUFFER_SIZE as nat),
    {
        Request::Read(READ_BUFFER_SIZE)
    }

    /// Ends a typed read, as text: the message decoded as UTF-8, invalid
    /// sequences replaced. No bytes means `EndOfStream`.
    pub fn read_text<E>(&self, outcome: Outcome<E>) -> (result: Result<String, IpcError<E>>)
        ensures
            text_view(result) == read_text_spec(outcome@),
            result matches Ok(text) ==> (valid_utf8(message_bytes(outcome@.bytes())) ==> text@
                == decode_utf8(message_bytes(outcome@.bytes()))),
    {
        finish_read_text(outcome)
    }

    /// Ends a typed read: the text of [`Connection::read_text`], converted
    /// into the caller's type.
    pub fn read<T: From<String>, E>(&self, outcome: Outcome<E>) -> (result: Result<T, IpcError<E>>)
        ensures
            result is Ok <==> read_text_spec(outcome@) is Ok,
            result matches Err(error) ==> read_text_spec(outcome@) == Err::<Seq<char>, IpcError<E>>(
                error,
            ),
            result matches Ok(value) ==> exists|text: String|
                read_text_spec(outcome@) == Ok::<Seq<char>, IpcError<E>>(text@) && (valid_utf8(
                    message_bytes(outcome@.bytes()),
                ) ==> text@ == decode_utf8(message_bytes(outcome@.bytes()))) && call_ensures(
                    T::from,
                    (text,),
                    value,
                ),
    {
        finish_read(outcome)
    }

    /// The request that sends `response` as it is.
    pub fn send_raw(&self, response: Vec<u8>) -> (request: Request)
        ensures
            request@ == send_raw_spec(response@),
    {
        Request::WriteAll(response)
    }

    /// The request that sends `response` as text: its UTF-8 encoding.
    pub fn send(&self, response: &str) -> (request: Request)
        ensures
            request@ == send_spec(response@),
    {
        Request::WriteAll(encode_message(response))
    }

    /// Ends a send. The write is all or nothing: it either went out whole
    /// or failed.
    pub fn sent<E>(&self, outcome: Outcome<E>) -> (result: Result<(), IpcError<E>>)
        ensures
            result == sent_spec(outcome@),
    {
        finish_send(outcome)
    }
}

} // verus!
