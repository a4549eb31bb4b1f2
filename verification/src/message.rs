//! Messages: what one read call returned, and what becomes of it.
use vstd::prelude::*;
use vstd::slice::slice_subrange;
use vstd::string::*;
use vstd::utf8::*;

verus! {

/// The size of the buffer behind a typed read: no message read that way is
/// longer.
pub const READ_BUFFER_SIZE: usize = 1024;

/// How many of `arrived` bytes fit into a buffer of `room` bytes.
pub open spec fn fitting(room: nat, arrived: nat) -> nat {
    if arrived <= room {
        arrived
    } else {
        room
    }
}

/// The buffer after `bytes` were placed at its start: as many as fit, the
/// rest of the buffer as it was.
pub open spec fn delivered(buf: Seq<u8>, bytes: Seq<u8>) -> Seq<u8> {
    let n = fitting(buf.len(), bytes.len()) as int;
    bytes.take(n) + buf.skip(n)
}

/// Places `bytes` at the start of `buf` and returns how many were placed.
/// Bytes that do not fit are dropped without a word.
pub fn deliver(buf: &mut [u8], bytes: &[u8]) -> (count: usize)
    ensures
        count == fitting(old(buf)@.len(), bytes@.len()),
        final(buf)@ == delivered(old(buf)@, bytes@),
{
    let count = if bytes.len() <= buf.len() { bytes.len() } else { buf.len() };
    let mut i: usize = 0;
    while i < count
        invariant
            i <= count,
            count <= bytes@.len(),
            count <= old(buf)@.len(),
            buf@.len() == old(buf)@.len(),
            forall|k: int| 0 <= k < i ==> buf@[k] == bytes@[k],
            forall|k: int| i <= k < buf@.len() ==> buf@[k] == old(buf)@[k],
        decreases count - i,
    {
        buf[i] = bytes[i];
        i += 1;
    }
    assert(buf@ =~= delivered(old(buf)@, bytes@));
    count
}

/// The text that lossy UTF-8 decoding makes of `bytes`: every invalid
/// sequence replaced by U+FFFD, everything else as it stands.
pub uninterp spec fn utf8_lossy(bytes: Seq<u8>) -> Seq<char>;

/// The message in what one read call for a typed read returned: no more than
/// the read buffer holds.
pub open spec fn message_bytes(arrived: Seq<u8>) -> Seq<u8> {
    arrived.take(fitting(READ_BUFFER_SIZE as nat, arrived.len()) as int)
}

/// Calls `String::from_utf8_lossy` and takes ownership of what it returns.
///
/// Trusted: the result is the lossy decoding of `bytes`, which for valid
/// UTF-8 is the text that the bytes encode. Nothing is claimed about where
/// replacement characters go in invalid input.
#[verifier::external_body]
fn decode_lossy(bytes: &[u8]) -> (text: String)
    ensures
        text@ == utf8_lossy(bytes@),
        valid_utf8(bytes@) ==> text@ == decode_utf8(bytes@),
{
    String::from_utf8_lossy(bytes).into_owned()
}

/// Decodes a message as text. Bytes past the size of the read buffer are not
/// part of the message; invalid UTF-8 is replaced, never refused.
pub fn decode_message(arrived: &[u8]) -> (text: String)
    ensures
        text@ == utf8_lossy(message_bytes(arrived@)),
        valid_utf8(message_bytes(arrived@)) ==> text@ == decode_utf8(message_bytes(arrived@)),
{
    let end = if arrived.len() <= READ_BUFFER_SIZE { arrived.len() } else { READ_BUFFER_SIZE };
    let message = slice_subrange(arrived, 0, end);
    assert(message@ =~= message_bytes(arrived@));
    decode_lossy(message)
}

/// Encodes text as the bytes to put on the wire: its UTF-8 encoding.
pub fn encode_message(text: &str) -> (bytes: Vec<u8>)
    ensures
        bytes@ == encode_utf8(text@),
{
    text.as_bytes_vec()
}

/// Text that was encoded and arrives whole in one read decodes to itself.
pub proof fn lemma_decode_encoded(text: Seq<char>)
    requires
        encode_utf8(text).len() <= READ_BUFFER_SIZE,
    ensures
        message_bytes(encode_utf8(text)) == encode_utf8(text),
        valid_utf8(message_bytes(encode_utf8(text))),
        decode_utf8(message_bytes(encode_utf8(text))) == text,
{
    let bytes = encode_utf8(text);
    assert(message_bytes(bytes) =~= bytes);
    encode_utf8_valid_utf8(text);
    encode_utf8_decode_utf8(text);
}

} // verus!
