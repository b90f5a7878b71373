//! Wire framing for the remote link: one record carries a `Message`'s content
//! and end-of-stream flag together.
//!
//! A record is the content length as eight little-endian bytes, then the
//! content itself, then one flag byte (1 for end of stream, 0 otherwise).
//! A record embeds its own length, and a decode succeeds only when the buffer
//! holds exactly one complete record: a truncated record, or several records
//! coalesced into one buffer, is a decode failure. The relay treats such a
//! failure as a connection failure, so a record must fit in one socket read
//! and arrive alone in it.

use vstd::bytes::lemma_auto_spec_u64_to_from_le_bytes;
use vstd::bytes::spec_u64_from_le_bytes;
use vstd::bytes::spec_u64_to_le_bytes;
use vstd::bytes::u64_from_le_bytes;
use vstd::bytes::u64_to_le_bytes;
use vstd::prelude::*;
use vstd::slice::slice_index_get;
use vstd::slice::slice_subrange;
use vstd::slice::slice_to_vec;

use crate::error::DecodeError;
use crate::message::Message;
use crate::message::MessageView;

verus! {

/// The flag byte that carries `eof` on the wire.
pub open spec fn eof_byte(eof: bool) -> u8 {
    if eof {
        1
    } else {
        0
    }
}

/// The encoded wire record of a message: length prefix, content, flag byte.
pub open spec fn encoding(m: MessageView) -> Seq<u8>
    recommends
        m.content.len() <= u64::MAX,
{
    spec_u64_to_le_bytes(m.content.len() as u64) + m.content + seq![eof_byte(m.eof)]
}

/// What decoding a buffer yields: the message it holds, or why it is not
/// exactly one well-formed record.
pub open spec fn spec_decode(bytes: Seq<u8>) -> Result<MessageView, DecodeError> {
    if bytes.len() < 9 {
        Err(DecodeError::TooShort)
    } else if spec_u64_from_le_bytes(bytes.subrange(0, 8)) != bytes.len() - 9 {
        Err(DecodeError::WrongLength)
    } else if bytes.last() != 0 && bytes.last() != 1 {
        Err(DecodeError::BadEofByte)
    } else {
        Ok(
            MessageView {
                content: bytes.subrange(8, bytes.len() - 1),
                eof: bytes.last() == 1,
            },
        )
    }
}

/// True exactly on buffers that hold one complete wire record and nothing else.
pub open spec fn is_wire_record(bytes: Seq<u8>) -> bool {
    spec_decode(bytes) is Ok
}

/// Encode one message as its wire record.
pub fn encode_message(m: &Message) -> (r: Vec<u8>)
    ensures
        r@ == encoding(m@),
        r@.len() == m@.content.len() + 9,
{
    let len = m.content.len();
    let mut r = u64_to_le_bytes(len as u64);
    r.extend_from_slice(m.content.as_slice());
    r.push(if m.eof {
        1
    } else {
        0
    });
    proof {
        lemma_auto_spec_u64_to_from_le_bytes();
        assert(r@ =~= encoding(m@));
    }
    r
}

/// Decode one wire record. Succeeds exactly when the buffer is one complete
/// record; reports which way it fails otherwise.
pub fn decode_message(bytes: &[u8]) -> (r: Result<Message, DecodeError>)
    ensures
        r matches Ok(m) ==> spec_decode(bytes@) == Ok::<MessageView, DecodeError>(m@),
        r matches Err(e) ==> spec_decode(bytes@) == Err::<MessageView, DecodeError>(e),
        r is Ok <==> is_wire_record(bytes@),
{
    let n = bytes.len();
    if n < 9 {
        return Err(DecodeError::TooShort);
    }
    let prefix = slice_subrange(bytes, 0, 8);
    let len = u64_from_le_bytes(prefix);
    if len != (n - 9) as u64 {
        return Err(DecodeError::WrongLength);
    }
    let flag = *slice_index_get(bytes, n - 1);
    if flag != 0 && flag != 1 {
        return Err(DecodeError::BadEofByte);
    }
    let content = slice_to_vec(slice_subrange(bytes, 8, n - 1));
    Ok(Message { content, eof: flag == 1 })
}

/// Framing round-trip: decoding the encoding of any message yields that
/// message, with identical content bytes and identical `eof` flag.
pub proof fn lemma_codec_round_trip(m: MessageView)
    requires
        m.content.len() <= u64::MAX,
    ensures
        is_wire_record(encoding(m)),
        spec_decode(encoding(m)) == Ok::<MessageView, DecodeError>(m),
        encoding(m).len() == m.content.len() + 9,
{
    lemma_auto_spec_u64_to_from_le_bytes();
    let e = encoding(m);
    let n = m.content.len() as u64;
    assert(spec_u64_to_le_bytes(n).len() == 8);
    assert(e.subrange(0, 8) =~= spec_u64_to_le_bytes(n));
    assert(e.last() == eof_byte(m.eof));
    assert(e.subrange(8, e.len() - 1) =~= m.content);
    assert(spec_decode(e)->Ok_0 =~= m);
}

} // verus!
