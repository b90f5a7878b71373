//! The two pump loops' logic, one step at a time.
//!
//! A receive pump owns the read half of one socket: each iteration reads up
//! to `CHUNK_SIZE` bytes and turns them into one `Message` for its outbound
//! queue (`receive_step`), stopping after the message whose `eof` is true.
//! A send pump owns the write half: each iteration pops one `Message` from
//! its inbound queue and turns it into the bytes to write (`send_step`),
//! stopping after writing the first message whose `eof` is true.
//!
//! On the raw link the bytes pass through verbatim; on the framed link each
//! message travels as one wire record.

use vstd::prelude::*;
use vstd::slice::slice_to_vec;

use crate::codec::decode_message;
use crate::codec::encode_message;
use crate::codec::encoding;
use crate::codec::is_wire_record;
use crate::codec::lemma_codec_round_trip;
use crate::codec::spec_decode;
use crate::error::DecodeError;
use crate::message::Message;
use crate::message::MessageView;
use crate::queue::MessageQueue;

verus! {

/// The most bytes one socket read hands a receive pump, and so the most a
/// framed wire record may occupy.
pub const CHUNK_SIZE: usize = 4096;

/// Which wire representation an endpoint uses: `Raw` passes content bytes
/// verbatim, `Framed` carries each message as one encoded wire record.
#[derive(Clone, Copy, Debug, PartialEq, Eq, Structural)]
pub enum Framing {
    Raw,
    Framed,
}

/// The message a raw receive pump makes of one socket read: the exact bytes
/// read, with `eof` set exactly on a zero-length read.
pub open spec fn raw_received(chunk: Seq<u8>) -> MessageView {
    MessageView { content: chunk, eof: chunk.len() == 0 }
}

/// What one receive-pump iteration makes of the chunk a socket read returned.
/// A zero-length read means the peer ended its stream: in either framing it
/// yields the empty message with `eof` true. Otherwise the raw pump wraps the
/// bytes as they are, and the framed pump decodes them as one wire record.
pub open spec fn spec_receive(chunk: Seq<u8>, framing: Framing) -> Result<MessageView, DecodeError> {
    if framing is Raw || chunk.len() == 0 {
        Ok(raw_received(chunk))
    } else {
        spec_decode(chunk)
    }
}

/// One iteration of the receive pump, after the socket read itself: build the
/// message to push onto the outbound queue. The pump pushes the message and
/// stops if its `eof` is true; on a decode error it stops at once and reports
/// the failure, which the supervisor treats as a connection failure.
pub fn receive_step(chunk: &[u8], framing: Framing) -> (r: Result<Message, DecodeError>)
    ensures
        r matches Ok(m) ==> spec_receive(chunk@, framing) == Ok::<MessageView, DecodeError>(m@),
        r matches Err(e) ==> spec_receive(chunk@, framing) == Err::<MessageView, DecodeError>(e),
        r is Ok <==> spec_receive(chunk@, framing) is Ok,
        framing is Raw ==> r is Ok,
        framing is Raw ==> (r matches Ok(m) && (m@.eof <==> chunk@.len() == 0)),
{
    match framing {
        Framing::Raw => {
            let content = slice_to_vec(chunk);
            let eof = content.len() == 0;
            Ok(Message { content, eof })
        },
        Framing::Framed => {
            if chunk.len() == 0 {
                let m = Message { content: Vec::new(), eof: true };
                proof {
                    assert(m@ =~= raw_received(chunk@));
                }
                Ok(m)
            } else {
                decode_message(chunk)
            }
        },
    }
}

/// The bytes one send-pump iteration writes for one message: the content
/// verbatim on the raw link, the encoded wire record on the framed link.
pub open spec fn spec_send_bytes(m: MessageView, framing: Framing) -> Seq<u8> {
    match framing {
        Framing::Raw => m.content,
        Framing::Framed => encoding(m),
    }
}

/// One iteration of the send pump, before the socket write itself: build the
/// bytes to write for the message just popped. The pump writes them, flushes,
/// and stops if the message's `eof` is true.
pub fn send_step(m: &Message, framing: Framing) -> (r: Vec<u8>)
    ensures
        r@ == spec_send_bytes(m@, framing),
{
    match framing {
        Framing::Raw => slice_to_vec(m.content.as_slice()),
        Framing::Framed => encode_message(m),
    }
}

/// How many of the queued messages a send pump consumes before its loop ends:
/// everything up to and including the first message whose `eof` is true, or
/// all of them if none carries it.
pub open spec fn send_consumed(msgs: Seq<MessageView>) -> nat
    decreases msgs.len(),
{
    if msgs.len() == 0 {
        0
    } else if msgs.first().eof {
        1
    } else {
        (1 + send_consumed(msgs.drop_first())) as nat
    }
}

/// The messages a send pump delivers, in order, from a queue holding `msgs`.
pub open spec fn delivered(msgs: Seq<MessageView>) -> Seq<MessageView> {
    msgs.take(send_consumed(msgs) as int)
}

/// The byte buffers a send pump writes, one per delivered message, in order.
pub open spec fn sent_records(msgs: Seq<MessageView>, framing: Framing) -> Seq<Seq<u8>> {
    delivered(msgs).map_values(|m: MessageView| spec_send_bytes(m, framing))
}

/// End-of-stream semantics of the send pump: it stops exactly at the first
/// message whose `eof` is true — every earlier delivered message has `eof`
/// false, the last delivered message is the first `eof` one when there is
/// one, and with no `eof` queued the pump consumes everything.
pub proof fn lemma_send_stops_at_first_eof(msgs: Seq<MessageView>)
    ensures
        send_consumed(msgs) <= msgs.len(),
        forall|i: int| 0 <= i < send_consumed(msgs) - 1 ==> !(#[trigger] msgs[i]).eof,
        (exists|i: int| 0 <= i < msgs.len() && (#[trigger] msgs[i]).eof) ==> send_consumed(msgs)
            >= 1 && msgs[send_consumed(msgs) - 1].eof,
        (forall|i: int| 0 <= i < msgs.len() ==> !(#[trigger] msgs[i]).eof) ==> send_consumed(msgs)
            == msgs.len(),
    decreases msgs.len(),
{
    if msgs.len() == 0 {
    } else if msgs.first().eof {
    } else {
        let rest = msgs.drop_first();
        lemma_send_stops_at_first_eof(rest);
        assert forall|i: int| 0 <= i < send_consumed(msgs) - 1 implies !(#[trigger] msgs[i]).eof by {
            if i > 0 {
                assert(msgs[i] == rest[i - 1]);
            }
        }
        if exists|i: int| 0 <= i < msgs.len() && (#[trigger] msgs[i]).eof {
            let i = choose|i: int| 0 <= i < msgs.len() && (#[trigger] msgs[i]).eof;
            assert(i > 0 && rest[i - 1].eof);
        }
        if forall|i: int| 0 <= i < msgs.len() ==> !(#[trigger] msgs[i]).eof {
            assert forall|i: int| 0 <= i < rest.len() implies !(#[trigger] rest[i]).eof by {
                assert(rest[i] == msgs[i + 1]);
            }
        }
    }
}

/// The first `eof` pins the consumed count: if the messages before index `k`
/// all have `eof` false and the one at `k` has it true, the pump consumes
/// exactly the first `k + 1` messages.
pub proof fn lemma_send_consumed_at(msgs: Seq<MessageView>, k: int)
    requires
        0 <= k < msgs.len(),
        forall|i: int| 0 <= i < k ==> !(#[trigger] msgs[i]).eof,
        msgs[k].eof,
    ensures
        send_consumed(msgs) == k + 1,
    decreases k,
{
    if k == 0 {
    } else {
        let rest = msgs.drop_first();
        assert forall|i: int| 0 <= i < k - 1 implies !(#[trigger] rest[i]).eof by {
            assert(rest[i] == msgs[i + 1]);
        }
        assert(rest[k - 1].eof);
        lemma_send_consumed_at(rest, k - 1);
    }
}

/// A backlog without `eof` in front of later messages shifts the consumed
/// count by exactly its length.
pub proof fn lemma_send_consumed_append(backlog: Seq<MessageView>, later: Seq<MessageView>)
    requires
        forall|i: int| 0 <= i < backlog.len() ==> !(#[trigger] backlog[i]).eof,
    ensures
        send_consumed(backlog + later) == backlog.len() + send_consumed(later),
    decreases backlog.len(),
{
    let all = backlog + later;
    if backlog.len() == 0 {
        assert(all =~= later);
    } else {
        assert(!all.first().eof);
        assert(all.drop_first() =~= backlog.drop_first() + later);
        assert forall|i: int| 0 <= i < backlog.drop_first().len() implies !(#[trigger] backlog.drop_first()[i]).eof by {
            assert(backlog.drop_first()[i] == backlog[i + 1]);
        }
        lemma_send_consumed_append(backlog.drop_first(), later);
    }
}

/// Reconnect durability: messages enqueued while the far side was down (the
/// backlog, none of them end-of-stream) are neither lost nor reordered — once
/// the send pump runs again over the backlog followed by whatever came later,
/// it delivers the whole backlog first, in original order, and only then the
/// later messages, exactly as it would have delivered them alone.
pub proof fn lemma_reconnect_durability(backlog: Seq<MessageView>, later: Seq<MessageView>)
    requires
        forall|i: int| 0 <= i < backlog.len() ==> !(#[trigger] backlog[i]).eof,
    ensures
        send_consumed(backlog + later) == backlog.len() + send_consumed(later),
        delivered(backlog + later).take(backlog.len() as int) == backlog,
        delivered(backlog + later).skip(backlog.len() as int) == delivered(later),
{
    lemma_send_consumed_append(backlog, later);
    lemma_send_stops_at_first_eof(later);
    assert(delivered(backlog + later).take(backlog.len() as int) =~= backlog);
    assert(delivered(backlog + later).skip(backlog.len() as int) =~= delivered(later));
}

/// The send pump's loop on its inbound queue, with the socket writes left to
/// the caller: pop messages and produce, in order, the byte buffers to write,
/// stopping after the first end-of-stream message. The caller performs one
/// write and one flush per buffer, in order.
pub fn drain_for_send(q: &mut MessageQueue, framing: Framing) -> (out: Vec<Vec<u8>>)
    ensures
        out@.map_values(|b: Vec<u8>| b@) == sent_records(old(q)@, framing),
        final(q)@ == old(q)@.skip(send_consumed(old(q)@) as int),
{
    let ghost orig = q@;
    let mut out: Vec<Vec<u8>> = Vec::new();
    loop
        invariant_except_break
            forall|i: int| 0 <= i < out@.len() ==> !(#[trigger] orig[i]).eof,
        invariant
            out@.len() <= orig.len(),
            q@ == orig.skip(out@.len() as int),
            forall|i: int| 0 <= i < out@.len() ==> (#[trigger] out@[i])@ == spec_send_bytes(
                orig[i],
                framing,
            ),
        ensures
            out@.len() == send_consumed(orig),
            forall|i: int| 0 <= i < out@.len() ==> (#[trigger] out@[i])@ == spec_send_bytes(
                orig[i],
                framing,
            ),
            q@ == orig.skip(send_consumed(orig) as int),
        decreases orig.len() - out@.len(),
    {
        let ghost consumed = out@.len() as int;
        match q.pop() {
            None => {
                proof {
                    assert(orig.skip(consumed).len() == 0);
                    lemma_send_stops_at_first_eof(orig);
                }
                break ;
            },
            Some(m) => {
                proof {
                    assert(m@ == orig.skip(consumed)[0]);
                    assert(orig.skip(consumed).drop_first() =~= orig.skip(consumed + 1));
                }
                let stop = m.eof;
                let bytes = send_step(&m, framing);
                out.push(bytes);
                if stop {
                    proof {
                        lemma_send_consumed_at(orig, consumed);
                    }
                    break ;
                }
            },
        }
    }
    proof {
        assert(out@.map_values(|b: Vec<u8>| b@) =~= sent_records(orig, framing));
    }
    out
}

/// Order preservation across one relay direction while the connection stays
/// up: the chunks read from endpoint A's socket become raw messages, cross
/// the framed hop as wire records — each decoding back to the very message it
/// carried — and the bytes then written raw toward endpoint B concatenate to
/// exactly the original chunks, in order.
pub proof fn lemma_order_preservation(chunks: Seq<Seq<u8>>)
    requires
        forall|i: int| 0 <= i < chunks.len() ==> 0 < (#[trigger] chunks[i]).len() <= u64::MAX,
    ensures
        ({
            let msgs_a = chunks.map_values(|c: Seq<u8>| raw_received(c));
            let records = sent_records(msgs_a, Framing::Framed);
            let msgs_b = records.map_values(|rec: Seq<u8>| spec_decode(rec)->Ok_0);
            &&& records.len() == chunks.len()
            &&& forall|i: int| 0 <= i < records.len() ==> is_wire_record(#[trigger] records[i])
            &&& msgs_b == msgs_a
            &&& delivered(msgs_b).map_values(|m: MessageView| m.content).flatten()
                == chunks.flatten()
        }),
{
    let msgs_a = chunks.map_values(|c: Seq<u8>| raw_received(c));
    let records = sent_records(msgs_a, Framing::Framed);
    let msgs_b = records.map_values(|rec: Seq<u8>| spec_decode(rec)->Ok_0);
    assert forall|i: int| 0 <= i < msgs_a.len() implies !(#[trigger] msgs_a[i]).eof by {
        assert(msgs_a[i] == raw_received(chunks[i]));
    }
    lemma_send_stops_at_first_eof(msgs_a);
    assert(delivered(msgs_a) =~= msgs_a);
    assert forall|i: int| 0 <= i < records.len() implies is_wire_record(#[trigger] records[i])
        && spec_decode(records[i]) == Ok::<MessageView, DecodeError>(msgs_a[i]) by {
        assert(records[i] == spec_send_bytes(msgs_a[i], Framing::Framed));
        lemma_codec_round_trip(msgs_a[i]);
    }
    assert(msgs_b =~= msgs_a);
    lemma_send_stops_at_first_eof(msgs_b);
    assert(delivered(msgs_b) =~= msgs_b);
    assert(delivered(msgs_b).map_values(|m: MessageView| m.content) =~= chunks);
}

} // verus!
