use tgc::codec::encode_message;
use tgc::error::DecodeError;
use tgc::message::Message;
use tgc::pump::drain_for_send;
use tgc::pump::receive_step;
use tgc::pump::send_step;
use tgc::pump::Framing;
use tgc::pump::CHUNK_SIZE;
use tgc::queue::MessageQueue;

#[test]
fn chunk_size_is_4096() {
    assert_eq!(CHUNK_SIZE, 4096);
}

#[test]
fn receive_raw_wraps_bytes_verbatim() {
    let m = receive_step(b"abc", Framing::Raw).unwrap();
    assert_eq!(m.content, b"abc".to_vec());
    assert!(!m.eof);
}

#[test]
fn receive_raw_zero_read_is_eof() {
    let m = receive_step(&[], Framing::Raw).unwrap();
    assert_eq!(m.content, Vec::<u8>::new());
    assert!(m.eof);
}

#[test]
fn receive_framed_decodes_one_record() {
    let record = encode_message(&Message {
        content: b"ping".to_vec(),
        eof: false,
    });
    let m = receive_step(&record, Framing::Framed).unwrap();
    assert_eq!(m.content, b"ping".to_vec());
    assert!(!m.eof);
}

#[test]
fn receive_framed_zero_read_is_eof() {
    let m = receive_step(&[], Framing::Framed).unwrap();
    assert_eq!(m.content, Vec::<u8>::new());
    assert!(m.eof);
}

#[test]
fn receive_framed_garbage_is_decode_failure() {
    assert!(matches!(
        receive_step(b"zz", Framing::Framed),
        Err(DecodeError::TooShort)
    ));
}

#[test]
fn send_raw_writes_content_only() {
    let m = Message {
        content: b"abc".to_vec(),
        eof: true,
    };
    assert_eq!(send_step(&m, Framing::Raw), b"abc".to_vec());
}

#[test]
fn send_framed_writes_one_record() {
    let m = Message {
        content: b"abc".to_vec(),
        eof: true,
    };
    assert_eq!(send_step(&m, Framing::Framed), encode_message(&m));
}

#[test]
fn drain_stops_after_first_eof() {
    let mut q = MessageQueue::new();
    q.push(Message {
        content: b"one".to_vec(),
        eof: false,
    });
    q.push(Message {
        content: b"two".to_vec(),
        eof: true,
    });
    q.push(Message {
        content: b"three".to_vec(),
        eof: false,
    });
    let out = drain_for_send(&mut q, Framing::Raw);
    assert_eq!(out, vec![b"one".to_vec(), b"two".to_vec()]);
    // The message after the end-of-stream one stays queued.
    assert_eq!(q.len(), 1);
    let left = q.pop().unwrap();
    assert_eq!(left.content, b"three".to_vec());
}

#[test]
fn drain_without_eof_consumes_everything() {
    let mut q = MessageQueue::new();
    q.push(Message {
        content: b"a".to_vec(),
        eof: false,
    });
    q.push(Message {
        content: b"b".to_vec(),
        eof: false,
    });
    let out = drain_for_send(&mut q, Framing::Raw);
    assert_eq!(out, vec![b"a".to_vec(), b"b".to_vec()]);
    assert!(q.is_empty());
}

#[test]
fn drain_framed_encodes_each_message() {
    let one = Message {
        content: b"one".to_vec(),
        eof: false,
    };
    let eof = Message {
        content: vec![],
        eof: true,
    };
    let mut q = MessageQueue::new();
    q.push(Message {
        content: b"one".to_vec(),
        eof: false,
    });
    q.push(Message {
        content: vec![],
        eof: true,
    });
    let out = drain_for_send(&mut q, Framing::Framed);
    assert_eq!(out, vec![encode_message(&one), encode_message(&eof)]);
    assert!(q.is_empty());
}
