use tgc::message::Message;
use tgc::pump::drain_for_send;
use tgc::pump::Framing;
use tgc::queue::MessageQueue;

fn msg(content: &[u8], eof: bool) -> Message {
    Message {
        content: content.to_vec(),
        eof,
    }
}

#[test]
fn pop_on_empty_is_none() {
    let mut q = MessageQueue::new();
    assert!(q.is_empty());
    assert_eq!(q.len(), 0);
    assert!(q.pop().is_none());
}

#[test]
fn fifo_order_is_kept() {
    let mut q = MessageQueue::new();
    q.push(msg(b"first", false));
    q.push(msg(b"second", false));
    q.push(msg(b"third", true));
    assert_eq!(q.len(), 3);
    assert_eq!(q.pop().unwrap().content, b"first".to_vec());
    assert_eq!(q.pop().unwrap().content, b"second".to_vec());
    let last = q.pop().unwrap();
    assert_eq!(last.content, b"third".to_vec());
    assert!(last.eof);
    assert!(q.pop().is_none());
}

#[test]
fn backlog_survives_outage_and_drains_in_order() {
    // The queue outlives connections: everything enqueued while the far side
    // was down is delivered first and in order once its send pump runs again.
    let mut q = MessageQueue::new();
    // Enqueued during the outage.
    q.push(msg(b"during-1", false));
    q.push(msg(b"during-2", false));
    // Far side reconnects; more arrives afterwards.
    q.push(msg(b"after-1", false));
    let out = drain_for_send(&mut q, Framing::Raw);
    assert_eq!(
        out,
        vec![
            b"during-1".to_vec(),
            b"during-2".to_vec(),
            b"after-1".to_vec()
        ]
    );
    assert!(q.is_empty());
}
