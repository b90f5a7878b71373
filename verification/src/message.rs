//! The unit of relayed data: one chunk of bytes plus an end-of-stream flag.

use vstd::prelude::*;

verus! {

/// One chunk of relayed data. `eof` is true exactly on the record produced by
/// a zero-length socket read (the peer half-closed its stream); it is an
/// internal control signal on the raw link and travels inside the wire record
/// on the framed link.
pub struct Message {
    pub content: Vec<u8>,
    pub eof: bool,
}

/// Mathematical model of a `Message`: the byte sequence and the flag.
#[verifier::ext_equal]
pub ghost struct MessageView {
    pub content: Seq<u8>,
    pub eof: bool,
}

impl View for Message {
    type V = MessageView;

    open spec fn view(&self) -> MessageView {
        MessageView { content: self.content@, eof: self.eof }
    }
}

impl Message {
    pub fn new(content: Vec<u8>, eof: bool) -> (m: Message)
        ensures
            m@ == (MessageView { content: content@, eof: eof }),
    {
        Message { content, eof }
    }
}

} // verus!
