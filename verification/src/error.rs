//! Error taxonomy of the relay: which failures a wire record can raise, and
//! which classes of failure are recoverable (tear down and reconnect) versus
//! fatal (escalate and terminate).

use vstd::prelude::*;

verus! {

/// Why a byte buffer failed to decode as one framed wire record.
#[derive(Clone, Copy, Debug, PartialEq, Eq, Structural)]
pub enum DecodeError {
    /// Shorter than the smallest possible record (length prefix plus flag byte).
    TooShort,
    /// The embedded length does not match the buffer: a truncated record, or
    /// several records coalesced into one read.
    WrongLength,
    /// The end-of-stream flag byte is neither 0 nor 1.
    BadEofByte,
}

/// The relay's error classes. Decode failures carry their reason; the other
/// classes arise at the I/O boundary, where only the class matters to the
/// supervisor's recover-or-escalate decision.
#[derive(Clone, Copy, Debug, PartialEq, Eq, Structural)]
pub enum TgcError {
    /// A pump's worker terminated abnormally and could not be joined.
    ThreadError,
    /// The inbound queue reported that no producer can ever send again.
    ChanReceiveError,
    /// A read or write failed on an established connection.
    IOError,
    /// A framed record failed to decode.
    SerializeError(DecodeError),
}

/// The classes the supervisor must escalate to process termination: an
/// abnormal worker exit, or a broken queue. Transfer and decode failures are
/// recovered by tearing the connection down and reconnecting.
pub open spec fn spec_is_fatal(e: TgcError) -> bool {
    e is ThreadError || e is ChanReceiveError
}

impl TgcError {
    /// True exactly on the classes the supervisor must escalate (see
    /// `spec_is_fatal`).
    pub fn is_fatal(&self) -> (r: bool)
        ensures
            r == spec_is_fatal(*self),
    {
        match self {
            TgcError::ThreadError => true,
            TgcError::ChanReceiveError => true,
            TgcError::IOError => false,
            TgcError::SerializeError(_) => false,
        }
    }

    /// A short human-readable name for the error class.
    pub fn describe(&self) -> (r: &'static str)
        ensures
            r@ == spec_describe(*self),
    {
        match self {
            TgcError::ThreadError => "thread error",
            TgcError::ChanReceiveError => "chan receive error",
            TgcError::IOError => "io error",
            TgcError::SerializeError(_) => "serialize error",
        }
    }
}

pub open spec fn spec_describe(e: TgcError) -> Seq<char> {
    match e {
        TgcError::ThreadError => "thread error"@,
        TgcError::ChanReceiveError => "chan receive error"@,
        TgcError::IOError => "io error"@,
        TgcError::SerializeError(_) => "serialize error"@,
    }
}

} // verus!
