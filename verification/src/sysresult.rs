//! The kernel's reply to a call: a tagged union covering success, error,
//! addresses, ranges, identities, scalars and full messages, carried as a
//! fixed eight-word frame. Decoding fails closed: a frame whose nested
//! memory description cannot be reconstructed decodes to an internal
//! error, never to a partially valid value, and a frame with an
//! unrecognized tag decodes to a catch-all carrying the raw words, so a
//! newer peer degrades gracefully.

use vstd::prelude::*;
use crate::error::Error;
use crate::ids::{CID, PID, ProcessId, SID, TID, pid_from_usize};
use crate::mem::{MemoryAddress, MemoryRange, NonZeroWord};
use crate::message::{Message, MessageEnvelope, envelope_decode, envelope_words,
    lemma_envelope_round_trip};

verus! {

/// A kernel or server reply.
#[derive(Debug, PartialEq, Eq)]
pub enum SysResult {
    /// The call succeeded with no further value.
    Success,
    /// The call failed for the reason carried.
    Error(Error),
    /// An address, for calls that produce one.
    MemoryAddress(MemoryAddress),
    /// A memory region, for calls that map or share one.
    MemoryRange(MemoryRange),
    /// A count of runnable threads followed by three process and thread
    /// pairs.
    ReadyThreads(usize, usize, usize, usize, usize, usize, usize),
    /// The process should resume.
    ResumeProcess,
    /// The identity of a server.
    ServerID(SID),
    /// A connection capability.
    ConnectionID(CID),
    /// A freshly registered server and the connection to it.
    NewServerID(SID, CID),
    /// A full message, reconstructed envelope and all.
    Message(MessageEnvelope),
    /// A thread identity.
    ThreadID(TID),
    /// A process identity.
    ProcessID(PID),
    /// The requested call is unimplemented.
    Unimplemented,
    /// The process is blocked and should retry the read.
    BlockedProcess,
    /// A scalar reply with one value.
    Scalar1(usize),
    /// A scalar reply with two values.
    Scalar2(usize, usize),
    /// The call would block and should be attempted again.
    WouldBlock,
    /// The call succeeded but returned no value.
    NoValue,
    /// A reply whose tag this revision does not know: the seven raw words
    /// after the tag, kept verbatim for forward compatibility.
    UnknownResult(usize, usize, usize, usize, usize, usize, usize),
}

/// The eight words a reply travels as: the tag, then up to seven payload
/// words, zero-padded. The tag numbering is a stable, versioned contract;
/// the catch-all is sent under the all-ones tag, outside every defined
/// tag.
pub open spec fn result_words(r: SysResult) -> Seq<usize> {
    match r {
        SysResult::Success => seq![0, 0, 0, 0, 0, 0, 0, 0],
        SysResult::Error(e) => seq![1, e.code(), 0, 0, 0, 0, 0, 0],
        SysResult::MemoryAddress(a) => seq![2, a.value(), 0, 0, 0, 0, 0, 0],
        SysResult::MemoryRange(mr) => seq![3, mr.addr.value(), mr.size.value(), 0, 0, 0, 0, 0],
        SysResult::ReadyThreads(count, pid0, ctx0, pid1, ctx1, pid2, ctx2) =>
            seq![4, count, pid0, ctx0, pid1, ctx1, pid2, ctx2],
        SysResult::ResumeProcess => seq![5, 0, 0, 0, 0, 0, 0, 0],
        SysResult::ServerID(sid) => seq![
            6,
            sid.words().0 as usize,
            sid.words().1 as usize,
            sid.words().2 as usize,
            sid.words().3 as usize,
            0, 0, 0,
        ],
        SysResult::ConnectionID(cid) => seq![7, cid, 0, 0, 0, 0, 0, 0],
        SysResult::Message(me) => seq![
            8,
            envelope_words(me)[0],
            envelope_words(me)[1],
            envelope_words(me)[2],
            envelope_words(me)[3],
            envelope_words(me)[4],
            envelope_words(me)[5],
            envelope_words(me)[6],
        ],
        SysResult::ThreadID(tid) => seq![9, tid, 0, 0, 0, 0, 0, 0],
        SysResult::ProcessID(pid) => seq![10, pid.value() as usize, 0, 0, 0, 0, 0, 0],
        SysResult::Unimplemented => seq![11, 0, 0, 0, 0, 0, 0, 0],
        SysResult::BlockedProcess => seq![12, 0, 0, 0, 0, 0, 0, 0],
        SysResult::Scalar1(a) => seq![13, a, 0, 0, 0, 0, 0, 0],
        SysResult::Scalar2(a, b) => seq![14, a, b, 0, 0, 0, 0, 0],
        SysResult::NewServerID(sid, cid) => seq![
            15,
            sid.words().0 as usize,
            sid.words().1 as usize,
            sid.words().2 as usize,
            sid.words().3 as usize,
            cid,
            0, 0,
        ],
        SysResult::WouldBlock => seq![16, 0, 0, 0, 0, 0, 0, 0],
        SysResult::NoValue => seq![17, 0, 0, 0, 0, 0, 0, 0],
        SysResult::UnknownResult(a1, a2, a3, a4, a5, a6, a7) =>
            seq![usize::MAX, a1, a2, a3, a4, a5, a6, a7],
    }
}

/// The reply eight words decode to. Total: a nested value that cannot be
/// reconstructed (a zero address or size, an unknown message shape, a
/// process word outside one nonzero byte) yields the internal error, and
/// an unrecognized tag yields the catch-all with the seven trailing words
/// verbatim.
pub open spec fn result_decode(w: Seq<usize>) -> SysResult {
    if w[0] == 0 {
        SysResult::Success
    } else if w[0] == 1 {
        SysResult::Error(Error::from_code(w[1]))
    } else if w[0] == 2 {
        if w[1] == 0 {
            SysResult::Error(Error::InternalError)
        } else {
            SysResult::MemoryAddress(MemoryAddress::spec_new(w[1]))
        }
    } else if w[0] == 3 {
        if w[1] == 0 || w[2] == 0 {
            SysResult::Error(Error::InternalError)
        } else {
            SysResult::MemoryRange(MemoryRange {
                addr: MemoryAddress::spec_new(w[1]),
                size: NonZeroWord::spec_new(w[2]),
            })
        }
    } else if w[0] == 4 {
        SysResult::ReadyThreads(w[1], w[2], w[3], w[4], w[5], w[6], w[7])
    } else if w[0] == 5 {
        SysResult::ResumeProcess
    } else if w[0] == 6 {
        SysResult::ServerID(SID::spec_from_u32((
            w[1] as u32, w[2] as u32, w[3] as u32, w[4] as u32,
        )))
    } else if w[0] == 7 {
        SysResult::ConnectionID(w[1])
    } else if w[0] == 8 {
        match envelope_decode(w.subrange(1, 8)) {
            Some(me) => SysResult::Message(me),
            None => SysResult::Error(Error::InternalError),
        }
    } else if w[0] == 9 {
        SysResult::ThreadID(w[1])
    } else if w[0] == 10 {
        if 1 <= w[1] <= 255 {
            SysResult::ProcessID(ProcessId::spec_new(w[1] as u8))
        } else {
            SysResult::Error(Error::InternalError)
        }
    } else if w[0] == 11 {
        SysResult::Unimplemented
    } else if w[0] == 12 {
        SysResult::BlockedProcess
    } else if w[0] == 13 {
        SysResult::Scalar1(w[1])
    } else if w[0] == 14 {
        SysResult::Scalar2(w[1], w[2])
    } else if w[0] == 15 {
        SysResult::NewServerID(
            SID::spec_from_u32((w[1] as u32, w[2] as u32, w[3] as u32, w[4] as u32)),
            w[5],
        )
    } else if w[0] == 16 {
        SysResult::WouldBlock
    } else if w[0] == 17 {
        SysResult::NoValue
    } else {
        SysResult::UnknownResult(w[1], w[2], w[3], w[4], w[5], w[6], w[7])
    }
}

impl SysResult {
    /// A ghost reply is well formed when its nested nonzero and
    /// one-byte invariants hold, as in every executable one.
    pub open spec fn wf(self) -> bool {
        match self {
            SysResult::MemoryAddress(a) => a.wf(),
            SysResult::MemoryRange(mr) => mr.wf(),
            SysResult::Message(me) => me.wf(),
            SysResult::ProcessID(pid) => pid.wf(),
            _ => true,
        }
    }

    /// Encode as an eight-word frame.
    pub fn to_args(&self) -> (r: [usize; 8])
        ensures
            r@ == result_words(*self),
    {
        match self {
            SysResult::Success => {
                let r = [0, 0, 0, 0, 0, 0, 0, 0];
                proof { assert(r@ =~= result_words(*self)); }
                r
            }
            SysResult::Error(e) => {
                let r = [1, e.to_usize(), 0, 0, 0, 0, 0, 0];
                proof { assert(r@ =~= result_words(*self)); }
                r
            }
            SysResult::MemoryAddress(s) => {
                let r = [2, s.get(), 0, 0, 0, 0, 0, 0];
                proof { assert(r@ =~= result_words(*self)); }
                r
            }
            SysResult::MemoryRange(mr) => {
                let r = [3, mr.addr.get(), mr.size.get(), 0, 0, 0, 0, 0];
                proof { assert(r@ =~= result_words(*self)); }
                r
            }
            SysResult::ReadyThreads(count, pid0, ctx0, pid1, ctx1, pid2, ctx2) => {
                let r = [4, *count, *pid0, *ctx0, *pid1, *ctx1, *pid2, *ctx2];
                proof { assert(r@ =~= result_words(*self)); }
                r
            }
            SysResult::ResumeProcess => {
                let r = [5, 0, 0, 0, 0, 0, 0, 0];
                proof { assert(r@ =~= result_words(*self)); }
                r
            }
            SysResult::ServerID(sid) => {
                let s = sid.to_u32();
                let r = [6, s.0 as usize, s.1 as usize, s.2 as usize, s.3 as usize, 0, 0, 0];
                proof { assert(r@ =~= result_words(*self)); }
                r
            }
            SysResult::ConnectionID(cid) => {
                let r = [7, *cid, 0, 0, 0, 0, 0, 0];
                proof { assert(r@ =~= result_words(*self)); }
                r
            }
            SysResult::Message(me) => {
                let me_enc = me.to_usize();
                let r = [
                    8, me_enc[0], me_enc[1], me_enc[2], me_enc[3], me_enc[4], me_enc[5],
                    me_enc[6],
                ];
                proof { assert(r@ =~= result_words(*self)); }
                r
            }
            SysResult::ThreadID(ctx) => {
                let r = [9, *ctx, 0, 0, 0, 0, 0, 0];
                proof { assert(r@ =~= result_words(*self)); }
                r
            }
            SysResult::ProcessID(pid) => {
                let r = [10, pid.get() as usize, 0, 0, 0, 0, 0, 0];
                proof { assert(r@ =~= result_words(*self)); }
                r
            }
            SysResult::Unimplemented => {
                let r = [11, 0, 0, 0, 0, 0, 0, 0];
                proof { assert(r@ =~= result_words(*self)); }
                r
            }
            SysResult::BlockedProcess => {
                let r = [12, 0, 0, 0, 0, 0, 0, 0];
                proof { assert(r@ =~= result_words(*self)); }
                r
            }
            SysResult::Scalar1(a) => {
                let r = [13, *a, 0, 0, 0, 0, 0, 0];
                proof { assert(r@ =~= result_words(*self)); }
                r
            }
            SysResult::Scalar2(a, b) => {
                let r = [14, *a, *b, 0, 0, 0, 0, 0];
                proof { assert(r@ =~= result_words(*self)); }
                r
            }
            SysResult::NewServerID(sid, cid) => {
                let s = sid.to_u32();
                let r = [15, s.0 as usize, s.1 as usize, s.2 as usize, s.3 as usize, *cid, 0, 0];
                proof { assert(r@ =~= result_words(*self)); }
                r
            }
            SysResult::WouldBlock => {
                let r = [16, 0, 0, 0, 0, 0, 0, 0];
                proof { assert(r@ =~= result_words(*self)); }
                r
            }
            SysResult::NoValue => {
                let r = [17, 0, 0, 0, 0, 0, 0, 0];
                proof { assert(r@ =~= result_words(*self)); }
                r
            }
            SysResult::UnknownResult(a1, a2, a3, a4, a5, a6, a7) => {
                let r = [usize::MAX, *a1, *a2, *a3, *a4, *a5, *a6, *a7];
                proof { assert(r@ =~= result_words(*self)); }
                r
            }
        }
    }

    /// Decode an eight-word frame; total and fail-closed.
    pub fn from_args(src: [usize; 8]) -> (r: Self)
        ensures
            r == result_decode(src@),
    {
        match src[0] {
            0 => SysResult::Success,
            1 => SysResult::Error(Error::from_usize(src[1])),
            2 => match MemoryAddress::new(src[1]) {
                Option::None => SysResult::Error(Error::InternalError),
                Some(s) => SysResult::MemoryAddress(s),
            },
            3 => {
                let addr = match MemoryAddress::new(src[1]) {
                    Option::None => return SysResult::Error(Error::InternalError),
                    Some(s) => s,
                };
                let size = match NonZeroWord::new(src[2]) {
                    Option::None => return SysResult::Error(Error::InternalError),
                    Some(s) => s,
                };
                SysResult::MemoryRange(MemoryRange { addr, size })
            }
            4 => SysResult::ReadyThreads(src[1], src[2], src[3], src[4], src[5], src[6], src[7]),
            5 => SysResult::ResumeProcess,
            6 => SysResult::ServerID(SID::from_u32(
                #[verifier::truncate] (src[1] as u32),
                #[verifier::truncate] (src[2] as u32),
                #[verifier::truncate] (src[3] as u32),
                #[verifier::truncate] (src[4] as u32),
            )),
            7 => SysResult::ConnectionID(src[1]),
            8 => {
                let words = [src[1], src[2], src[3], src[4], src[5], src[6], src[7]];
                proof {
                    assert(words@ =~= src@.subrange(1, 8));
                }
                match MessageEnvelope::from_usize(words) {
                    Some(me) => SysResult::Message(me),
                    Option::None => SysResult::Error(Error::InternalError),
                }
            }
            9 => SysResult::ThreadID(src[1]),
            10 => match pid_from_usize(src[1]) {
                Result::Ok(pid) => SysResult::ProcessID(pid),
                Result::Err(_) => SysResult::Error(Error::InternalError),
            },
            11 => SysResult::Unimplemented,
            12 => SysResult::BlockedProcess,
            13 => SysResult::Scalar1(src[1]),
            14 => SysResult::Scalar2(src[1], src[2]),
            15 => SysResult::NewServerID(
                SID::from_u32(
                    #[verifier::truncate] (src[1] as u32),
                    #[verifier::truncate] (src[2] as u32),
                    #[verifier::truncate] (src[3] as u32),
                    #[verifier::truncate] (src[4] as u32),
                ),
                src[5],
            ),
            16 => SysResult::WouldBlock,
            17 => SysResult::NoValue,
            _ => SysResult::UnknownResult(src[1], src[2], src[3], src[4], src[5], src[6], src[7]),
        }
    }

    /// The memory attached to the reply, if any: the buffer of a
    /// memory-bearing message.
    pub fn memory(&self) -> (r: Option<MemoryRange>)
        ensures
            match *self {
                SysResult::Message(me) => match me.body {
                    Message::Move(mm) => r == Some(mm.buf),
                    Message::Borrow(mm) => r == Some(mm.buf),
                    Message::MutableBorrow(mm) => r == Some(mm.buf),
                    _ => r is None,
                },
                _ => r is None,
            },
    {
        match self {
            SysResult::Message(msg) => match &msg.body {
                Message::Move(memory_message)
                | Message::Borrow(memory_message)
                | Message::MutableBorrow(memory_message) => Some(memory_message.buf),
                _ => Option::None,
            },
            _ => Option::None,
        }
    }
}

impl From<Error> for SysResult {
    /// The failed reply carrying the given reason.
    fn from(e: Error) -> (r: Self)
        ensures
            r == SysResult::Error(e),
    {
        SysResult::Error(e)
    }
}

impl vstd::std_specs::convert::FromSpecImpl<Error> for SysResult {
    open spec fn obeys_from_spec() -> bool {
        true
    }

    open spec fn from_spec(e: Error) -> SysResult {
        SysResult::Error(e)
    }
}

/// Every well-formed reply under every defined tag, and the catch-all
/// too, survives an encode/decode cycle through the eight-word frame.
pub proof fn lemma_result_round_trip(r: SysResult)
    requires
        r.wf(),
    ensures
        result_decode(result_words(r)) == r,
{
    let w = result_words(r);
    match r {
        SysResult::Error(e) => {
            crate::error::lemma_error_round_trip(e);
        }
        SysResult::MemoryAddress(a) => {
            NonZeroWord::lemma_value_injective(a);
        }
        SysResult::MemoryRange(mr) => {
            NonZeroWord::lemma_value_injective(mr.addr);
            NonZeroWord::lemma_value_injective(mr.size);
        }
        SysResult::ServerID(sid) => {
            SID::lemma_words_injective(sid);
        }
        SysResult::NewServerID(sid, _cid) => {
            SID::lemma_words_injective(sid);
        }
        SysResult::Message(me) => {
            assert(w.subrange(1, 8) =~= envelope_words(me));
            lemma_envelope_round_trip(me);
        }
        SysResult::ProcessID(pid) => {
            ProcessId::lemma_value_injective(pid);
        }
        _ => {}
    }
}

/// A frame whose tag no defined reply uses decodes to the catch-all
/// carrying the seven trailing words verbatim, never to an error.
pub proof fn lemma_unknown_tag_decodes(w: Seq<usize>)
    requires
        w.len() == 8,
        w[0] > 17,
    ensures
        result_decode(w) == SysResult::UnknownResult(w[1], w[2], w[3], w[4], w[5], w[6], w[7]),
{
}

} // verus!
