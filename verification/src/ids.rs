//! Addressing primitives: process identity (one nonzero byte), server
//! identity (128 bits derived from a byte string), and the sender word
//! that packs the connection and the originating process of a received
//! message.

use vstd::prelude::*;
use crate::error::Error;

verus! {

/// A connection capability, granted per successful connect.
pub type CID = usize;

/// A thread within a process.
pub type TID = usize;

/// A CPU core identity.
pub type CpuID = usize;

/// A stack pointer word.
pub type StackPointer = usize;

/// The identity of a running process: one byte, never zero.
#[derive(Debug, Clone, Copy, PartialEq, Eq)]
pub struct ProcessId {
    pid: u8,
}

/// The process identity as the kernel interfaces name it.
pub type PID = ProcessId;

impl ProcessId {
    #[verifier::type_invariant]
    spec fn type_inv(self) -> bool {
        self.pid != 0
    }

    /// The identity byte.
    pub closed spec fn value(self) -> u8 {
        self.pid
    }

    /// The (ghost) identity with the given byte. Only `new` can make an
    /// executable one, so every executable `ProcessId` is nonzero.
    pub closed spec fn spec_new(pid: u8) -> ProcessId {
        ProcessId { pid }
    }

    /// A ghost value is well formed when it is nonzero, as every
    /// executable value is.
    pub open spec fn wf(self) -> bool {
        self.value() != 0
    }

    /// Two identities with the same byte are the same identity.
    pub proof fn lemma_value_injective(a: ProcessId)
        ensures
            ProcessId::spec_new(a.value()) == a,
    {
    }

    /// Some identity for every nonzero byte, and nothing for zero.
    pub fn new(pid: u8) -> (r: Option<ProcessId>)
        ensures
            r == if pid == 0 { None::<ProcessId> } else { Some(ProcessId::spec_new(pid)) },
    {
        if pid == 0 {
            None
        } else {
            Some(ProcessId { pid })
        }
    }

    /// The identity byte, always nonzero.
    pub fn get(&self) -> (r: u8)
        ensures
            r == self.value(),
            r != 0,
    {
        proof {
            use_type_invariant(self);
        }
        self.pid
    }
}

/// The process identity named by a machine word: `InvalidPID` for a word
/// above one byte and for zero, which is no process.
pub fn pid_from_usize(src: usize) -> (r: Result<ProcessId, Error>)
    ensures
        src == 0 || src > 255 ==> r == Err::<ProcessId, Error>(Error::InvalidPID),
        1 <= src <= 255 ==> r == Ok::<ProcessId, Error>(ProcessId::spec_new(src as u8)),
{
    if src > 255 {
        return Err(Error::InvalidPID);
    }
    match ProcessId::new(src as u8) {
        None => Err(Error::InvalidPID),
        Some(pid) => Ok(pid),
    }
}

/// An execution context as the kernel tracks it: a stack pointer and the
/// process it belongs to.
#[derive(Debug)]
pub struct Context {
    pub stack: StackPointer,
    pub pid: PID,
}

/// The sender of a received message, packed into one machine word whose
/// bits 24 to 31 carry the originating process.
#[derive(Debug, Clone, Copy, PartialEq, Eq, PartialOrd, Ord)]
pub struct MessageSender {
    data: usize,
}

impl MessageSender {
    /// The packed word.
    pub closed spec fn value(self) -> usize {
        self.data
    }

    /// The (ghost) sender with the given word.
    pub closed spec fn spec_from_usize(data: usize) -> MessageSender {
        MessageSender { data }
    }

    /// Two senders with the same word are the same sender.
    pub proof fn lemma_value_injective(a: MessageSender)
        ensures
            MessageSender::spec_from_usize(a.value()) == a,
    {
    }

    /// The originating process carried in the word: bits 24 to 31, where
    /// a zero byte means no process.
    pub open spec fn pid_byte(self) -> usize {
        (self.value() / 0x100_0000) % 0x100
    }

    /// Encode for transport.
    pub fn to_usize(&self) -> (r: usize)
        ensures
            r == self.value(),
    {
        self.data
    }

    /// Decode from transport.
    pub fn from_usize(data: usize) -> (r: Self)
        ensures
            r == MessageSender::spec_from_usize(data),
            r.value() == data,
    {
        MessageSender { data }
    }

    /// The originating process, if the word names one.
    pub fn pid(&self) -> (r: Option<ProcessId>)
        ensures
            r == if self.pid_byte() == 0 { None::<ProcessId> } else {
                Some(ProcessId::spec_new(self.pid_byte() as u8))
            },
    {
        let pid_u8 = ((self.data / 0x100_0000) % 0x100) as u8;
        ProcessId::new(pid_u8)
    }
}

impl Default for MessageSender {
    /// The zero sender, which names no process.
    fn default() -> (r: Self)
        ensures
            r.value() == 0,
    {
        MessageSender { data: 0 }
    }
}

/// The word at position `i` of a server name: the `i`-th 4-byte chunk of
/// the byte string in little-endian order.
pub open spec fn le_chunk_word(b: Seq<u8>, i: int) -> u32 {
    (b[4 * i] + b[4 * i + 1] * 0x100 + b[4 * i + 2] * 0x1_0000 + b[4 * i + 3] * 0x100_0000) as u32
}

/// The word at position `i` of a server identity derived from `b`: the
/// `i`-th complete 4-byte chunk, or zero where the string supplies none.
pub open spec fn sid_word(b: Seq<u8>, i: int) -> u32 {
    if 4 * i + 4 <= b.len() {
        le_chunk_word(b, i)
    } else {
        0
    }
}

/// A server identity: a 128-bit mailbox name as four 32-bit words.
#[derive(Debug, Clone, Copy, PartialEq, Eq)]
pub struct SID((u32, u32, u32, u32));

impl SID {
    /// The four words of the identity.
    pub closed spec fn words(self) -> (u32, u32, u32, u32) {
        self.0
    }

    /// The (ghost) identity with the given words.
    pub closed spec fn spec_from_u32(w: (u32, u32, u32, u32)) -> SID {
        SID(w)
    }

    /// Two identities with the same words are the same identity.
    pub proof fn lemma_words_injective(a: SID)
        ensures
            SID::spec_from_u32(a.words()) == a,
    {
    }

    /// The identity derived from a byte string of at most 16 bytes: each
    /// complete 4-byte chunk packs little-endian into one word, words
    /// beyond the supplied chunks stay zero, and a trailing partial chunk
    /// contributes nothing. Longer strings are rejected.
    pub fn from_bytes(b: &[u8]) -> (r: Option<SID>)
        ensures
            b@.len() > 16 ==> r is None,
            b@.len() <= 16 ==> r == Some(SID::spec_from_u32(
                (sid_word(b@, 0), sid_word(b@, 1), sid_word(b@, 2), sid_word(b@, 3)),
            )),
    {
        if b.len() > 16 {
            None
        } else {
            let w0 = if b.len() >= 4 { le_word_at(b, 0) } else { 0 };
            let w1 = if b.len() >= 8 { le_word_at(b, 1) } else { 0 };
            let w2 = if b.len() >= 12 { le_word_at(b, 2) } else { 0 };
            let w3 = if b.len() >= 16 { le_word_at(b, 3) } else { 0 };
            Some(SID((w0, w1, w2, w3)))
        }
    }

    /// The identity with the four words given directly.
    pub fn from_u32(a0: u32, a1: u32, a2: u32, a3: u32) -> (r: SID)
        ensures
            r == SID::spec_from_u32((a0, a1, a2, a3)),
            r.words() == (a0, a1, a2, a3),
    {
        SID((a0, a1, a2, a3))
    }

    /// The four words of the identity.
    pub fn to_u32(&self) -> (r: (u32, u32, u32, u32))
        ensures
            r == self.words(),
    {
        ((self.0).0, (self.0).1, (self.0).2, (self.0).3)
    }
}

/// The `i`-th complete 4-byte chunk of `b`, packed little-endian.
fn le_word_at(b: &[u8], i: usize) -> (r: u32)
    requires
        i <= 3,
        4 * i + 4 <= b@.len(),
    ensures
        r == le_chunk_word(b@, i as int),
{
    let base = 4 * i;
    b[base] as u32
        + b[base + 1] as u32 * 0x100
        + b[base + 2] as u32 * 0x1_0000
        + b[base + 3] as u32 * 0x100_0000
}

} // verus!
