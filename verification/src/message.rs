//! The message model and its wire codec: the two memory-transfer shapes
//! and the two scalar shapes, the envelope that pairs a message with its
//! sender, and the fixed-width word encoding that carries them across the
//! syscall boundary. The codec is bit-exact and reversible: zero stands
//! for "absent" in the optional fields, which is why addresses and sizes
//! are nonzero by construction.

use vstd::prelude::*;
use crate::ids::MessageSender;
use crate::mem::{MemoryAddress, MemoryRange, MemorySize, NonZeroWord};

verus! {

/// A user-assignable message identifier.
pub type MessageId = usize;

/// A buffer being transferred between processes: the full range, plus an
/// optional offset where the interesting part starts and an optional
/// count of valid bytes. Offset and valid, when present, are expected to
/// lie within the buffer; that is the caller's responsibility, not
/// checked at construction.
#[derive(Debug, PartialEq, Eq)]
pub struct MemoryMessage {
    /// A user-assignable message identifier.
    pub id: MessageId,
    /// The buffer; its address is translated as the message moves
    /// between processes.
    pub buf: MemoryRange,
    /// Where the interesting part of the buffer starts.
    pub offset: Option<MemoryAddress>,
    /// How many bytes of the buffer are valid.
    pub valid: Option<MemorySize>,
}

/// The five words a memory message travels as:
/// identifier, address, size, offset or zero, valid count or zero.
pub open spec fn memory_message_words(m: MemoryMessage) -> Seq<usize> {
    seq![
        m.id,
        m.buf.addr.value(),
        m.buf.size.value(),
        match m.offset { Some(a) => a.value(), None => 0 },
        match m.valid { Some(s) => s.value(), None => 0 },
    ]
}

/// The memory message five words decode to: zero offset and valid words
/// mean "absent", and a zero address or size word makes the whole frame
/// undecodable.
pub open spec fn memory_message_decode(w: Seq<usize>) -> Option<MemoryMessage> {
    if w[1] == 0 || w[2] == 0 {
        None
    } else {
        Some(MemoryMessage {
            id: w[0],
            buf: MemoryRange {
                addr: MemoryAddress::spec_new(w[1]),
                size: MemorySize::spec_new(w[2]),
            },
            offset: if w[3] == 0 { None } else { Some(MemoryAddress::spec_new(w[3])) },
            valid: if w[4] == 0 { None } else { Some(MemorySize::spec_new(w[4])) },
        })
    }
}

impl MemoryMessage {
    /// A ghost memory message is well formed when its nonzero-word fields
    /// are, as in every executable one.
    pub open spec fn wf(self) -> bool {
        &&& self.buf.wf()
        &&& match self.offset { Some(a) => a.wf(), None => true }
        &&& match self.valid { Some(s) => s.wf(), None => true }
    }

    /// Decode five words; nothing for a zero address or size.
    pub fn from_usize(id: usize, addr: usize, size: usize, offset: usize, valid: usize)
        -> (r: Option<MemoryMessage>)
        ensures
            r == memory_message_decode(seq![id, addr, size, offset, valid]),
    {
        let addr = match MemoryAddress::new(addr) {
            None => return None,
            Some(s) => s,
        };
        let size = match MemorySize::new(size) {
            None => return None,
            Some(s) => s,
        };
        let buf = MemoryRange { addr, size };
        let offset = MemoryAddress::new(offset);
        let valid = MemorySize::new(valid);
        Some(MemoryMessage { id, buf, offset, valid })
    }

    /// Encode as five words.
    pub fn to_usize(&self) -> (r: [usize; 5])
        ensures
            r@ == memory_message_words(*self),
    {
        let r = [
            self.id,
            self.buf.addr.get(),
            self.buf.size.get(),
            match self.offset {
                Some(a) => a.get(),
                None => 0,
            },
            match self.valid {
                Some(s) => s.get(),
                None => 0,
            },
        ];
        proof {
            assert(r@ =~= memory_message_words(*self));
        }
        r
    }
}

/// A well-formed memory message survives an encode/decode cycle: its
/// address and size words are nonzero, and its optional words are nonzero
/// exactly when the fields are present.
pub proof fn lemma_memory_message_round_trip(m: MemoryMessage)
    requires
        m.wf(),
    ensures
        memory_message_decode(memory_message_words(m)) == Some(m),
{
    NonZeroWord::lemma_value_injective(m.buf.addr);
    NonZeroWord::lemma_value_injective(m.buf.size);
    if let Some(a) = m.offset {
        NonZeroWord::lemma_value_injective(a);
    }
    if let Some(s) = m.valid {
        NonZeroWord::lemma_value_injective(s);
    }
    assert(memory_message_decode(memory_message_words(m)) =~= Some(m));
}

/// Five words that decode at all re-encode to the same five words: zero
/// offset and valid words map to "absent" and back to zero.
pub proof fn lemma_memory_words_round_trip(w: Seq<usize>)
    requires
        w.len() == 5,
    ensures
        memory_message_decode(w) is Some <==> (w[1] != 0 && w[2] != 0),
        memory_message_decode(w) matches Some(m) ==> memory_message_words(m) == w,
{
    if w[1] != 0 && w[2] != 0 {
        let m = memory_message_decode(w)->Some_0;
        NonZeroWord::lemma_spec_new_value(w[1]);
        NonZeroWord::lemma_spec_new_value(w[2]);
        NonZeroWord::lemma_spec_new_value(w[3]);
        NonZeroWord::lemma_spec_new_value(w[4]);
        assert(memory_message_words(m) =~= w);
    }
}

/// Up to four machine words of inline data plus an identifier; no memory
/// attached.
#[derive(Debug, PartialEq, Eq, Clone, Copy)]
pub struct ScalarMessage {
    pub id: MessageId,
    pub arg1: usize,
    pub arg2: usize,
    pub arg3: usize,
    pub arg4: usize,
}

/// The five words a scalar message travels as.
pub open spec fn scalar_message_words(m: ScalarMessage) -> Seq<usize> {
    seq![m.id, m.arg1, m.arg2, m.arg3, m.arg4]
}

/// The scalar message five words decode to; every frame decodes.
pub open spec fn scalar_message_decode(w: Seq<usize>) -> ScalarMessage {
    ScalarMessage { id: w[0], arg1: w[1], arg2: w[2], arg3: w[3], arg4: w[4] }
}

impl ScalarMessage {
    /// Decode five words.
    pub fn from_usize(id: usize, arg1: usize, arg2: usize, arg3: usize, arg4: usize)
        -> (r: ScalarMessage)
        ensures
            r == scalar_message_decode(seq![id, arg1, arg2, arg3, arg4]),
    {
        ScalarMessage { id, arg1, arg2, arg3, arg4 }
    }

    /// Encode as five words.
    pub fn to_usize(&self) -> (r: [usize; 5])
        ensures
            r@ == scalar_message_words(*self),
    {
        let r = [self.id, self.arg1, self.arg2, self.arg3, self.arg4];
        proof {
            assert(r@ =~= scalar_message_words(*self));
        }
        r
    }
}

/// Scalar encode and decode are mutual inverses with no loss, in both
/// directions: every message survives a cycle through five words, and
/// every five-word frame survives a cycle through a message.
pub proof fn lemma_scalar_message_round_trip(m: ScalarMessage, w: Seq<usize>)
    requires
        w.len() == 5,
    ensures
        scalar_message_decode(scalar_message_words(m)) == m,
        scalar_message_words(scalar_message_decode(w)) == w,
{
    assert(scalar_message_decode(scalar_message_words(m)) =~= m);
    assert(scalar_message_words(scalar_message_decode(w)) =~= w);
}

/// A message crossing a process boundary: two memory-transfer shapes that
/// lend a buffer and block until it is returned, one that moves a buffer
/// permanently, and two scalar shapes of which only the blocking one
/// waits for a reply.
#[derive(Debug, PartialEq, Eq)]
pub enum Message {
    MutableBorrow(MemoryMessage),
    Borrow(MemoryMessage),
    Move(MemoryMessage),
    Scalar(ScalarMessage),
    BlockingScalar(ScalarMessage),
}

/// The wire tag of each message shape. The numbering is a stable,
/// versioned contract shared with every peer.
pub open spec fn message_tag(m: Message) -> usize {
    match m {
        Message::MutableBorrow(_) => 0,
        Message::Borrow(_) => 1,
        Message::Move(_) => 2,
        Message::Scalar(_) => 3,
        Message::BlockingScalar(_) => 4,
    }
}

/// The five payload words of a message.
pub open spec fn message_payload(m: Message) -> Seq<usize> {
    match m {
        Message::MutableBorrow(mm) => memory_message_words(mm),
        Message::Borrow(mm) => memory_message_words(mm),
        Message::Move(mm) => memory_message_words(mm),
        Message::Scalar(sm) => scalar_message_words(sm),
        Message::BlockingScalar(sm) => scalar_message_words(sm),
    }
}

/// The message a tag and five payload words decode to: nothing for a tag
/// outside the table, or for a memory payload with a zero address or
/// size.
pub open spec fn message_decode(tag: usize, p: Seq<usize>) -> Option<Message> {
    if tag == 0 {
        match memory_message_decode(p) {
            Some(mm) => Some(Message::MutableBorrow(mm)),
            None => None,
        }
    } else if tag == 1 {
        match memory_message_decode(p) {
            Some(mm) => Some(Message::Borrow(mm)),
            None => None,
        }
    } else if tag == 2 {
        match memory_message_decode(p) {
            Some(mm) => Some(Message::Move(mm)),
            None => None,
        }
    } else if tag == 3 {
        Some(Message::Scalar(scalar_message_decode(p)))
    } else if tag == 4 {
        Some(Message::BlockingScalar(scalar_message_decode(p)))
    } else {
        None
    }
}

impl Message {
    /// Whether the sender suspends until a reply arrives: both lending
    /// shapes and the blocking scalar.
    pub open spec fn spec_is_blocking(self) -> bool {
        self is MutableBorrow || self is Borrow || self is BlockingScalar
    }

    /// Whether a buffer travels with the message: both lending shapes and
    /// the move.
    pub open spec fn spec_has_memory(self) -> bool {
        self is MutableBorrow || self is Borrow || self is Move
    }

    /// A ghost message is well formed when its memory payload, if any,
    /// is.
    pub open spec fn wf(self) -> bool {
        match self {
            Message::MutableBorrow(mm) => mm.wf(),
            Message::Borrow(mm) => mm.wf(),
            Message::Move(mm) => mm.wf(),
            Message::Scalar(_) => true,
            Message::BlockingScalar(_) => true,
        }
    }

    /// Whether this message suspends the sender until a reply arrives.
    pub fn is_blocking(&self) -> (r: bool)
        ensures
            r == self.spec_is_blocking(),
    {
        match *self {
            Message::MutableBorrow(_) | Message::Borrow(_) | Message::BlockingScalar(_) => true,
            Message::Move(_) | Message::Scalar(_) => false,
        }
    }

    /// Whether a buffer travels with this message.
    pub fn has_memory(&self) -> (r: bool)
        ensures
            r == self.spec_has_memory(),
    {
        match *self {
            Message::MutableBorrow(_) | Message::Borrow(_) | Message::Move(_) => true,
            Message::BlockingScalar(_) | Message::Scalar(_) => false,
        }
    }

    /// The buffer travelling with this message, if any.
    pub fn memory(&self) -> (r: Option<&MemoryRange>)
        ensures
            r is Some <==> self.spec_has_memory(),
            match *self {
                Message::MutableBorrow(mm) => r matches Some(b) && *b == mm.buf,
                Message::Borrow(mm) => r matches Some(b) && *b == mm.buf,
                Message::Move(mm) => r matches Some(b) && *b == mm.buf,
                Message::Scalar(_) => r is None,
                Message::BlockingScalar(_) => r is None,
            },
    {
        match self {
            Message::MutableBorrow(mem) | Message::Borrow(mem) | Message::Move(mem) => {
                Some(&mem.buf)
            }
            Message::BlockingScalar(_) | Message::Scalar(_) => None,
        }
    }

    /// The shape selector used in syscall argument frames; a distinct
    /// numbering from the envelope wire tag.
    pub fn message_type(&self) -> (r: usize)
        ensures
            r == message_tag(*self) + 1,
    {
        match *self {
            Message::MutableBorrow(_) => 1,
            Message::Borrow(_) => 2,
            Message::Move(_) => 3,
            Message::Scalar(_) => 4,
            Message::BlockingScalar(_) => 5,
        }
    }
}

/// For every message shape, exactly one of blocking and non-blocking
/// holds and exactly one of memory-bearing and memoryless holds, in the
/// fixed pattern of the shape table: the lending shapes block and bear
/// memory, the move bears memory without blocking, the blocking scalar
/// blocks without memory, and the plain scalar does neither.
pub proof fn lemma_message_classifiers(m: Message)
    ensures
        m.spec_is_blocking() <==> (m is MutableBorrow || m is Borrow || m is BlockingScalar),
        !m.spec_is_blocking() <==> (m is Move || m is Scalar),
        m.spec_has_memory() <==> (m is MutableBorrow || m is Borrow || m is Move),
        !m.spec_has_memory() <==> (m is Scalar || m is BlockingScalar),
        m.spec_has_memory() && m.spec_is_blocking() <==> (m is MutableBorrow || m is Borrow),
        m.spec_has_memory() && !m.spec_is_blocking() <==> m is Move,
        !m.spec_has_memory() && m.spec_is_blocking() <==> m is BlockingScalar,
        !m.spec_has_memory() && !m.spec_is_blocking() <==> m is Scalar,
{
}

/// A received message paired with the identity of its sender. The holder
/// owns the body and is responsible for disposing of it exactly once:
/// `disposal_action` says what that disposal must do.
#[derive(Debug, PartialEq, Eq)]
pub struct MessageEnvelope {
    pub sender: MessageSender,
    pub body: Message,
}

/// What disposing of an envelope must do with the memory its body
/// carries.
#[derive(Debug, PartialEq, Eq, Clone, Copy)]
pub enum DisposalAction {
    /// Hand the buffer back to the process that lent it; the receiver
    /// only ever held temporary access.
    ReturnToSender(MessageSender, MemoryRange),
    /// Release the buffer to the kernel's free pool; the receiver owned
    /// it.
    Free(MemoryRange),
    /// Nothing to do; no memory is attached.
    Nothing,
}

/// The disposal an envelope obliges its holder to: lent buffers go back
/// to the sender, moved buffers are freed, scalar bodies need nothing.
pub open spec fn spec_disposal(e: MessageEnvelope) -> DisposalAction {
    match e.body {
        Message::MutableBorrow(mm) => DisposalAction::ReturnToSender(e.sender, mm.buf),
        Message::Borrow(mm) => DisposalAction::ReturnToSender(e.sender, mm.buf),
        Message::Move(mm) => DisposalAction::Free(mm.buf),
        Message::Scalar(_) => DisposalAction::Nothing,
        Message::BlockingScalar(_) => DisposalAction::Nothing,
    }
}

/// The seven words an envelope travels as: sender, shape tag, payload.
pub open spec fn envelope_words(e: MessageEnvelope) -> Seq<usize> {
    seq![
        e.sender.value(),
        message_tag(e.body),
        message_payload(e.body)[0],
        message_payload(e.body)[1],
        message_payload(e.body)[2],
        message_payload(e.body)[3],
        message_payload(e.body)[4],
    ]
}

/// The envelope seven words decode to: nothing for an unknown shape tag
/// or an undecodable memory payload.
pub open spec fn envelope_decode(w: Seq<usize>) -> Option<MessageEnvelope> {
    match message_decode(w[1], w.subrange(2, 7)) {
        Some(body) => Some(MessageEnvelope {
            sender: MessageSender::spec_from_usize(w[0]),
            body,
        }),
        None => None,
    }
}

impl MessageEnvelope {
    /// A ghost envelope is well formed when its body is.
    pub open spec fn wf(self) -> bool {
        self.body.wf()
    }

    /// Encode as seven words.
    pub fn to_usize(&self) -> (r: [usize; 7])
        ensures
            r@ == envelope_words(*self),
    {
        let (tag, payload): (usize, [usize; 5]) = match &self.body {
            Message::MutableBorrow(m) => (0, m.to_usize()),
            Message::Borrow(m) => (1, m.to_usize()),
            Message::Move(m) => (2, m.to_usize()),
            Message::Scalar(m) => (3, m.to_usize()),
            Message::BlockingScalar(m) => (4, m.to_usize()),
        };
        let r = [
            self.sender.to_usize(),
            tag,
            payload[0],
            payload[1],
            payload[2],
            payload[3],
            payload[4],
        ];
        proof {
            assert(r@ =~= envelope_words(*self));
        }
        r
    }

    /// Decode seven words; nothing for an unknown shape tag or an
    /// undecodable memory payload.
    pub fn from_usize(src: [usize; 7]) -> (r: Option<MessageEnvelope>)
        ensures
            r == envelope_decode(src@),
    {
        proof {
            assert(src@.subrange(2, 7) =~= seq![src@[2], src@[3], src@[4], src@[5], src@[6]]);
        }
        let body = match src[1] {
            0 => match MemoryMessage::from_usize(src[2], src[3], src[4], src[5], src[6]) {
                None => return None,
                Some(mm) => Message::MutableBorrow(mm),
            },
            1 => match MemoryMessage::from_usize(src[2], src[3], src[4], src[5], src[6]) {
                None => return None,
                Some(mm) => Message::Borrow(mm),
            },
            2 => match MemoryMessage::from_usize(src[2], src[3], src[4], src[5], src[6]) {
                None => return None,
                Some(mm) => Message::Move(mm),
            },
            3 => Message::Scalar(ScalarMessage::from_usize(
                src[2], src[3], src[4], src[5], src[6],
            )),
            4 => Message::BlockingScalar(ScalarMessage::from_usize(
                src[2], src[3], src[4], src[5], src[6],
            )),
            _ => return None,
        };
        Some(MessageEnvelope { sender: MessageSender::from_usize(src[0]), body })
    }

    /// What disposing of this envelope must do with the memory its body
    /// carries. The holder must perform this action exactly once, on
    /// every path out of the scope that owns the envelope.
    pub fn disposal_action(&self) -> (r: DisposalAction)
        ensures
            r == spec_disposal(*self),
    {
        match &self.body {
            Message::Borrow(x) => DisposalAction::ReturnToSender(self.sender, x.buf),
            Message::MutableBorrow(x) => DisposalAction::ReturnToSender(self.sender, x.buf),
            Message::Move(msg) => DisposalAction::Free(msg.buf),
            Message::Scalar(_) => DisposalAction::Nothing,
            Message::BlockingScalar(_) => DisposalAction::Nothing,
        }
    }
}

/// A well-formed envelope survives an encode/decode cycle, sender
/// included.
pub proof fn lemma_envelope_round_trip(e: MessageEnvelope)
    requires
        e.wf(),
    ensures
        envelope_decode(envelope_words(e)) == Some(e),
{
    let w = envelope_words(e);
    assert(w.subrange(2, 7) =~= message_payload(e.body));
    match e.body {
        Message::MutableBorrow(mm) => lemma_memory_message_round_trip(mm),
        Message::Borrow(mm) => lemma_memory_message_round_trip(mm),
        Message::Move(mm) => lemma_memory_message_round_trip(mm),
        Message::Scalar(sm) => lemma_scalar_message_round_trip(sm, scalar_message_words(sm)),
        Message::BlockingScalar(sm) => lemma_scalar_message_round_trip(
            sm,
            scalar_message_words(sm),
        ),
    }
    MessageSender::lemma_value_injective(e.sender);
}

/// Disposal obligations are total and mutually exclusive: every envelope
/// obliges exactly one action, a return to the sender exactly for the two
/// lending shapes, a free exactly for the move, and nothing exactly when
/// no memory is attached.
pub proof fn lemma_disposal_exclusive(e: MessageEnvelope)
    ensures
        (spec_disposal(e) is ReturnToSender) <==> (e.body is Borrow || e.body is MutableBorrow),
        (spec_disposal(e) is Free) <==> e.body is Move,
        (spec_disposal(e) is Nothing) <==> !e.body.spec_has_memory(),
        spec_disposal(e) is ReturnToSender ==> spec_disposal(e)->ReturnToSender_0 == e.sender,
{
}

} // verus!
