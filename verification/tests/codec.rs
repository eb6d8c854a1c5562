//! The wire codec on concrete values: memory and scalar messages,
//! envelopes, and the eight-word result frame, in both directions.

use xous_ipc::error::Error;
use xous_ipc::ids::{MessageSender, SID, pid_from_usize};
use xous_ipc::mem::{MemoryRange, NonZeroWord};
use xous_ipc::message::{MemoryMessage, Message, MessageEnvelope, ScalarMessage};
use xous_ipc::sysresult::SysResult;

fn sample_memory_message() -> MemoryMessage {
    MemoryMessage::from_usize(5, 0x1000, 0x2000, 4, 16).unwrap()
}

#[test]
fn memory_message_round_trips_through_five_words() {
    let m = sample_memory_message();
    let w = m.to_usize();
    assert_eq!(w, [5, 0x1000, 0x2000, 4, 16]);
    let back = MemoryMessage::from_usize(w[0], w[1], w[2], w[3], w[4]).unwrap();
    assert_eq!(back, sample_memory_message());
}

#[test]
fn memory_message_zero_words_mean_absent() {
    let m = MemoryMessage::from_usize(7, 0x4000, 0x100, 0, 0).unwrap();
    assert!(m.offset.is_none());
    assert!(m.valid.is_none());
    let w = m.to_usize();
    assert_eq!(w, [7, 0x4000, 0x100, 0, 0]);
}

#[test]
fn memory_message_rejects_zero_address_or_size() {
    assert!(MemoryMessage::from_usize(1, 0, 0x1000, 0, 0).is_none());
    assert!(MemoryMessage::from_usize(1, 0x1000, 0, 0, 0).is_none());
}

#[test]
fn scalar_message_round_trips_both_directions() {
    let m = ScalarMessage::from_usize(9, 10, 20, 30, 40);
    let w = m.to_usize();
    assert_eq!(w, [9, 10, 20, 30, 40]);
    let back = ScalarMessage::from_usize(w[0], w[1], w[2], w[3], w[4]);
    assert_eq!(back, m);

    let words = [1usize, 2, 3, 4, 5];
    let m2 = ScalarMessage::from_usize(words[0], words[1], words[2], words[3], words[4]);
    assert_eq!(m2.to_usize(), words);
}

fn envelope_with(body: Message) -> MessageEnvelope {
    MessageEnvelope { sender: MessageSender::from_usize(0x0700_0042), body }
}

#[test]
fn envelope_round_trips_every_shape() {
    let shapes = [
        Message::MutableBorrow(sample_memory_message()),
        Message::Borrow(sample_memory_message()),
        Message::Move(sample_memory_message()),
        Message::Scalar(ScalarMessage::from_usize(1, 2, 3, 4, 5)),
        Message::BlockingScalar(ScalarMessage::from_usize(6, 7, 8, 9, 10)),
    ];
    for body in shapes {
        let expected = match &body {
            Message::MutableBorrow(_) => envelope_with(Message::MutableBorrow(
                sample_memory_message(),
            )),
            Message::Borrow(_) => envelope_with(Message::Borrow(sample_memory_message())),
            Message::Move(_) => envelope_with(Message::Move(sample_memory_message())),
            Message::Scalar(sm) => envelope_with(Message::Scalar(*sm)),
            Message::BlockingScalar(sm) => envelope_with(Message::BlockingScalar(*sm)),
        };
        let e = envelope_with(body);
        let words = e.to_usize();
        assert_eq!(words[0], 0x0700_0042);
        let back = MessageEnvelope::from_usize(words).unwrap();
        assert_eq!(back, expected);
        assert_eq!(back.sender.to_usize(), 0x0700_0042);
    }
}

#[test]
fn envelope_tags_follow_the_table() {
    let mm = sample_memory_message;
    let tags = [
        (Message::MutableBorrow(mm()), 0usize),
        (Message::Borrow(mm()), 1),
        (Message::Move(mm()), 2),
        (Message::Scalar(ScalarMessage::from_usize(1, 0, 0, 0, 0)), 3),
        (Message::BlockingScalar(ScalarMessage::from_usize(1, 0, 0, 0, 0)), 4),
    ];
    for (body, tag) in tags {
        assert_eq!(envelope_with(body).to_usize()[1], tag);
    }
}

#[test]
fn envelope_rejects_bad_frames() {
    // An unknown shape tag.
    assert!(MessageEnvelope::from_usize([1, 9, 1, 2, 3, 4, 5]).is_none());
    // A memory shape whose address word is zero.
    assert!(MessageEnvelope::from_usize([1, 0, 7, 0, 0x100, 0, 0]).is_none());
    // A memory shape whose size word is zero.
    assert!(MessageEnvelope::from_usize([1, 2, 7, 0x100, 0, 0, 0]).is_none());
}

fn range(addr: usize, size: usize) -> MemoryRange {
    MemoryRange::new(addr, size).unwrap()
}

#[test]
fn result_round_trips_every_defined_tag() {
    let results = [
        SysResult::Success,
        SysResult::Error(Error::Timeout),
        SysResult::MemoryAddress(NonZeroWord::new(0x8000).unwrap()),
        SysResult::MemoryRange(range(0x8000, 0x1000)),
        SysResult::ReadyThreads(3, 1, 11, 2, 22, 3, 33),
        SysResult::ResumeProcess,
        SysResult::ServerID(SID::from_u32(1, 2, 3, 4)),
        SysResult::ConnectionID(17),
        SysResult::NewServerID(SID::from_u32(5, 6, 7, 8), 29),
        SysResult::Message(envelope_with(Message::Borrow(sample_memory_message()))),
        SysResult::ThreadID(41),
        SysResult::ProcessID(pid_from_usize(99).unwrap()),
        SysResult::Unimplemented,
        SysResult::BlockedProcess,
        SysResult::Scalar1(0x1234),
        SysResult::Scalar2(0x1234, 0x5678),
        SysResult::WouldBlock,
        SysResult::NoValue,
    ];
    // NewServerID is listed ninth here but travels under tag fifteen.
    let expected_tags = [0, 1, 2, 3, 4, 5, 6, 7, 15, 8, 9, 10, 11, 12, 13, 14, 16, 17];
    for (i, r) in results.into_iter().enumerate() {
        let args = r.to_args();
        assert_eq!(args[0], expected_tags[i], "tag of entry {i}");
        let back = SysResult::from_args(args);
        let again = back.to_args();
        assert_eq!(again, args);
    }
}

#[test]
fn result_unknown_tag_round_trips() {
    let r = SysResult::UnknownResult(1, 2, 3, 4, 5, 6, 7);
    let args = r.to_args();
    assert_eq!(args, [usize::MAX, 1, 2, 3, 4, 5, 6, 7]);
    assert_eq!(SysResult::from_args(args), r);
}

#[test]
fn unknown_tag_decodes_to_catch_all_verbatim() {
    let r = SysResult::from_args([99, 1, 2, 3, 4, 5, 6, 7]);
    assert_eq!(r, SysResult::UnknownResult(1, 2, 3, 4, 5, 6, 7));
}

#[test]
fn corrupted_nested_frames_fail_closed() {
    // A message result whose memory payload has a zero address.
    let r = SysResult::from_args([8, 1, 0, 7, 0, 0x100, 0, 0]);
    assert_eq!(r, SysResult::Error(Error::InternalError));
    // A message result with an unknown shape tag.
    let r = SysResult::from_args([8, 1, 9, 7, 1, 1, 0, 0]);
    assert_eq!(r, SysResult::Error(Error::InternalError));
    // An address result carrying zero.
    let r = SysResult::from_args([2, 0, 0, 0, 0, 0, 0, 0]);
    assert_eq!(r, SysResult::Error(Error::InternalError));
    // A range result with a zero size.
    let r = SysResult::from_args([3, 0x1000, 0, 0, 0, 0, 0, 0]);
    assert_eq!(r, SysResult::Error(Error::InternalError));
    // A process identity of zero, and one above a byte.
    let r = SysResult::from_args([10, 0, 0, 0, 0, 0, 0, 0]);
    assert_eq!(r, SysResult::Error(Error::InternalError));
    let r = SysResult::from_args([10, 300, 0, 0, 0, 0, 0, 0]);
    assert_eq!(r, SysResult::Error(Error::InternalError));
}

#[test]
fn result_message_reconstructs_envelope() {
    let e = envelope_with(Message::Move(sample_memory_message()));
    let args = SysResult::Message(e).to_args();
    assert_eq!(args[0], 8);
    assert_eq!(args[1], 0x0700_0042);
    assert_eq!(args[2], 2);
    match SysResult::from_args(args) {
        SysResult::Message(back) => {
            assert_eq!(back.sender.to_usize(), 0x0700_0042);
            assert_eq!(back.body, Message::Move(sample_memory_message()));
        }
        other => panic!("expected a message result, got {:?}", other),
    }
}

#[test]
fn result_memory_returns_attached_buffer() {
    let e = envelope_with(Message::Borrow(sample_memory_message()));
    let r = SysResult::Message(e);
    let buf = r.memory().unwrap();
    assert_eq!(buf.as_ptr(), 0x1000);
    assert_eq!(buf.len(), 0x2000);
    let scalar = SysResult::Message(envelope_with(Message::Scalar(ScalarMessage::from_usize(
        1, 0, 0, 0, 0,
    ))));
    assert!(scalar.memory().is_none());
    assert!(SysResult::Success.memory().is_none());
}

#[test]
fn error_codes_round_trip() {
    let all = [
        Error::NoError,
        Error::BadAlignment,
        Error::BadAddress,
        Error::OutOfMemory,
        Error::MemoryInUse,
        Error::InterruptNotFound,
        Error::InterruptInUse,
        Error::InvalidString,
        Error::ServerExists,
        Error::ServerNotFound,
        Error::ProcessNotFound,
        Error::ProcessNotChild,
        Error::ProcessTerminated,
        Error::Timeout,
        Error::InternalError,
        Error::ServerQueueFull,
        Error::ThreadNotAvailable,
        Error::UnhandledSyscall,
        Error::InvalidSyscall,
        Error::ShareViolation,
        Error::InvalidThread,
        Error::InvalidPID,
        Error::UnknownError,
    ];
    for (i, e) in all.iter().enumerate() {
        let code = e.to_usize();
        if i < 22 {
            assert_eq!(code, i);
        } else {
            assert_eq!(code, usize::MAX);
        }
        assert_eq!(Error::from_usize(code), all[i]);
    }
}

#[test]
fn unrecognized_error_codes_decode_to_unknown() {
    assert_eq!(Error::from_usize(22), Error::UnknownError);
    assert_eq!(Error::from_usize(500), Error::UnknownError);
}

#[test]
fn error_converts_into_result() {
    let r: SysResult = Error::OutOfMemory.into();
    assert_eq!(r, SysResult::Error(Error::OutOfMemory));
}
