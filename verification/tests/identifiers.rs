//! Identifier boundaries and packing: process identities, sender words,
//! and server identities derived from byte strings.

use xous_ipc::error::Error;
use xous_ipc::ids::{MessageSender, SID, pid_from_usize};

#[test]
fn pid_accepts_the_full_byte_range() {
    assert_eq!(pid_from_usize(255).unwrap().get(), 255);
    assert_eq!(pid_from_usize(1).unwrap().get(), 1);
}

#[test]
fn pid_rejects_values_above_a_byte() {
    assert_eq!(pid_from_usize(256), Err(Error::InvalidPID));
    assert_eq!(pid_from_usize(usize::MAX), Err(Error::InvalidPID));
}

#[test]
fn pid_rejects_zero() {
    assert_eq!(pid_from_usize(0), Err(Error::InvalidPID));
}

#[test]
fn sender_word_round_trips() {
    let s = MessageSender::from_usize(0xdead_beef);
    assert_eq!(s.to_usize(), 0xdead_beef);
    assert_eq!(MessageSender::from_usize(s.to_usize()), s);
}

#[test]
fn sender_pid_masks_the_top_byte_of_the_low_word() {
    let s = MessageSender::from_usize(0xab00_1234);
    assert_eq!(s.pid().unwrap().get(), 0xab);
    let no_pid = MessageSender::from_usize(0x0000_1234);
    assert!(no_pid.pid().is_none());
}

#[test]
fn sender_default_names_no_process() {
    let s = MessageSender::default();
    assert_eq!(s.to_usize(), 0);
    assert!(s.pid().is_none());
}

#[test]
fn sid_packs_sixteen_bytes_little_endian() {
    let sid = SID::from_bytes(b"shell           ").unwrap();
    assert_eq!(sid.to_u32(), (0x6c65_6873, 0x2020_206c, 0x2020_2020, 0x2020_2020));
}

#[test]
fn sid_leaves_unsupplied_words_zero() {
    let sid = SID::from_bytes(b"shell").unwrap();
    // Only the first complete four-byte chunk contributes; the trailing
    // partial chunk is dropped.
    assert_eq!(sid.to_u32(), (0x6c65_6873, 0, 0, 0));
    let empty = SID::from_bytes(b"").unwrap();
    assert_eq!(empty.to_u32(), (0, 0, 0, 0));
}

#[test]
fn sid_rejects_more_than_sixteen_bytes() {
    assert!(SID::from_bytes(b"seventeen bytes!!").is_none());
}

#[test]
fn sid_words_round_trip() {
    let sid = SID::from_u32(1, 2, 3, 4);
    let (a, b, c, d) = sid.to_u32();
    assert_eq!(SID::from_u32(a, b, c, d), sid);
}
