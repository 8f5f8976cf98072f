//! The kernel interface as data: flag and opcode constants, the event record,
//! and the four system calls written down as values.

use vstd::prelude::*;

verus! {

/// Interest or readiness: the source can be read.
pub const EPOLLIN: i32 = 0x001;

/// Interest or readiness: the source can be written.
pub const EPOLLOUT: i32 = 0x004;

/// Interest: notify once per transition to ready (bit 31).
pub const EPOLLET: i32 = -0x8000_0000;

/// Interest: disable the source after its first notification (bit 30).
pub const EPOLLONESHOT: i32 = 0x4000_0000;

/// Control opcode: add a source to the interest list.
pub const EPOLL_CTL_ADD: i32 = 1;

/// Control opcode: remove a source from the interest list.
pub const EPOLL_CTL_DEL: i32 = 2;

/// Control opcode: change the settings of a source in the interest list.
pub const EPOLL_CTL_MOD: i32 = 3;

/// The number of bytes of one event record at the system call boundary.
pub const EVENT_SIZE: usize = 12;

/// What an event record holds: a flag set and the caller's token.
pub ghost struct EventView {
    pub flags: i32,
    pub token: usize,
}

/// One event record, as handed to the control call (interest) and as handed
/// back by the wait call (readiness).
///
/// The kernel reads it as a packed record of [`EVENT_SIZE`] bytes, which
/// [`encoded`] spells out.
#[derive(Clone, Copy, Debug, PartialEq, Eq)]
pub struct EpollEvent {
    event: i32,
    data: usize,
}

impl View for EpollEvent {
    type V = EventView;

    closed spec fn view(&self) -> EventView {
        EventView { flags: self.event, token: self.data }
    }
}

/// The record as the kernel of an x86-64 Linux reads it: the 32 bits of the
/// flag set in bytes 0 to 3, the token as a 64-bit word in bytes 4 to 11,
/// each with its lowest byte first, and no padding between or after them.
pub open spec fn encoded(record: EventView) -> Seq<u8> {
    let flags = record.flags as u32;
    let token = record.token as u64;
    seq![
        (flags & 0xff) as u8,
        ((flags >> 8) & 0xff) as u8,
        ((flags >> 16) & 0xff) as u8,
        ((flags >> 24) & 0xff) as u8,
        (token & 0xff) as u8,
        ((token >> 8) & 0xff) as u8,
        ((token >> 16) & 0xff) as u8,
        ((token >> 24) & 0xff) as u8,
        ((token >> 32) & 0xff) as u8,
        ((token >> 40) & 0xff) as u8,
        ((token >> 48) & 0xff) as u8,
        ((token >> 56) & 0xff) as u8,
    ]
}

/// The flag set that bytes 0 to 3 of `bytes` spell, lowest byte first.
pub open spec fn decoded_flags(bytes: Seq<u8>) -> i32 {
    (bytes[0] as u32
        | (bytes[1] as u32) << 8
        | (bytes[2] as u32) << 16
        | (bytes[3] as u32) << 24) as i32
}

/// The token that bytes 4 to 11 of `bytes` spell, lowest byte first.
pub open spec fn decoded_token(bytes: Seq<u8>) -> usize {
    (bytes[4] as u64
        | (bytes[5] as u64) << 8
        | (bytes[6] as u64) << 16
        | (bytes[7] as u64) << 24
        | (bytes[8] as u64) << 32
        | (bytes[9] as u64) << 40
        | (bytes[10] as u64) << 48
        | (bytes[11] as u64) << 56) as usize
}

/// The record that [`EVENT_SIZE`] bytes written by the kernel stand for.
pub open spec fn decoded(bytes: Seq<u8>) -> EventView {
    EventView { flags: decoded_flags(bytes), token: decoded_token(bytes) }
}

/// A 32-bit word is the sum of its four bytes, each at its place.
proof fn lemma_flags_word(flags: u32)
    ensures
        ((flags & 0xff) as u8) as u32
            | (((flags >> 8) & 0xff) as u8 as u32) << 8
            | (((flags >> 16) & 0xff) as u8 as u32) << 16
            | (((flags >> 24) & 0xff) as u8 as u32) << 24
            == flags,
{
    assert(((flags & 0xff) as u8) as u32
        | (((flags >> 8) & 0xff) as u8 as u32) << 8
        | (((flags >> 16) & 0xff) as u8 as u32) << 16
        | (((flags >> 24) & 0xff) as u8 as u32) << 24
        == flags) by (bit_vector);
}

/// A 64-bit word is the sum of its eight bytes, each at its place.
proof fn lemma_token_word(token: u64)
    ensures
        ((token & 0xff) as u8) as u64
            | (((token >> 8) & 0xff) as u8 as u64) << 8
            | (((token >> 16) & 0xff) as u8 as u64) << 16
            | (((token >> 24) & 0xff) as u8 as u64) << 24
            | (((token >> 32) & 0xff) as u8 as u64) << 32
            | (((token >> 40) & 0xff) as u8 as u64) << 40
            | (((token >> 48) & 0xff) as u8 as u64) << 48
            | (((token >> 56) & 0xff) as u8 as u64) << 56
            == token,
{
    assert(((token & 0xff) as u8) as u64
        | (((token >> 8) & 0xff) as u8 as u64) << 8
        | (((token >> 16) & 0xff) as u8 as u64) << 16
        | (((token >> 24) & 0xff) as u8 as u64) << 24
        | (((token >> 32) & 0xff) as u8 as u64) << 32
        | (((token >> 40) & 0xff) as u8 as u64) << 40
        | (((token >> 48) & 0xff) as u8 as u64) << 48
        | (((token >> 56) & 0xff) as u8 as u64) << 56
        == token) by (bit_vector);
}

/// A token that went out in a record comes back unchanged: whatever flag set
/// the kernel writes, bytes that carry the token bytes of a record's encoding
/// decode to that record's token.
pub proof fn lemma_token_round_trip(record: EventView, bytes: Seq<u8>)
    requires
        bytes.len() == EVENT_SIZE,
        bytes.subrange(4, 12) == encoded(record).subrange(4, 12),
    ensures
        decoded_token(bytes) == record.token,
{
    let sent = encoded(record);
    assert forall|k: int| 4 <= k < 12 implies bytes[k] == sent[k] by {
        assert(bytes[k] == bytes.subrange(4, 12)[k - 4]);
        assert(sent[k] == sent.subrange(4, 12)[k - 4]);
    }
    lemma_token_word(record.token as u64);
}

/// Decoding undoes encoding: no record is changed by being written out and
/// read back.
pub proof fn lemma_decoded_encoded(record: EventView)
    ensures
        encoded(record).len() == EVENT_SIZE,
        decoded(encoded(record)) == record,
{
    lemma_token_round_trip(record, encoded(record));
    lemma_flags_word(record.flags as u32);
    let flags = record.flags;
    assert(((flags as u32) as i32) == flags) by (bit_vector);
}

impl EpollEvent {
    /// A record of the flag set `event` and the token `data`. The token is
    /// the caller's own and need not be a descriptor.
    pub fn new(event: i32, data: usize) -> (record: Self)
        ensures
            record@ == (EventView { flags: event, token: data }),
    {
        Self { event, data }
    }

    /// The caller's token, as it was given at registration.
    pub fn token(&self) -> (token: usize)
        ensures
            token == self@.token,
    {
        self.data
    }

    /// The interest mask of a registration, or the readiness mask that fired.
    pub fn flags(&self) -> (flags: i32)
        ensures
            flags == self@.flags,
    {
        self.event
    }

    /// The bytes to hand to the kernel for this record.
    pub fn to_bytes(&self) -> (bytes: [u8; 12])
        ensures
            bytes@ == encoded(self@),
    {
        let flags: u32 = #[verifier::truncate] (self.event as u32);
        let token: u64 = self.data as u64;
        let bytes: [u8; 12] = [
            #[verifier::truncate] ((flags & 0xff) as u8),
            #[verifier::truncate] (((flags >> 8) & 0xff) as u8),
            #[verifier::truncate] (((flags >> 16) & 0xff) as u8),
            #[verifier::truncate] (((flags >> 24) & 0xff) as u8),
            #[verifier::truncate] ((token & 0xff) as u8),
            #[verifier::truncate] (((token >> 8) & 0xff) as u8),
            #[verifier::truncate] (((token >> 16) & 0xff) as u8),
            #[verifier::truncate] (((token >> 24) & 0xff) as u8),
            #[verifier::truncate] (((token >> 32) & 0xff) as u8),
            #[verifier::truncate] (((token >> 40) & 0xff) as u8),
            #[verifier::truncate] (((token >> 48) & 0xff) as u8),
            #[verifier::truncate] (((token >> 56) & 0xff) as u8),
        ];
        bytes
    }

    /// The record that the kernel wrote as `bytes`.
    pub fn from_bytes(bytes: &[u8; 12]) -> (record: Self)
        ensures
            record@ == decoded(bytes@),
    {
        let flags: u32 = bytes[0] as u32
            | (bytes[1] as u32) << 8
            | (bytes[2] as u32) << 16
            | (bytes[3] as u32) << 24;
        let token: u64 = bytes[4] as u64
            | (bytes[5] as u64) << 8
            | (bytes[6] as u64) << 16
            | (bytes[7] as u64) << 24
            | (bytes[8] as u64) << 32
            | (bytes[9] as u64) << 40
            | (bytes[10] as u64) << 48
            | (bytes[11] as u64) << 56;
        Self {
            event: #[verifier::truncate] (flags as i32),
            data: #[verifier::truncate] (token as usize),
        }
    }
}

/// One system call of the epoll family, with its arguments in the order the
/// kernel takes them. Each returns an integer: negative on failure, with the
/// reason left in the calling thread's error state.
#[derive(Clone, Copy, Debug, PartialEq, Eq)]
pub enum Syscall {
    /// Release the handle `fd`.
    Close { fd: i32 },
    /// Make a new multiplexer instance.
    Create { flags: i32 },
    /// Apply `op` for the source `fd` to the interest list of `epfd`.
    Control { epfd: i32, op: i32, fd: i32, event: EpollEvent },
    /// Wait on `epfd` for up to `max_events` ready events, for `timeout`
    /// milliseconds (`-1`: without limit).
    Wait { epfd: i32, max_events: i32, timeout: i32 },
}

} // verus!
