//! The registry that owns one multiplexer handle, the buffer of ready events,
//! and the poll operations over both.

use crate::syscalls::{
    decoded, encoded, lemma_token_round_trip, EpollEvent, EventView, Syscall, EPOLL_CTL_ADD,
    EVENT_SIZE,
};
use std::io::Error;
use vstd::prelude::*;

verus! {

#[verifier::external_type_specification]
#[verifier::external_body]
pub struct ExIoError(std::io::Error);

/// `std::io::Error::last_os_error`: the error that the calling thread's last
/// failed system call left behind. What it holds depends on that call, so
/// nothing is claimed of it.
#[verifier::external_body]
fn last_os_error() -> Error {
    Error::last_os_error()
}

/// Turns the integer that a system call returned into an outcome: `result`
/// where the code is not negative, else the operating system's current error.
///
/// The error state is read here, so this must run before anything else that
/// can fail.
pub fn return_result<T>(result: T, code: i32) -> (outcome: Result<T, Error>)
    ensures
        code >= 0 ==> outcome == Ok::<T, Error>(result),
        code < 0 ==> outcome is Err,
{
    if code < 0 {
        Err(last_os_error())
    } else {
        Ok(result)
    }
}

/// The timeout handed to the wait call: the caller's own number of
/// milliseconds, or `-1`, on which the kernel blocks without limit, where
/// the caller gave none.
pub open spec fn resolved_timeout(timeout: Option<i32>) -> i32 {
    match timeout {
        Some(millis) => millis,
        None => -1i32,
    }
}

/// What a wait call that returned `count` reports: the records that the
/// first `count` slots of the kernel's buffer stand for, in the kernel's
/// order.
pub open spec fn reported(bytes: Seq<u8>, count: int) -> Seq<EventView> {
    Seq::new(
        count as nat,
        |i: int| decoded(bytes.subrange(i * EVENT_SIZE, i * EVENT_SIZE + EVENT_SIZE)),
    )
}

/// A token that was registered is the token that is read: where the kernel
/// writes the token bytes of a registered record into one of the slots that
/// it reports, the record at that place of the report carries the record's
/// token, whatever readiness the kernel wrote beside it.
pub proof fn lemma_reported_token(record: EventView, bytes: Seq<u8>, count: int, i: int)
    requires
        0 <= i < count,
        count * EVENT_SIZE <= bytes.len(),
        bytes.subrange(i * EVENT_SIZE + 4, i * EVENT_SIZE + 12) == encoded(record).subrange(4, 12),
    ensures
        reported(bytes, count)[i].token == record.token,
{
    let slot = bytes.subrange(i * EVENT_SIZE, i * EVENT_SIZE + EVENT_SIZE);
    assert(slot.subrange(4, 12) =~= bytes.subrange(i * EVENT_SIZE + 4, i * EVENT_SIZE + 12));
    lemma_token_round_trip(record, slot);
}

/// A buffer of event records with a capacity fixed when it is made.
///
/// Its view is the sequence of records that the last wait call reported, in
/// the order the kernel wrote them. Slots beyond that count are not kept, so
/// no stale record can be read.
pub struct Events {
    ready: Vec<EpollEvent>,
    capacity: usize,
}

impl View for Events {
    type V = Seq<EventView>;

    closed spec fn view(&self) -> Seq<EventView> {
        self.ready@.map_values(|record: EpollEvent| record@)
    }
}

impl Events {
    #[verifier::type_invariant]
    spec fn within_capacity(&self) -> bool {
        self.ready@.len() <= self.capacity
    }

    /// The number of slots that a wait call may fill.
    pub closed spec fn spec_capacity(&self) -> usize {
        self.capacity
    }

    /// An empty buffer with room for `capacity` records.
    pub fn with_capacity(capacity: usize) -> (events: Events)
        ensures
            events@ == Seq::<EventView>::empty(),
            events.capacity() == capacity,
    {
        Events { ready: Vec::with_capacity(capacity), capacity }
    }

    #[verifier::when_used_as_spec(spec_capacity)]
    pub fn capacity(&self) -> (capacity: usize)
        ensures
            capacity == self.spec_capacity(),
    {
        self.capacity
    }

    /// The number of records that the last wait call reported. It never
    /// exceeds the capacity.
    pub fn len(&self) -> (len: usize)
        ensures
            len == self@.len(),
            len <= self.capacity(),
    {
        proof {
            use_type_invariant(self);
        }
        self.ready.len()
    }

    /// The records that the last wait call reported.
    pub fn as_slice(&self) -> (ready: &[EpollEvent])
        ensures
            ready@.len() == self@.len(),
            forall|i: int| 0 <= i < ready@.len() ==> (#[trigger] ready@[i])@ == self@[i],
    {
        self.ready.as_slice()
    }

    /// The one way to change the occupied length: decodes the first `count`
    /// slots of `bytes` and drops what was held before. The capacity stays.
    fn set_filled(&mut self, count: usize, bytes: &[u8])
        requires
            count * EVENT_SIZE <= bytes.len(),
            count <= old(self).capacity(),
        ensures
            final(self)@ == reported(bytes@, count as int),
            final(self).capacity() == old(self).capacity(),
    {
        // The storage is taken out, refilled and put back, so that it is
        // allocated once and the buffer is within its capacity throughout.
        let mut ready: Vec<EpollEvent> = Vec::new();
        std::mem::swap(&mut self.ready, &mut ready);
        ready.clear();
        let mut filled: usize = 0;
        while filled < count
            invariant
                filled <= count,
                count * EVENT_SIZE <= bytes.len(),
                ready@.len() == filled,
                forall|i: int|
                    0 <= i < filled ==> (#[trigger] ready@[i])@ == reported(
                        bytes@,
                        count as int,
                    )[i],
            decreases count - filled,
        {
            assert(filled * EVENT_SIZE + EVENT_SIZE <= count * EVENT_SIZE) by (nonlinear_arith)
                requires
                    filled < count,
            ;
            let at: usize = filled * EVENT_SIZE;
            let slot: [u8; 12] = [
                bytes[at],
                bytes[at + 1],
                bytes[at + 2],
                bytes[at + 3],
                bytes[at + 4],
                bytes[at + 5],
                bytes[at + 6],
                bytes[at + 7],
                bytes[at + 8],
                bytes[at + 9],
                bytes[at + 10],
                bytes[at + 11],
            ];
            ready.push(EpollEvent::from_bytes(&slot));
            filled += 1;
        }
        self.ready = ready;
    }
}

/// The owner of one multiplexer handle, from the create call that made it to
/// the close call that releases it. The handle is never negative.
pub struct Registry {
    raw_fd: i32,
}

impl Registry {
    #[verifier::type_invariant]
    spec fn descriptor_valid(&self) -> bool {
        self.raw_fd >= 0
    }

    /// The handle that this registry owns.
    pub closed spec fn fd(&self) -> i32 {
        self.raw_fd
    }

    /// The call that makes a multiplexer instance: create, with no flags.
    pub fn create_call() -> (call: Syscall)
        ensures
            call == (Syscall::Create { flags: 0 }),
    {
        Syscall::Create { flags: 0 }
    }

    /// Takes the create call's return value. A handle is kept, and a registry
    /// made, only where the call succeeded.
    pub fn create(code: i32) -> (outcome: Result<Registry, Error>)
        ensures
            code >= 0 ==> outcome is Ok && outcome->Ok_0.fd() == code,
            code < 0 ==> outcome is Err,
    {
        match return_result(code, code) {
            Ok(fd) => Ok(Registry { raw_fd: fd }),
            Err(error) => Err(error),
        }
    }

    /// The handle that this registry owns. It is a valid descriptor number
    /// for as long as the registry lives.
    pub fn raw_fd(&self) -> (fd: i32)
        ensures
            fd == self.fd(),
            fd >= 0,
    {
        proof {
            use_type_invariant(self);
        }
        self.raw_fd
    }

    /// Gives the registry up for the call that releases its handle. The
    /// registry is consumed, so the handle is released once and not used
    /// again. A failure of that call is for the caller to log, not to return:
    /// [`return_result`] on its return value says whether it failed.
    pub fn destroy(self) -> (call: Syscall)
        ensures
            call == (Syscall::Close { fd: self.fd() }),
            self.fd() >= 0,
    {
        Syscall::Close { fd: self.raw_fd() }
    }
}

/// One multiplexer instance, with the operations to register sources with it
/// and to wait on them.
pub struct Poll {
    registry: Registry,
}

impl Poll {
    /// The handle of the multiplexer instance.
    pub closed spec fn fd(&self) -> i32 {
        self.registry.fd()
    }

    /// Takes the return value of the call that [`Registry::create_call`]
    /// names, and hands the registry's failure on unchanged.
    pub fn new(code: i32) -> (outcome: Result<Poll, Error>)
        ensures
            code >= 0 ==> outcome is Ok && outcome->Ok_0.fd() == code,
            code < 0 ==> outcome is Err,
    {
        match Registry::create(code) {
            Ok(registry) => Ok(Poll { registry }),
            Err(error) => Err(error),
        }
    }

    /// The call that registers `source` under `token` for the readiness kinds
    /// in `interests`: a control call with the add opcode, whose event record
    /// carries the mask and the token unchanged. [`return_result`] on its
    /// return value gives the outcome of the registration.
    pub fn register(&self, source: i32, token: usize, interests: i32) -> (call: Syscall)
        ensures
            (call matches Syscall::Control { epfd, op, fd, event } && epfd == self.fd() && epfd
                >= 0 && op == EPOLL_CTL_ADD && fd == source && event@ == (EventView {
                flags: interests,
                token,
            })),
    {
        let event = EpollEvent::new(interests, token);
        Syscall::Control { epfd: self.registry.raw_fd(), op: EPOLL_CTL_ADD, fd: source, event }
    }

    /// The call that waits for ready events: at most as many as `events` has
    /// room for, whatever it holds now, and for at most `timeout`
    /// milliseconds, or without limit where there is none.
    ///
    /// The buffer must have room for at least one event, and for no more
    /// than the kernel can be told of.
    pub fn poll(&self, timeout: Option<i32>, events: &Events) -> (call: Syscall)
        requires
            0 < events.capacity() <= i32::MAX,
        ensures
            (call matches Syscall::Wait { epfd, max_events, timeout: limit } && epfd == self.fd()
                && epfd >= 0 && max_events == events.capacity() && limit == resolved_timeout(
                timeout,
            )),
    {
        let timeout: i32 = match timeout {
            Some(millis) => millis,
            None => -1,
        };
        let max_events: i32 = events.capacity() as i32;
        Syscall::Wait { epfd: self.registry.raw_fd(), max_events, timeout }
    }

    /// Takes the wait call's return value and the buffer that the kernel
    /// wrote to. On failure `events` stays as it was. On success it holds the
    /// records of the first `code` slots and nothing else.
    ///
    /// A count is accepted only within what the kernel was given room for:
    /// one beyond the slots of `bytes` or the capacity of `events` must not
    /// reach this function.
    pub fn finish_poll(&self, code: i32, bytes: &[u8], events: &mut Events) -> (outcome: Result<
        (),
        Error,
    >)
        requires
            code >= 0 ==> code * EVENT_SIZE <= bytes.len() && code <= old(events).capacity(),
        ensures
            final(events).capacity() == old(events).capacity(),
            final(events)@.len() <= final(events).capacity(),
            code >= 0 ==> outcome is Ok && final(events)@ == reported(bytes@, code as int),
            code < 0 ==> outcome is Err && *final(events) == *old(events),
    {
        match return_result(code, code) {
            Ok(count) => {
                events.set_filled(count as usize, bytes);
                Ok(())
            },
            Err(error) => {
                proof {
                    use_type_invariant(&*events);
                }
                Err(error)
            },
        }
    }

    /// Gives the instance up for the call that releases its handle. The
    /// instance is consumed: nothing can be registered with it or waited on
    /// after this, and its handle is released once.
    pub fn close(self) -> (call: Syscall)
        ensures
            call == (Syscall::Close { fd: self.fd() }),
            self.fd() >= 0,
    {
        self.registry.destroy()
    }
}

} // verus!
