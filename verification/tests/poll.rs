use epoll_core::poll::{Events, Poll};
use epoll_core::syscalls::{
    EpollEvent, Syscall, EPOLLET, EPOLLIN, EPOLLONESHOT, EPOLLOUT, EPOLL_CTL_ADD, EVENT_SIZE,
};

fn kernel_buffer(slots: usize, written: &[EpollEvent]) -> Vec<u8> {
    let mut bytes = vec![0u8; slots * EVENT_SIZE];
    for (i, record) in written.iter().enumerate() {
        bytes[i * EVENT_SIZE..(i + 1) * EVENT_SIZE].copy_from_slice(&record.to_bytes());
    }
    bytes
}

fn tokens(events: &Events) -> Vec<usize> {
    events.as_slice().iter().map(|event| event.token()).collect()
}

#[test]
fn register_is_a_control_call_with_the_add_opcode() {
    let poll = Poll::new(3).unwrap();
    let call = poll.register(7, 1024, EPOLLOUT | EPOLLET | EPOLLIN);
    assert_eq!(
        call,
        Syscall::Control {
            epfd: 3,
            op: EPOLL_CTL_ADD,
            fd: 7,
            event: EpollEvent::new(EPOLLOUT | EPOLLET | EPOLLIN, 1024),
        }
    );
}

#[test]
fn register_hands_token_and_interests_on_unchanged() {
    let poll = Poll::new(9).unwrap();
    match poll.register(12, usize::MAX, EPOLLIN | EPOLLONESHOT) {
        Syscall::Control { epfd, op, fd, event } => {
            assert_eq!(epfd, 9);
            assert_eq!(op, 1);
            assert_eq!(fd, 12);
            assert_eq!(event.token(), usize::MAX);
            assert_eq!(event.flags(), EPOLLIN | EPOLLONESHOT);
        }
        other => panic!("not a control call: {:?}", other),
    }
}

#[test]
fn registering_twice_gives_the_same_call_twice() {
    let poll = Poll::new(3).unwrap();
    assert_eq!(poll.register(7, 1, EPOLLIN), poll.register(7, 1, EPOLLIN));
}

#[test]
fn new_buffer_is_empty_with_its_capacity() {
    let events = Events::with_capacity(8);
    assert_eq!(events.len(), 0);
    assert_eq!(events.capacity(), 8);
    assert!(events.as_slice().is_empty());
}

#[test]
fn poll_without_timeout_waits_without_limit() {
    let poll = Poll::new(3).unwrap();
    let events = Events::with_capacity(8);
    assert_eq!(
        poll.poll(None, &events),
        Syscall::Wait { epfd: 3, max_events: 8, timeout: -1 }
    );
}

#[test]
fn poll_with_zero_timeout_asks_for_an_immediate_return() {
    let poll = Poll::new(3).unwrap();
    let events = Events::with_capacity(8);
    assert_eq!(
        poll.poll(Some(0), &events),
        Syscall::Wait { epfd: 3, max_events: 8, timeout: 0 }
    );
}

#[test]
fn poll_hands_a_timeout_on_in_milliseconds() {
    let poll = Poll::new(5).unwrap();
    let events = Events::with_capacity(1);
    assert_eq!(
        poll.poll(Some(250), &events),
        Syscall::Wait { epfd: 5, max_events: 1, timeout: 250 }
    );
    assert_eq!(
        poll.poll(Some(i32::MAX), &events),
        Syscall::Wait { epfd: 5, max_events: 1, timeout: i32::MAX }
    );
}

#[test]
fn poll_asks_for_the_capacity_not_the_length() {
    let poll = Poll::new(3).unwrap();
    let mut events = Events::with_capacity(4);
    let bytes = kernel_buffer(4, &[EpollEvent::new(EPOLLIN, 1), EpollEvent::new(EPOLLIN, 2)]);
    poll.finish_poll(2, &bytes, &mut events).unwrap();
    assert_eq!(events.len(), 2);
    assert_eq!(
        poll.poll(None, &events),
        Syscall::Wait { epfd: 3, max_events: 4, timeout: -1 }
    );
}

#[test]
fn poll_asks_for_a_large_capacity_in_full() {
    let poll = Poll::new(3).unwrap();
    let events = Events::with_capacity(1 << 16);
    assert_eq!(
        poll.poll(Some(1), &events),
        Syscall::Wait { epfd: 3, max_events: 65536, timeout: 1 }
    );
}

#[test]
fn successful_wait_sets_the_length_to_the_count() {
    let poll = Poll::new(3).unwrap();
    let mut events = Events::with_capacity(8);
    let written = [
        EpollEvent::new(EPOLLIN, 10),
        EpollEvent::new(EPOLLOUT, 20),
        EpollEvent::new(EPOLLIN | EPOLLOUT, 30),
    ];
    let bytes = kernel_buffer(8, &written);
    assert!(poll.finish_poll(3, &bytes, &mut events).is_ok());
    assert_eq!(events.len(), 3);
    assert_eq!(events.as_slice(), &written);
    assert_eq!(events.capacity(), 8);
}

#[test]
fn wait_that_found_nothing_empties_the_buffer() {
    let poll = Poll::new(3).unwrap();
    let mut events = Events::with_capacity(8);
    let bytes = kernel_buffer(8, &[EpollEvent::new(EPOLLIN, 10)]);
    poll.finish_poll(1, &bytes, &mut events).unwrap();
    assert_eq!(events.len(), 1);
    poll.finish_poll(0, &bytes, &mut events).unwrap();
    assert_eq!(events.len(), 0);
    assert!(events.as_slice().is_empty());
}

#[test]
fn slots_beyond_the_count_are_not_shown() {
    let poll = Poll::new(3).unwrap();
    let mut events = Events::with_capacity(8);
    let bytes = kernel_buffer(8, &[EpollEvent::new(EPOLLIN, 10), EpollEvent::new(EPOLLIN, 99)]);
    poll.finish_poll(1, &bytes, &mut events).unwrap();
    assert_eq!(tokens(&events), vec![10]);
}

#[test]
fn wait_can_fill_the_whole_capacity() {
    let poll = Poll::new(3).unwrap();
    let mut events = Events::with_capacity(3);
    let written = [
        EpollEvent::new(EPOLLIN, 1),
        EpollEvent::new(EPOLLIN, 2),
        EpollEvent::new(EPOLLIN, 3),
    ];
    let bytes = kernel_buffer(3, &written);
    poll.finish_poll(3, &bytes, &mut events).unwrap();
    assert_eq!(events.len(), events.capacity());
    assert_eq!(tokens(&events), vec![1, 2, 3]);
}

#[test]
fn failed_wait_leaves_the_buffer_as_it_was() {
    let poll = Poll::new(3).unwrap();
    let mut events = Events::with_capacity(8);
    let first = kernel_buffer(8, &[EpollEvent::new(EPOLLIN, 10), EpollEvent::new(EPOLLOUT, 20)]);
    poll.finish_poll(2, &first, &mut events).unwrap();
    let second = kernel_buffer(8, &[EpollEvent::new(EPOLLIN, 77)]);
    assert!(poll.finish_poll(-1, &second, &mut events).is_err());
    assert_eq!(events.len(), 2);
    assert_eq!(tokens(&events), vec![10, 20]);
    assert_eq!(events.capacity(), 8);
}

#[test]
fn failed_wait_needs_no_buffer() {
    let poll = Poll::new(3).unwrap();
    let mut events = Events::with_capacity(8);
    assert!(poll.finish_poll(-1, &[], &mut events).is_err());
    assert_eq!(events.len(), 0);
}

#[test]
fn each_wait_recomputes_the_length() {
    let poll = Poll::new(3).unwrap();
    let mut events = Events::with_capacity(4);
    let counts = [4, 0, 2, 1, 3, 4, 0];
    let written = [
        EpollEvent::new(EPOLLIN, 1),
        EpollEvent::new(EPOLLIN, 2),
        EpollEvent::new(EPOLLIN, 3),
        EpollEvent::new(EPOLLIN, 4),
    ];
    let bytes = kernel_buffer(4, &written);
    for count in counts {
        poll.finish_poll(count, &bytes, &mut events).unwrap();
        assert_eq!(events.len(), count as usize);
        assert!(events.len() <= events.capacity());
        assert_eq!(events.as_slice(), &written[..count as usize]);
    }
}

#[test]
fn reported_token_is_the_registered_token() {
    let poll = Poll::new(3).unwrap();
    let sent = match poll.register(7, 0xfeed_f00d, EPOLLIN | EPOLLET) {
        Syscall::Control { event, .. } => event.to_bytes(),
        other => panic!("not a control call: {:?}", other),
    };
    // The kernel keeps the token bytes and writes its own readiness before them.
    let mut bytes = vec![0u8; 2 * EVENT_SIZE];
    bytes[EVENT_SIZE..EVENT_SIZE + 4].copy_from_slice(&[0x01, 0, 0, 0]);
    bytes[EVENT_SIZE + 4..].copy_from_slice(&sent[4..]);
    bytes[..EVENT_SIZE].copy_from_slice(&EpollEvent::new(EPOLLOUT, 5).to_bytes());
    let mut events = Events::with_capacity(2);
    poll.finish_poll(2, &bytes, &mut events).unwrap();
    assert_eq!(events.as_slice()[1].token(), 0xfeed_f00d);
    assert_eq!(events.as_slice()[1].flags(), EPOLLIN);
    assert_eq!(events.as_slice()[0].token(), 5);
}

#[test]
fn listener_scenario_reports_one_event_with_its_token() {
    let poll = Poll::new(3).unwrap();
    let listener_fd = 4;
    let call = poll.register(listener_fd, 1024, EPOLLOUT | EPOLLET | EPOLLIN);
    assert_eq!(
        call,
        Syscall::Control {
            epfd: 3,
            op: EPOLL_CTL_ADD,
            fd: 4,
            event: EpollEvent::new(EPOLLOUT | EPOLLET | EPOLLIN, 1024),
        }
    );
    let mut events = Events::with_capacity(8);
    assert_eq!(
        poll.poll(None, &events),
        Syscall::Wait { epfd: 3, max_events: 8, timeout: -1 }
    );
    // A peer connected and sent data: the kernel reports the listener once.
    let bytes = kernel_buffer(8, &[EpollEvent::new(EPOLLIN, 1024)]);
    poll.finish_poll(1, &bytes, &mut events).unwrap();
    assert_eq!(events.len(), 1);
    assert_eq!(events.as_slice()[0].token(), 1024);
    // The next wait is again one without limit, over the same capacity.
    assert_eq!(
        poll.poll(None, &events),
        Syscall::Wait { epfd: 3, max_events: 8, timeout: -1 }
    );
}
