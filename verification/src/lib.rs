//! The deciding half of an edge-triggered readiness notifier over Linux epoll.
//!
//! Nothing in this crate talks to the kernel. Each operation comes in two
//! steps: the library names the system call to make, as a [`syscalls::Syscall`]
//! value, and later takes that call's return value and says what follows from
//! it. The caller makes the call in between.
//!
//! [`syscalls`] holds the constants, the event record with its byte layout,
//! and the calls as values. [`poll`] holds the mapping of return codes to
//! outcomes, the registry that owns the multiplexer handle, the buffer of
//! ready events, and the operations to register a source and to wait.

pub mod poll;
pub mod syscalls;
