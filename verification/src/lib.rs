//! A10: a low-level I/O library for io_uring and kqueue.
//!
//! This crate holds the decision logic of the library: the bitmap that hands
//! out operation ids, the descriptor encoding, the arguments of the
//! operations and the submissions they fill, the read buffer bookkeeping, the
//! state machines that drive multi-step reads and writes, the processing of
//! completion events, inotify event parsing, and the kqueue backend's
//! batching, dispatching and file notification rewriting. Everything that
//! talks to the kernel lives outside of it and hands plain values in and out.

pub mod bitmap;
pub mod sys;
pub mod fd;
pub mod kqueue;
pub mod sq;
pub mod fs;
pub mod io;
pub mod cq;
pub mod extract;

pub mod notify;
pub mod config;
pub mod ring;
pub mod cancel;
pub mod mem;
pub mod msg;
pub mod net;
pub mod poll;
pub mod process;
pub mod uring;
