//! Values of the Linux kernel interface used by the library.
//!
//! These are the values of the x86-64 Linux ABI, the same values the `libc`
//! crate gives for that target, and those of the io_uring interface.

use vstd::prelude::*;

verus! {

// Flags of `open(2)`.
pub const O_RDONLY: i32 = 0;
pub const O_WRONLY: i32 = 1;
pub const O_RDWR: i32 = 2;
pub const O_ACCMODE: i32 = 3;
pub const O_CREAT: i32 = 0o100;
pub const O_EXCL: i32 = 0o200;
pub const O_TRUNC: i32 = 0o1000;
pub const O_APPEND: i32 = 0o2000;
pub const O_DSYNC: i32 = 0o10000;
pub const O_DIRECT: i32 = 0o40000;
pub const O_DIRECTORY: i32 = 0o200000;
pub const O_CLOEXEC: i32 = 0o2000000;
pub const O_SYNC: i32 = 0o4010000;
pub const O_TMPFILE: i32 = 0o20200000;

// File type and permission bits of `mode_t`.
pub const S_IFMT: u32 = 0o170000;
pub const S_IFSOCK: u32 = 0o140000;
pub const S_IFLNK: u32 = 0o120000;
pub const S_IFREG: u32 = 0o100000;
pub const S_IFBLK: u32 = 0o60000;
pub const S_IFDIR: u32 = 0o40000;
pub const S_IFCHR: u32 = 0o20000;
pub const S_IFIFO: u32 = 0o10000;
pub const S_IRUSR: u32 = 0o400;
pub const S_IWUSR: u32 = 0o200;
pub const S_IXUSR: u32 = 0o100;
pub const S_IRGRP: u32 = 0o40;
pub const S_IWGRP: u32 = 0o20;
pub const S_IXGRP: u32 = 0o10;
pub const S_IROTH: u32 = 0o4;
pub const S_IWOTH: u32 = 0o2;
pub const S_IXOTH: u32 = 0o1;

// The `*at(2)` family.
pub const AT_FDCWD: i32 = -100;
pub const AT_REMOVEDIR: i32 = 0x200;
pub const AT_EMPTY_PATH: i32 = 0x1000;

// Fields of `statx(2)`.
pub const STATX_TYPE: u32 = 0x1;
pub const STATX_MODE: u32 = 0x2;
pub const STATX_ATIME: u32 = 0x20;
pub const STATX_MTIME: u32 = 0x40;
pub const STATX_SIZE: u32 = 0x200;
pub const STATX_BLOCKS: u32 = 0x400;
pub const STATX_BTIME: u32 = 0x800;

// Advice of `posix_fadvise(2)`.
pub const POSIX_FADV_NORMAL: u32 = 0;
pub const POSIX_FADV_RANDOM: u32 = 1;
pub const POSIX_FADV_SEQUENTIAL: u32 = 2;
pub const POSIX_FADV_WILLNEED: u32 = 3;
pub const POSIX_FADV_DONTNEED: u32 = 4;
pub const POSIX_FADV_NOREUSE: u32 = 5;

// Modes of `fallocate(2)`.
pub const FALLOC_FL_KEEP_SIZE: u32 = 0x1;
pub const FALLOC_FL_PUNCH_HOLE: u32 = 0x2;
pub const FALLOC_FL_COLLAPSE_RANGE: u32 = 0x8;
pub const FALLOC_FL_ZERO_RANGE: u32 = 0x10;
pub const FALLOC_FL_INSERT_RANGE: u32 = 0x20;
pub const FALLOC_FL_UNSHARE_RANGE: u32 = 0x40;

// Advice of `madvise(2)`.
pub const MADV_NORMAL: u32 = 0;
pub const MADV_RANDOM: u32 = 1;
pub const MADV_SEQUENTIAL: u32 = 2;
pub const MADV_WILLNEED: u32 = 3;
pub const MADV_DONTNEED: u32 = 4;
pub const MADV_FREE: u32 = 8;
pub const MADV_REMOVE: u32 = 9;
pub const MADV_DONTFORK: u32 = 10;
pub const MADV_DOFORK: u32 = 11;
pub const MADV_MERGEABLE: u32 = 12;
pub const MADV_UNMERGEABLE: u32 = 13;
pub const MADV_HUGEPAGE: u32 = 14;
pub const MADV_NOHUGEPAGE: u32 = 15;
pub const MADV_DONTDUMP: u32 = 16;
pub const MADV_DODUMP: u32 = 17;
pub const MADV_WIPEONFORK: u32 = 18;
pub const MADV_KEEPONFORK: u32 = 19;
pub const MADV_COLD: u32 = 20;
pub const MADV_PAGEOUT: u32 = 21;
pub const MADV_POPULATE_READ: u32 = 22;
pub const MADV_POPULATE_WRITE: u32 = 23;
pub const MADV_COLLAPSE: u32 = 25;
pub const MADV_HWPOISON: u32 = 100;
pub const MADV_SOFT_OFFLINE: u32 = 101;

// Flags of `splice(2)`.
pub const SPLICE_F_MOVE: u32 = 1;
pub const SPLICE_F_MORE: u32 = 4;

// Events and flags of `inotify(7)`.
pub const IN_ACCESS: u32 = 0x1;
pub const IN_MODIFY: u32 = 0x2;
pub const IN_ATTRIB: u32 = 0x4;
pub const IN_CLOSE_WRITE: u32 = 0x8;
pub const IN_CLOSE_NOWRITE: u32 = 0x10;
pub const IN_CLOSE: u32 = 0x18;
pub const IN_OPEN: u32 = 0x20;
pub const IN_MOVED_FROM: u32 = 0x40;
pub const IN_MOVED_TO: u32 = 0x80;
pub const IN_MOVE: u32 = 0xc0;
pub const IN_CREATE: u32 = 0x100;
pub const IN_DELETE: u32 = 0x200;
pub const IN_DELETE_SELF: u32 = 0x400;
pub const IN_MOVE_SELF: u32 = 0x800;
pub const IN_ALL_EVENTS: u32 = 0xfff;
pub const IN_UNMOUNT: u32 = 0x2000;
pub const IN_Q_OVERFLOW: u32 = 0x4000;
pub const IN_IGNORED: u32 = 0x8000;
pub const IN_ONLYDIR: u32 = 0x1000000;
pub const IN_DONT_FOLLOW: u32 = 0x2000000;
pub const IN_EXCL_UNLINK: u32 = 0x4000000;
pub const IN_MASK_ADD: u32 = 0x20000000;
pub const IN_ISDIR: u32 = 0x40000000;

// io_uring operation codes.
pub const IORING_OP_NOP: u8 = 0;
pub const IORING_OP_READV: u8 = 1;
pub const IORING_OP_WRITEV: u8 = 2;
pub const IORING_OP_FSYNC: u8 = 3;
pub const IORING_OP_POLL_ADD: u8 = 6;
pub const IORING_OP_POLL_REMOVE: u8 = 7;
pub const IORING_OP_SENDMSG: u8 = 9;
pub const IORING_OP_RECVMSG: u8 = 10;
pub const IORING_OP_ACCEPT: u8 = 13;
pub const IORING_OP_ASYNC_CANCEL: u8 = 14;
pub const IORING_OP_CONNECT: u8 = 16;
pub const IORING_OP_FALLOCATE: u8 = 17;
pub const IORING_OP_OPENAT: u8 = 18;
pub const IORING_OP_CLOSE: u8 = 19;
pub const IORING_OP_FILES_UPDATE: u8 = 20;
pub const IORING_OP_STATX: u8 = 21;
pub const IORING_OP_READ: u8 = 22;
pub const IORING_OP_WRITE: u8 = 23;
pub const IORING_OP_FADVISE: u8 = 24;
pub const IORING_OP_MADVISE: u8 = 25;
pub const IORING_OP_SEND: u8 = 26;
pub const IORING_OP_RECV: u8 = 27;
pub const IORING_OP_SPLICE: u8 = 30;
pub const IORING_OP_SHUTDOWN: u8 = 34;
pub const IORING_OP_RENAMEAT: u8 = 35;
pub const IORING_OP_UNLINKAT: u8 = 36;
pub const IORING_OP_MKDIRAT: u8 = 37;
pub const IORING_OP_MSG_RING: u8 = 40;
pub const IORING_OP_SOCKET: u8 = 45;
pub const IORING_OP_URING_CMD: u8 = 46;
pub const IORING_OP_SEND_ZC: u8 = 47;
pub const IORING_OP_SENDMSG_ZC: u8 = 48;
pub const IORING_OP_READ_MULTISHOT: u8 = 49;
pub const IORING_OP_WAITID: u8 = 50;
pub const IORING_OP_FIXED_FD_INSTALL: u8 = 54;
pub const IORING_OP_FTRUNCATE: u8 = 55;
pub const IORING_OP_BIND: u8 = 56;
pub const IORING_OP_LISTEN: u8 = 57;

// io_uring submission flags.
pub const IOSQE_FIXED_FILE: u8 = 1;
pub const IOSQE_IO_DRAIN: u8 = 2;
pub const IOSQE_IO_LINK: u8 = 4;
pub const IOSQE_IO_HARDLINK: u8 = 8;
pub const IOSQE_ASYNC: u8 = 16;
pub const IOSQE_BUFFER_SELECT: u8 = 32;
pub const IOSQE_CQE_SKIP_SUCCESS: u8 = 64;

// io_uring operation specific flags.
pub const IORING_FILE_INDEX_ALLOC: u32 = 0xffff_ffff;
pub const IORING_FSYNC_DATASYNC: u32 = 1;
pub const IORING_ASYNC_CANCEL_ALL: u32 = 1;
pub const IORING_ASYNC_CANCEL_FD: u32 = 2;
pub const IORING_ASYNC_CANCEL_ANY: u32 = 4;
pub const IORING_ASYNC_CANCEL_FD_FIXED: u32 = 8;
pub const IORING_RECV_MULTISHOT: u32 = 2;
pub const IORING_ACCEPT_MULTISHOT: u32 = 1;
pub const IORING_POLL_ADD_MULTI: u32 = 1;
pub const IORING_MSG_DATA: u32 = 0;

// `epoll(7)` events.
pub const EPOLLIN: i32 = 0x1;
pub const EPOLLERR: i32 = 0x8;
pub const EPOLLHUP: i32 = 0x10;
pub const EPOLLEXCLUSIVE: i32 = 0x1000_0000;
pub const EPOLLET: i32 = -0x8000_0000;

// `waitid(2)` id types.
pub const P_ALL: u32 = 0;
pub const P_PID: u32 = 1;
pub const P_PGID: u32 = 2;

/// Size of `struct signalfd_siginfo`.
pub const SIGNALFD_SIGINFO_SIZE: u32 = 128;

// Commands of socket `IORING_OP_URING_CMD` operations.
pub const SOCKET_URING_OP_GETSOCKOPT: u32 = 2;
pub const SOCKET_URING_OP_SETSOCKOPT: u32 = 3;
pub const SOCKET_URING_OP_GETSOCKNAME: u32 = 5;

// `shutdown(2)` directions.
pub const SHUT_RD: i32 = 0;
pub const SHUT_WR: i32 = 1;
pub const SHUT_RDWR: i32 = 2;

// io_uring setup and enter flags.
pub const IORING_SETUP_SQPOLL: u32 = 2;
pub const IORING_SETUP_SINGLE_ISSUER: u32 = 0x1000;
pub const IORING_SQ_NEED_WAKEUP: u32 = 1;
pub const IORING_ENTER_GETEVENTS: u32 = 1;
pub const IORING_ENTER_SQ_WAKEUP: u32 = 2;
pub const IORING_ENTER_EXT_ARG: u32 = 8;

// Error numbers.
pub const EINTR: i32 = 4;
pub const ENOTDIR: i32 = 20;
pub const EINVAL: i32 = 22;
pub const ETIME: i32 = 62;
pub const ECANCELED: i32 = 125;

// io_uring completion flags.
pub const IORING_CQE_F_BUFFER: u32 = 1;
pub const IORING_CQE_F_MORE: u32 = 2;
pub const IORING_CQE_F_SOCK_NONEMPTY: u32 = 4;
pub const IORING_CQE_F_NOTIF: u32 = 8;
pub const IORING_CQE_F_BUF_MORE: u32 = 16;
pub const IORING_CQE_BUFFER_SHIFT: u32 = 16;

} // verus!
