//! Socket operations: their arguments and how they fill a [`Submission`].
//!
//! Buffers, addresses and message headers are passed by their addresses, as
//! the kernel reads them.

use vstd::prelude::*;

use crate::fd::{Descriptor, Kind};
use crate::io::traits::BufGroupId;
use crate::io::read_buf::ReadBufPool;
use crate::sq::Submission;
use crate::sys::{
    IORING_ACCEPT_MULTISHOT, IORING_OP_ACCEPT, IORING_OP_BIND, IORING_OP_CONNECT,
    IORING_OP_LISTEN, IORING_OP_RECV, IORING_OP_RECVMSG, IORING_OP_SEND, IORING_OP_SENDMSG,
    IORING_OP_SENDMSG_ZC, IORING_OP_SEND_ZC, IORING_OP_SHUTDOWN, IORING_OP_SOCKET,
    IORING_OP_URING_CMD, IORING_RECV_MULTISHOT, IOSQE_ASYNC, IOSQE_BUFFER_SELECT, SHUT_RD,
    SHUT_RDWR, SHUT_WR, SOCKET_URING_OP_GETSOCKNAME, SOCKET_URING_OP_GETSOCKOPT,
    SOCKET_URING_OP_SETSOCKOPT,
};

verus! {

/// Communication domain of a socket (`AF_*`).
#[derive(Copy, Clone, Debug, PartialEq, Eq)]
pub struct Domain(pub i32);

/// Type of a socket (`SOCK_*`).
#[derive(Copy, Clone, Debug, PartialEq, Eq)]
pub struct Type(pub u32);

/// Protocol of a socket (`IPPROTO_*`).
#[derive(Copy, Clone, Debug, PartialEq, Eq)]
pub struct Protocol(pub u32);

/// Flags of a receive call (`MSG_*`).
#[derive(Copy, Clone, Debug, PartialEq, Eq)]
pub struct RecvFlag(pub u32);

/// Flags of a send call (`MSG_*`).
#[derive(Copy, Clone, Debug, PartialEq, Eq)]
pub struct SendFlag(pub u32);

/// Flags of an accept call (`SOCK_*`).
#[derive(Copy, Clone, Debug, PartialEq, Eq)]
pub struct AcceptFlag(pub u32);

/// Level of a socket option (`SOL_*`, `IPPROTO_*`).
#[derive(Copy, Clone, Debug, PartialEq, Eq)]
pub struct Level(pub u32);

/// Name of a socket option (`SO_*`, ...).
#[derive(Copy, Clone, Debug, PartialEq, Eq)]
pub struct Opt(pub u32);

/// Which address of a socket to get.
#[derive(Copy, Clone, Debug, PartialEq, Eq)]
pub enum Name {
    /// The local address, `getsockname(2)`.
    Local,
    /// The address of the peer, `getpeername(2)`.
    Peer,
}

/// How to send.
#[derive(Copy, Clone, Debug, PartialEq, Eq)]
pub enum SendCall {
    /// Copy the data into the kernel.
    Normal,
    /// Send the data without copying it, the kernel notifies when the buffer
    /// can be reused.
    ZeroCopy,
}

/// Which halves of a connection to shut down.
#[derive(Copy, Clone, Debug, PartialEq, Eq)]
pub enum Shutdown {
    /// The reading half.
    Read,
    /// The writing half.
    Write,
    /// Both halves.
    Both,
}

/// The operation code of a send: zero copy or not.
pub open spec fn send_opcode(call: SendCall, normal: u8, zero_copy: u8) -> u8 {
    match call {
        SendCall::Normal => normal,
        SendCall::ZeroCopy => zero_copy,
    }
}

/// The `level` and `optname` of a socket option command share the storage of
/// the address: the level in the low half, the name in the high half.
pub open spec fn option_addr(level: Level, optname: Opt) -> u64 {
    (level.0 + optname.0 * 0x1_0000_0000) as u64
}

/// `fd` with the direct descriptor flag of its kind.
pub open spec fn with_fd(submission: Submission, fd: Descriptor) -> Submission {
    Submission { fd: fd.spec_raw() & 0x7fff_ffff, ..submission }
}

/// Creates a socket, `socket(2)`.
#[derive(Copy, Clone, Debug, PartialEq, Eq)]
pub struct SocketOp {
    pub domain: Domain,
    pub socket_type: Type,
    pub protocol: Protocol,
    /// Kind of descriptor to create.
    pub kind: Kind,
}

impl SocketOp {
    /// Fill `submission` to create the socket.
    pub fn fill_submission(&self, submission: &mut Submission)
        ensures
            *final(submission) == (match self.kind {
                Kind::File => Submission {
                    opcode: IORING_OP_SOCKET,
                    fd: self.domain.0,
                    off: self.socket_type.0 as u64,
                    len: self.protocol.0,
                    op_flags: 0,
                    ..*old(submission)
                },
                Kind::Direct => Submission {
                    opcode: IORING_OP_SOCKET,
                    fd: self.domain.0,
                    off: self.socket_type.0 as u64,
                    len: self.protocol.0,
                    op_flags: 0,
                    file_index: crate::sys::IORING_FILE_INDEX_ALLOC,
                    ..*old(submission)
                },
            }),
    {
        submission.opcode = IORING_OP_SOCKET;
        submission.fd = self.domain.0;
        submission.off = self.socket_type.0 as u64;
        submission.len = self.protocol.0;
        // Must currently always be set to zero per the manual.
        submission.op_flags = 0;
        self.kind.create_flags(submission);
    }

    /// The socket created, from the result of the operation.
    pub fn map_ok(&self, res: u32) -> (fd: Descriptor)
        ensures
            fd.spec_raw() == crate::fd::encoded(res as i32, self.kind),
    {
        Descriptor::from_raw(#[verifier::truncate] (res as i32), self.kind)
    }
}

/// Binds a socket to an address, `bind(2)`.
#[derive(Copy, Clone, Debug, PartialEq, Eq)]
pub struct BindOp;

impl BindOp {
    /// Fill `submission` to bind `fd` to the address of `address_len` bytes
    /// stored at `address_addr`.
    pub fn fill_submission(
        &self,
        fd: &Descriptor,
        address_addr: u64,
        address_len: u32,
        submission: &mut Submission,
    )
        ensures
            *final(submission) == with_fd(
                Submission {
                    opcode: IORING_OP_BIND,
                    off: address_len as u64,
                    addr: address_addr,
                    ..*old(submission)
                },
                *fd,
            ),
    {
        submission.opcode = IORING_OP_BIND;
        submission.fd = fd.fd();
        submission.off = address_len as u64;
        submission.addr = address_addr;
    }
}

/// Marks a socket as accepting connections, `listen(2)`.
#[derive(Copy, Clone, Debug, PartialEq, Eq)]
pub struct ListenOp {
    /// Maximum length of the queue of pending connections.
    pub backlog: i32,
}

impl ListenOp {
    /// Fill `submission` to listen on `fd`.
    pub fn fill_submission(&self, fd: &Descriptor, submission: &mut Submission)
        ensures
            *final(submission) == with_fd(
                Submission { opcode: IORING_OP_LISTEN, len: self.backlog as u32, ..*old(submission) },
                *fd,
            ),
    {
        submission.opcode = IORING_OP_LISTEN;
        submission.fd = fd.fd();
        submission.len = #[verifier::truncate] (self.backlog as u32);
    }
}

/// Connects a socket to an address, `connect(2)`.
#[derive(Copy, Clone, Debug, PartialEq, Eq)]
pub struct ConnectOp;

impl ConnectOp {
    /// Fill `submission` to connect `fd` to the address of `address_len`
    /// bytes stored at `address_addr`.
    pub fn fill_submission(
        &self,
        fd: &Descriptor,
        address_addr: u64,
        address_len: u32,
        submission: &mut Submission,
    )
        ensures
            *final(submission) == with_fd(
                Submission {
                    opcode: IORING_OP_CONNECT,
                    off: address_len as u64,
                    addr: address_addr,
                    ..*old(submission)
                },
                *fd,
            ),
    {
        submission.opcode = IORING_OP_CONNECT;
        submission.fd = fd.fd();
        submission.off = address_len as u64;
        submission.addr = address_addr;
    }
}

/// Gets the local or peer address of a socket.
#[derive(Copy, Clone, Debug, PartialEq, Eq)]
pub struct SocketNameOp {
    pub name: Name,
}

impl SocketNameOp {
    /// Fill `submission` to get the address of `fd` into the storage of
    /// `address_capacity` bytes at `address_addr`.
    ///
    /// The kernel reads the capacity from `address_length`, stored at
    /// `address_length_addr`, and writes the length of the address there.
    pub fn fill_submission(
        &self,
        fd: &Descriptor,
        address_addr: u64,
        address_capacity: u32,
        address_length: &mut u32,
        address_length_addr: u64,
        submission: &mut Submission,
    )
        ensures
            *final(address_length) == address_capacity,
            *final(submission) == with_fd(
                Submission {
                    opcode: IORING_OP_URING_CMD,
                    off: SOCKET_URING_OP_GETSOCKNAME as u64,
                    addr: address_addr,
                    file_index: match self.name {
                        Name::Local => 1u32,
                        Name::Peer => 0u32,
                    },
                    addr3: address_length_addr,
                    ..*old(submission)
                },
                *fd,
            ),
    {
        *address_length = address_capacity;
        submission.opcode = IORING_OP_URING_CMD;
        submission.fd = fd.fd();
        submission.off = SOCKET_URING_OP_GETSOCKNAME as u64;
        submission.addr = address_addr;
        submission.file_index = match self.name {
            Name::Local => 1,
            Name::Peer => 0,
        };
        submission.addr3 = address_length_addr;
    }
}

/// Receives from a socket, `recv(2)`.
#[derive(Copy, Clone, Debug, PartialEq, Eq)]
pub struct RecvOp {
    pub flags: RecvFlag,
}

impl RecvOp {
    /// Fill `submission` to receive from `fd` into the buffer at `buf_addr`
    /// with room for `buf_len` bytes, or into a buffer the kernel selects
    /// from `buf_group`.
    pub fn fill_submission(
        &self,
        fd: &Descriptor,
        buf_addr: u64,
        buf_len: u32,
        buf_group: Option<BufGroupId>,
        submission: &mut Submission,
    )
        ensures
            *final(submission) == with_fd(
                match buf_group {
                    None => Submission {
                        opcode: IORING_OP_RECV,
                        addr: buf_addr,
                        op_flags: self.flags.0,
                        len: buf_len,
                        ..*old(submission)
                    },
                    Some(group) => Submission {
                        opcode: IORING_OP_RECV,
                        addr: buf_addr,
                        op_flags: self.flags.0,
                        len: buf_len,
                        buf_group: group.0,
                        flags: old(submission).flags | IOSQE_BUFFER_SELECT,
                        ..*old(submission)
                    },
                },
                *fd,
            ),
    {
        submission.opcode = IORING_OP_RECV;
        submission.fd = fd.fd();
        submission.addr = buf_addr;
        submission.op_flags = self.flags.0;
        submission.len = buf_len;
        if let Some(group) = buf_group {
            submission.buf_group = group.0;
            submission.flags = submission.flags | IOSQE_BUFFER_SELECT;
        }
    }
}

/// Receives from a socket into buffers of a pool, one completion event per
/// buffer filled.
#[derive(Copy, Clone, Debug, PartialEq, Eq)]
pub struct MultishotRecvOp {
    pub flags: RecvFlag,
}

impl MultishotRecvOp {
    /// Fill `submission` to receive from `fd` into buffers of `pool`.
    pub fn fill_submission(&self, fd: &Descriptor, pool: &ReadBufPool, submission: &mut Submission)
        ensures
            *final(submission) == with_fd(
                Submission {
                    opcode: IORING_OP_RECV,
                    flags: IOSQE_BUFFER_SELECT,
                    ioprio: IORING_RECV_MULTISHOT as u16,
                    op_flags: self.flags.0,
                    buf_group: pool.spec_group_id(),
                    ..*old(submission)
                },
                *fd,
            ),
    {
        submission.opcode = IORING_OP_RECV;
        submission.flags = IOSQE_BUFFER_SELECT;
        submission.ioprio = IORING_RECV_MULTISHOT as u16;
        submission.fd = fd.fd();
        submission.op_flags = self.flags.0;
        submission.buf_group = pool.group_id().0;
    }
}

/// Fill `submission` to receive a message on `fd`, `recvmsg(2)`, described
/// by the message header at `msg_addr`.
pub fn fill_recvmsg_submission(fd: i32, msg_addr: u64, flags: RecvFlag, submission: &mut Submission)
    ensures
        *final(submission) == (Submission {
            opcode: IORING_OP_RECVMSG,
            fd,
            addr: msg_addr,
            op_flags: flags.0,
            len: 1,
            ..*old(submission)
        }),
{
    submission.opcode = IORING_OP_RECVMSG;
    submission.fd = fd;
    submission.addr = msg_addr;
    submission.op_flags = flags.0;
    submission.len = 1;
}

/// Receives a message into many buffers, without the sender's address.
#[derive(Copy, Clone, Debug, PartialEq, Eq)]
pub struct RecvVectoredOp {
    pub flags: RecvFlag,
}

impl RecvVectoredOp {
    /// Fill `submission` to receive on `fd` as the message header at
    /// `msg_addr` describes.
    pub fn fill_submission(&self, fd: &Descriptor, msg_addr: u64, submission: &mut Submission)
        ensures
            *final(submission) == with_fd(
                Submission {
                    opcode: IORING_OP_RECVMSG,
                    addr: msg_addr,
                    op_flags: self.flags.0,
                    len: 1,
                    ..*old(submission)
                },
                *fd,
            ),
    {
        fill_recvmsg_submission(fd.fd(), msg_addr, self.flags, submission);
    }
}

/// Receives a message and the sender's address.
#[derive(Copy, Clone, Debug, PartialEq, Eq)]
pub struct RecvFromOp {
    pub flags: RecvFlag,
}

impl RecvFromOp {
    /// Fill `submission` to receive on `fd` as the message header at
    /// `msg_addr` describes, into a buffer the kernel selects from
    /// `buf_group` if there is one.
    pub fn fill_submission(
        &self,
        fd: &Descriptor,
        msg_addr: u64,
        buf_group: Option<BufGroupId>,
        submission: &mut Submission,
    )
        ensures
            *final(submission) == with_fd(
                match buf_group {
                    None => Submission {
                        opcode: IORING_OP_RECVMSG,
                        addr: msg_addr,
                        op_flags: self.flags.0,
                        len: 1,
                        ..*old(submission)
                    },
                    Some(group) => Submission {
                        opcode: IORING_OP_RECVMSG,
                        addr: msg_addr,
                        op_flags: self.flags.0,
                        len: 1,
                        buf_group: group.0,
                        flags: old(submission).flags | IOSQE_BUFFER_SELECT,
                        ..*old(submission)
                    },
                },
                *fd,
            ),
    {
        fill_recvmsg_submission(fd.fd(), msg_addr, self.flags, submission);
        if let Some(group) = buf_group {
            submission.buf_group = group.0;
            submission.flags = submission.flags | IOSQE_BUFFER_SELECT;
        }
    }
}

/// Sends from a buffer, `send(2)`.
#[derive(Copy, Clone, Debug, PartialEq, Eq)]
pub struct SendOp {
    pub call: SendCall,
    pub flags: SendFlag,
}

impl SendOp {
    /// Fill `submission` to send the `buf_len` bytes at `buf_addr` on `fd`.
    pub fn fill_submission(
        &self,
        fd: &Descriptor,
        buf_addr: u64,
        buf_len: u32,
        submission: &mut Submission,
    )
        ensures
            *final(submission) == with_fd(
                Submission {
                    opcode: send_opcode(self.call, IORING_OP_SEND, IORING_OP_SEND_ZC),
                    addr: buf_addr,
                    op_flags: self.flags.0,
                    len: buf_len,
                    ..*old(submission)
                },
                *fd,
            ),
    {
        submission.opcode = match self.call {
            SendCall::Normal => IORING_OP_SEND,
            SendCall::ZeroCopy => IORING_OP_SEND_ZC,
        };
        submission.fd = fd.fd();
        submission.addr = buf_addr;
        submission.op_flags = self.flags.0;
        submission.len = buf_len;
    }

    /// The number of bytes sent, from the result of the operation.
    pub fn map_ok(res: u32) -> (n: usize)
        ensures
            n == res,
    {
        res as usize
    }
}

/// Sends from a buffer to an address, `sendto(2)`.
#[derive(Copy, Clone, Debug, PartialEq, Eq)]
pub struct SendToOp {
    pub call: SendCall,
    pub flags: SendFlag,
}

impl SendToOp {
    /// Fill `submission` to send the `buf_len` bytes at `buf_addr` on `fd` to
    /// the address of `address_len` bytes at `address_addr`.
    pub fn fill_submission(
        &self,
        fd: &Descriptor,
        buf_addr: u64,
        buf_len: u32,
        address_addr: u64,
        address_len: u32,
        submission: &mut Submission,
    )
        ensures
            *final(submission) == with_fd(
                Submission {
                    opcode: send_opcode(self.call, IORING_OP_SEND, IORING_OP_SEND_ZC),
                    off: address_addr,
                    addr: buf_addr,
                    op_flags: self.flags.0,
                    file_index: (old(submission).file_index & 0xffff_0000u32) | (address_len as u16
                        as u32),
                    len: buf_len,
                    ..*old(submission)
                },
                *fd,
            ),
    {
        submission.opcode = match self.call {
            SendCall::Normal => IORING_OP_SEND,
            SendCall::ZeroCopy => IORING_OP_SEND_ZC,
        };
        submission.fd = fd.fd();
        submission.off = address_addr;
        submission.addr = buf_addr;
        submission.op_flags = self.flags.0;
        // The address length only takes the low 16 bits.
        let address_len16: u16 = #[verifier::truncate] (address_len as u16);
        submission.file_index = (submission.file_index & 0xffff_0000u32) | (address_len16 as u32);
        submission.len = buf_len;
    }
}

/// Sends a message, `sendmsg(2)`.
#[derive(Copy, Clone, Debug, PartialEq, Eq)]
pub struct SendMsgOp {
    pub call: SendCall,
    pub flags: SendFlag,
}

impl SendMsgOp {
    /// Fill `submission` to send on `fd` what the message header at
    /// `msg_addr` describes.
    pub fn fill_submission(&self, fd: &Descriptor, msg_addr: u64, submission: &mut Submission)
        ensures
            *final(submission) == with_fd(
                Submission {
                    opcode: send_opcode(self.call, IORING_OP_SENDMSG, IORING_OP_SENDMSG_ZC),
                    addr: msg_addr,
                    op_flags: self.flags.0,
                    len: 1,
                    ..*old(submission)
                },
                *fd,
            ),
    {
        submission.opcode = match self.call {
            SendCall::Normal => IORING_OP_SENDMSG,
            SendCall::ZeroCopy => IORING_OP_SENDMSG_ZC,
        };
        submission.fd = fd.fd();
        submission.addr = msg_addr;
        submission.op_flags = self.flags.0;
        submission.len = 1;
    }
}

/// The flags of an accept call: the requested ones and, for a regular file
/// descriptor, close-on-exec.
pub open spec fn accept_flags(flags: AcceptFlag, kind: Kind) -> u32 {
    flags.0 | (kind.spec_cloexec_flag() as u32)
}

/// The descriptor kind that accepting on `fd` creates: the same as `fd`.
pub open spec fn kind_of(fd: Descriptor) -> Kind {
    if fd.spec_raw() < 0 {
        Kind::Direct
    } else {
        Kind::File
    }
}

/// Accepts a connection, `accept4(2)`.
#[derive(Copy, Clone, Debug, PartialEq, Eq)]
pub struct AcceptOp {
    pub flags: AcceptFlag,
}

impl AcceptOp {
    /// Fill `submission` to accept a connection on `fd`, storing the peer's
    /// address in the storage of `address_capacity` bytes at `address_addr`.
    ///
    /// The kernel reads the capacity from `address_length`, stored at
    /// `address_length_addr`, and writes the length of the address there.
    pub fn fill_submission(
        &self,
        fd: &Descriptor,
        address_addr: u64,
        address_capacity: u32,
        address_length: &mut u32,
        address_length_addr: u64,
        submission: &mut Submission,
    )
        ensures
            *final(address_length) == address_capacity,
            *final(submission) == (match kind_of(*fd) {
                Kind::File => with_fd(
                    Submission {
                        opcode: IORING_OP_ACCEPT,
                        off: address_length_addr,
                        addr: address_addr,
                        op_flags: accept_flags(self.flags, Kind::File),
                        flags: old(submission).flags | IOSQE_ASYNC,
                        ..*old(submission)
                    },
                    *fd,
                ),
                Kind::Direct => with_fd(
                    Submission {
                        opcode: IORING_OP_ACCEPT,
                        off: address_length_addr,
                        addr: address_addr,
                        op_flags: accept_flags(self.flags, Kind::Direct),
                        flags: old(submission).flags | IOSQE_ASYNC,
                        file_index: crate::sys::IORING_FILE_INDEX_ALLOC,
                        ..*old(submission)
                    },
                    *fd,
                ),
            }),
    {
        let kind = fd.kind();
        *address_length = address_capacity;
        submission.opcode = IORING_OP_ACCEPT;
        submission.fd = fd.fd();
        submission.off = address_length_addr;
        submission.addr = address_addr;
        submission.op_flags = self.flags.0 | (kind.cloexec_flag() as u32);
        submission.flags = submission.flags | IOSQE_ASYNC;
        kind.create_flags(submission);
    }

    /// The accepted socket, from the result of the operation on `fd`: of the
    /// same kind as `fd`.
    pub fn map_ok(fd: &Descriptor, res: u32) -> (socket: Descriptor)
        ensures
            socket.spec_raw() == crate::fd::encoded(res as i32, kind_of(*fd)),
    {
        Descriptor::from_raw(#[verifier::truncate] (res as i32), fd.kind())
    }
}

/// Accepts connections, one completion event per connection.
#[derive(Copy, Clone, Debug, PartialEq, Eq)]
pub struct MultishotAcceptOp {
    pub flags: AcceptFlag,
}

impl MultishotAcceptOp {
    /// Fill `submission` to accept connections on `fd`.
    pub fn fill_submission(&self, fd: &Descriptor, submission: &mut Submission)
        ensures
            *final(submission) == (match kind_of(*fd) {
                Kind::File => with_fd(
                    Submission {
                        opcode: IORING_OP_ACCEPT,
                        ioprio: IORING_ACCEPT_MULTISHOT as u16,
                        op_flags: accept_flags(self.flags, Kind::File),
                        flags: IOSQE_ASYNC,
                        ..*old(submission)
                    },
                    *fd,
                ),
                Kind::Direct => with_fd(
                    Submission {
                        opcode: IORING_OP_ACCEPT,
                        ioprio: IORING_ACCEPT_MULTISHOT as u16,
                        op_flags: accept_flags(self.flags, Kind::Direct),
                        flags: IOSQE_ASYNC,
                        file_index: crate::sys::IORING_FILE_INDEX_ALLOC,
                        ..*old(submission)
                    },
                    *fd,
                ),
            }),
    {
        let kind = fd.kind();
        submission.opcode = IORING_OP_ACCEPT;
        submission.ioprio = IORING_ACCEPT_MULTISHOT as u16;
        submission.fd = fd.fd();
        submission.op_flags = self.flags.0 | (kind.cloexec_flag() as u32);
        submission.flags = IOSQE_ASYNC;
        kind.create_flags(submission);
    }
}

/// Gets the value of a socket option, `getsockopt(2)`.
#[derive(Copy, Clone, Debug, PartialEq, Eq)]
pub struct SocketOptionOp {
    pub level: Level,
    pub optname: Opt,
}

/// Sets the value of a socket option, `setsockopt(2)`.
#[derive(Copy, Clone, Debug, PartialEq, Eq)]
pub struct SetSocketOptionOp {
    pub level: Level,
    pub optname: Opt,
}

/// Fill `submission` for the socket option command `cmd` on `fd`, with the
/// option's value of `value_len` bytes at `value_addr`.
fn fill_option_submission(
    cmd: u32,
    fd: &Descriptor,
    level: Level,
    optname: Opt,
    value_addr: u64,
    value_len: u32,
    submission: &mut Submission,
)
    ensures
        *final(submission) == with_fd(
            Submission {
                opcode: IORING_OP_URING_CMD,
                off: cmd as u64,
                addr: option_addr(level, optname),
                file_index: value_len,
                addr3: value_addr,
                ..*old(submission)
            },
            *fd,
        ),
{
    submission.opcode = IORING_OP_URING_CMD;
    submission.fd = fd.fd();
    submission.off = cmd as u64;
    submission.addr = level.0 as u64 + optname.0 as u64 * 0x1_0000_0000u64;
    submission.file_index = value_len;
    submission.addr3 = value_addr;
}

impl SocketOptionOp {
    /// Fill `submission` to get the option of `fd` into the `value_len` bytes
    /// at `value_addr`.
    pub fn fill_submission(
        &self,
        fd: &Descriptor,
        value_addr: u64,
        value_len: u32,
        submission: &mut Submission,
    )
        ensures
            *final(submission) == with_fd(
                Submission {
                    opcode: IORING_OP_URING_CMD,
                    off: SOCKET_URING_OP_GETSOCKOPT as u64,
                    addr: option_addr(self.level, self.optname),
                    file_index: value_len,
                    addr3: value_addr,
                    ..*old(submission)
                },
                *fd,
            ),
    {
        fill_option_submission(
            SOCKET_URING_OP_GETSOCKOPT,
            fd,
            self.level,
            self.optname,
            value_addr,
            value_len,
            submission,
        );
    }
}

impl SetSocketOptionOp {
    /// Fill `submission` to set the option of `fd` to the `value_len` bytes
    /// at `value_addr`.
    pub fn fill_submission(
        &self,
        fd: &Descriptor,
        value_addr: u64,
        value_len: u32,
        submission: &mut Submission,
    )
        ensures
            *final(submission) == with_fd(
                Submission {
                    opcode: IORING_OP_URING_CMD,
                    off: SOCKET_URING_OP_SETSOCKOPT as u64,
                    addr: option_addr(self.level, self.optname),
                    file_index: value_len,
                    addr3: value_addr,
                    ..*old(submission)
                },
                *fd,
            ),
    {
        fill_option_submission(
            SOCKET_URING_OP_SETSOCKOPT,
            fd,
            self.level,
            self.optname,
            value_addr,
            value_len,
            submission,
        );
    }
}

/// The `shutdown(2)` argument for `how`.
pub open spec fn shutdown_how(how: Shutdown) -> i32 {
    match how {
        Shutdown::Read => SHUT_RD,
        Shutdown::Write => SHUT_WR,
        Shutdown::Both => SHUT_RDWR,
    }
}

/// Shuts down (part of) a connection, `shutdown(2)`.
#[derive(Copy, Clone, Debug, PartialEq, Eq)]
pub struct ShutdownOp {
    pub how: Shutdown,
}

impl ShutdownOp {
    /// Fill `submission` to shut down `fd`.
    pub fn fill_submission(&self, fd: &Descriptor, submission: &mut Submission)
        ensures
            *final(submission) == with_fd(
                Submission {
                    opcode: IORING_OP_SHUTDOWN,
                    len: shutdown_how(self.how) as u32,
                    ..*old(submission)
                },
                *fd,
            ),
    {
        submission.opcode = IORING_OP_SHUTDOWN;
        submission.fd = fd.fd();
        let how = match self.how {
            Shutdown::Read => SHUT_RD,
            Shutdown::Write => SHUT_WR,
            Shutdown::Both => SHUT_RDWR,
        };
        submission.len = how as u32;
    }
}

} // verus!
