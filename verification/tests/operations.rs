use a10::cancel::{CancelAll, CancelOperation, CancelOperationState};
use a10::fd::{Descriptor, Kind};
use a10::io::read_buf::ReadBufPool;
use a10::io::traits::BufGroupId;
use a10::io::NO_OFFSET;
use a10::mem::{advise, AdviseFlag};
use a10::net::{
    fill_recvmsg_submission, AcceptFlag, AcceptOp, BindOp, ConnectOp, Domain, Level, ListenOp,
    MultishotAcceptOp, MultishotRecvOp, Name, Opt, Protocol, RecvFlag, RecvFromOp, RecvOp,
    RecvVectoredOp, SendCall, SendFlag, SendMsgOp, SendOp, SendToOp, SetSocketOptionOp, Shutdown,
    ShutdownOp, SocketNameOp, SocketOp, SocketOptionOp, Type,
};
use a10::poll::PollableOp;
use a10::process::{ReceiveSignalOp, WaitIdOp, WaitOn, WaitOption};
use a10::sq::Submission;
use a10::sys::{
    EPOLLERR, EPOLLET, EPOLLEXCLUSIVE, EPOLLHUP, EPOLLIN, IORING_ACCEPT_MULTISHOT,
    IORING_ASYNC_CANCEL_ALL, IORING_ASYNC_CANCEL_FD, IORING_ASYNC_CANCEL_FD_FIXED,
    IORING_FILE_INDEX_ALLOC, IORING_OP_ACCEPT, IORING_OP_ASYNC_CANCEL, IORING_OP_BIND,
    IORING_OP_CONNECT, IORING_OP_LISTEN, IORING_OP_MADVISE, IORING_OP_POLL_ADD, IORING_OP_READ,
    IORING_OP_RECV, IORING_OP_RECVMSG, IORING_OP_SEND, IORING_OP_SENDMSG, IORING_OP_SENDMSG_ZC,
    IORING_OP_SEND_ZC, IORING_OP_SHUTDOWN, IORING_OP_SOCKET, IORING_OP_URING_CMD,
    IORING_OP_WAITID, IORING_POLL_ADD_MULTI, IORING_RECV_MULTISHOT, IOSQE_ASYNC,
    IOSQE_BUFFER_SELECT, MADV_DONTNEED, MADV_WILLNEED, O_CLOEXEC, P_ALL, P_PGID, P_PID,
    SHUT_RD, SHUT_RDWR, SHUT_WR, SIGNALFD_SIGINFO_SIZE, SOCKET_URING_OP_GETSOCKNAME,
    SOCKET_URING_OP_GETSOCKOPT, SOCKET_URING_OP_SETSOCKOPT,
};

fn file(fd: i32) -> Descriptor {
    Descriptor::from_raw(fd, Kind::File)
}

fn direct(fd: i32) -> Descriptor {
    Descriptor::from_raw(fd, Kind::Direct)
}

#[test]
fn socket_submission() {
    let op = SocketOp { domain: Domain(2), socket_type: Type(1), protocol: Protocol(6), kind: Kind::File };
    let mut s = Submission::new();
    s.op_flags = 99;
    op.fill_submission(&mut s);
    assert_eq!(s.opcode, IORING_OP_SOCKET);
    assert_eq!((s.fd, s.off, s.len, s.op_flags, s.file_index), (2, 1, 6, 0, 0));
    assert_eq!(op.map_ok(7), file(7));

    let op = SocketOp { kind: Kind::Direct, ..op };
    let mut s = Submission::new();
    op.fill_submission(&mut s);
    assert_eq!(s.file_index, IORING_FILE_INDEX_ALLOC);
    assert_eq!(op.map_ok(7), direct(7));
}

#[test]
fn bind_listen_connect_submissions() {
    let mut s = Submission::new();
    BindOp.fill_submission(&file(3), 0x100, 16, &mut s);
    assert_eq!(s.opcode, IORING_OP_BIND);
    assert_eq!((s.fd, s.off, s.addr), (3, 16, 0x100));

    let mut s = Submission::new();
    ListenOp { backlog: 128 }.fill_submission(&direct(3), &mut s);
    assert_eq!((s.opcode, s.fd, s.len), (IORING_OP_LISTEN, 3, 128));

    let mut s = Submission::new();
    ConnectOp.fill_submission(&file(3), 0x100, 28, &mut s);
    assert_eq!(s.opcode, IORING_OP_CONNECT);
    assert_eq!((s.fd, s.off, s.addr), (3, 28, 0x100));
}

#[test]
fn socket_name_submission() {
    let mut length = 0;
    let mut s = Submission::new();
    SocketNameOp { name: Name::Local }.fill_submission(&file(3), 0x100, 128, &mut length, 0x200, &mut s);
    assert_eq!(length, 128);
    assert_eq!(s.opcode, IORING_OP_URING_CMD);
    assert_eq!((s.fd, s.off, s.addr, s.file_index, s.addr3), (3, SOCKET_URING_OP_GETSOCKNAME as u64, 0x100, 1, 0x200));

    let mut s = Submission::new();
    SocketNameOp { name: Name::Peer }.fill_submission(&file(3), 0x100, 16, &mut length, 0x200, &mut s);
    assert_eq!(length, 16);
    assert_eq!(s.file_index, 0);
}

#[test]
fn recv_submissions() {
    let flags = RecvFlag(0x40);
    let mut s = Submission::new();
    RecvOp { flags }.fill_submission(&file(3), 0x1000, 64, None, &mut s);
    assert_eq!(s.opcode, IORING_OP_RECV);
    assert_eq!((s.fd, s.addr, s.len, s.op_flags, s.flags), (3, 0x1000, 64, 0x40, 0));

    let mut s = Submission::new();
    RecvOp { flags }.fill_submission(&file(3), 0, 64, Some(BufGroupId(2)), &mut s);
    assert_eq!((s.buf_group, s.flags), (2, IOSQE_BUFFER_SELECT));

    let mut s = Submission::new();
    MultishotRecvOp { flags }.fill_submission(&file(3), &ReadBufPool::new(5, 8, 64).unwrap(), &mut s);
    assert_eq!(s.opcode, IORING_OP_RECV);
    assert_eq!(s.flags, IOSQE_BUFFER_SELECT);
    assert_eq!(s.ioprio, IORING_RECV_MULTISHOT as u16);
    assert_eq!((s.fd, s.op_flags, s.buf_group), (3, 0x40, 5));

    let mut s = Submission::new();
    fill_recvmsg_submission(3, 0x300, flags, &mut s);
    assert_eq!(s.opcode, IORING_OP_RECVMSG);
    assert_eq!((s.fd, s.addr, s.op_flags, s.len), (3, 0x300, 0x40, 1));

    let mut t = Submission::new();
    RecvVectoredOp { flags }.fill_submission(&direct(3), 0x300, &mut t);
    assert_eq!(t, s);

    let mut t = Submission::new();
    RecvFromOp { flags }.fill_submission(&file(3), 0x300, None, &mut t);
    assert_eq!(t, s);
    let mut t = Submission::new();
    RecvFromOp { flags }.fill_submission(&file(3), 0x300, Some(BufGroupId(4)), &mut t);
    assert_eq!((t.buf_group, t.flags), (4, IOSQE_BUFFER_SELECT));
}

#[test]
fn send_submissions() {
    let flags = SendFlag(0x4000);
    let mut s = Submission::new();
    SendOp { call: SendCall::Normal, flags }.fill_submission(&file(3), 0x1000, 10, &mut s);
    assert_eq!(s.opcode, IORING_OP_SEND);
    assert_eq!((s.fd, s.addr, s.len, s.op_flags), (3, 0x1000, 10, 0x4000));
    let mut s = Submission::new();
    SendOp { call: SendCall::ZeroCopy, flags }.fill_submission(&file(3), 0x1000, 10, &mut s);
    assert_eq!(s.opcode, IORING_OP_SEND_ZC);
    assert_eq!(SendOp::map_ok(10), 10);

    let mut s = Submission::new();
    s.file_index = 0xabcd_0000;
    SendToOp { call: SendCall::Normal, flags }.fill_submission(&file(3), 0x1000, 10, 0x2000, 16, &mut s);
    assert_eq!(s.opcode, IORING_OP_SEND);
    assert_eq!((s.fd, s.off, s.addr, s.len, s.op_flags), (3, 0x2000, 0x1000, 10, 0x4000));
    // The address length takes the low 16 bits.
    assert_eq!(s.file_index, 0xabcd_0010);

    let mut s = Submission::new();
    SendMsgOp { call: SendCall::Normal, flags }.fill_submission(&file(3), 0x300, &mut s);
    assert_eq!((s.opcode, s.fd, s.addr, s.len, s.op_flags), (IORING_OP_SENDMSG, 3, 0x300, 1, 0x4000));
    let mut s = Submission::new();
    SendMsgOp { call: SendCall::ZeroCopy, flags }.fill_submission(&file(3), 0x300, &mut s);
    assert_eq!(s.opcode, IORING_OP_SENDMSG_ZC);
}

#[test]
fn accept_submissions() {
    let flags = AcceptFlag(0x800);
    let mut length = 0;
    let mut s = Submission::new();
    AcceptOp { flags }.fill_submission(&file(3), 0x100, 128, &mut length, 0x200, &mut s);
    assert_eq!(length, 128);
    assert_eq!(s.opcode, IORING_OP_ACCEPT);
    assert_eq!((s.fd, s.off, s.addr), (3, 0x200, 0x100));
    assert_eq!(s.op_flags, 0x800 | O_CLOEXEC as u32);
    assert_eq!(s.flags, IOSQE_ASYNC);
    assert_eq!(s.file_index, 0);
    assert_eq!(AcceptOp::map_ok(&file(3), 9), file(9));

    let mut s = Submission::new();
    AcceptOp { flags }.fill_submission(&direct(3), 0x100, 128, &mut length, 0x200, &mut s);
    assert_eq!(s.op_flags, 0x800);
    assert_eq!(s.file_index, IORING_FILE_INDEX_ALLOC);
    assert_eq!(AcceptOp::map_ok(&direct(3), 9), direct(9));

    let mut s = Submission::new();
    MultishotAcceptOp { flags }.fill_submission(&file(3), &mut s);
    assert_eq!(s.opcode, IORING_OP_ACCEPT);
    assert_eq!(s.ioprio, IORING_ACCEPT_MULTISHOT as u16);
    assert_eq!((s.fd, s.op_flags, s.flags), (3, 0x800 | O_CLOEXEC as u32, IOSQE_ASYNC));
    let mut s = Submission::new();
    MultishotAcceptOp { flags }.fill_submission(&direct(3), &mut s);
    assert_eq!((s.op_flags, s.file_index), (0x800, IORING_FILE_INDEX_ALLOC));
}

#[test]
fn socket_option_submissions() {
    let mut s = Submission::new();
    SocketOptionOp { level: Level(1), optname: Opt(2) }.fill_submission(&file(3), 0x100, 4, &mut s);
    assert_eq!(s.opcode, IORING_OP_URING_CMD);
    assert_eq!(s.off, SOCKET_URING_OP_GETSOCKOPT as u64);
    // The level in the low half, the option's name in the high half.
    assert_eq!(s.addr, 0x0000_0002_0000_0001);
    assert_eq!((s.fd, s.file_index, s.addr3), (3, 4, 0x100));

    let mut s = Submission::new();
    SetSocketOptionOp { level: Level(6), optname: Opt(u32::MAX) }.fill_submission(&file(3), 0x100, 8, &mut s);
    assert_eq!(s.off, SOCKET_URING_OP_SETSOCKOPT as u64);
    assert_eq!(s.addr, 0xffff_ffff_0000_0006);
    assert_eq!((s.file_index, s.addr3), (8, 0x100));
}

#[test]
fn shutdown_submissions() {
    for (how, arg) in [(Shutdown::Read, SHUT_RD), (Shutdown::Write, SHUT_WR), (Shutdown::Both, SHUT_RDWR)] {
        let mut s = Submission::new();
        ShutdownOp { how }.fill_submission(&file(3), &mut s);
        assert_eq!((s.opcode, s.fd, s.len), (IORING_OP_SHUTDOWN, 3, arg as u32));
    }
}

#[test]
fn wait_id_submissions() {
    let cases = [(WaitOn::Process(123), P_PID, 123), (WaitOn::Group(7), P_PGID, 7), (WaitOn::All, P_ALL, 0)];
    for (wait, id_type, id) in cases {
        let mut s = Submission::new();
        WaitIdOp { wait, options: WaitOption(4) }.fill_submission(0x500, &mut s);
        assert_eq!(s.opcode, IORING_OP_WAITID);
        assert_eq!((s.fd, s.off, s.len, s.file_index), (id, 0x500, id_type, 4));
    }
}

#[test]
fn receive_signal_submission() {
    let mut s = Submission::new();
    ReceiveSignalOp.fill_submission(&file(8), 0x600, &mut s);
    assert_eq!(s.opcode, IORING_OP_READ);
    assert_eq!((s.fd, s.off, s.addr, s.len), (8, NO_OFFSET, 0x600, SIGNALFD_SIGINFO_SIZE));
    assert_eq!(s.flags, IOSQE_ASYNC);
}

#[test]
fn pollable_submission() {
    let mut s = Submission::new();
    PollableOp.fill_submission(5, &mut s);
    assert_eq!(s.opcode, IORING_OP_POLL_ADD);
    assert_eq!(s.fd, 5);
    assert_eq!(s.op_flags, (EPOLLIN | EPOLLHUP | EPOLLERR | EPOLLET | EPOLLEXCLUSIVE) as u32);
    assert_eq!(s.op_flags, 0x9000_0019);
    assert_eq!(s.len, IORING_POLL_ADD_MULTI);
}

#[test]
fn cancel_submissions() {
    let cancel = CancelOperation::new(Some(42));
    assert_eq!(cancel.0, CancelOperationState::InProgress(42));
    let mut s = Submission::new();
    assert!(cancel.fill_submission(&mut s));
    assert_eq!((s.opcode, s.addr), (IORING_OP_ASYNC_CANCEL, 42));

    let cancel = CancelOperation::new(None);
    assert_eq!(cancel.0, CancelOperationState::Done);
    let mut s = Submission::new();
    assert!(!cancel.fill_submission(&mut s));
    assert_eq!(s, Submission::new());

    let mut s = Submission::new();
    CancelAll.fill_submission(&file(3), &mut s);
    assert_eq!((s.opcode, s.fd), (IORING_OP_ASYNC_CANCEL, 3));
    assert_eq!(s.op_flags, IORING_ASYNC_CANCEL_ALL | IORING_ASYNC_CANCEL_FD);
    let mut s = Submission::new();
    CancelAll.fill_submission(&direct(3), &mut s);
    assert_eq!(
        s.op_flags,
        IORING_ASYNC_CANCEL_FD_FIXED | IORING_ASYNC_CANCEL_ALL | IORING_ASYNC_CANCEL_FD
    );
    assert_eq!(CancelAll::map_ok(3), 3);
}

#[test]
fn madvise_submission() {
    let op = advise(0x7000, 4096, AdviseFlag::WILL_NEED());
    assert_eq!(op.advice, AdviseFlag(MADV_WILLNEED as u32));
    let mut s = Submission::new();
    op.fill_submission(&mut s);
    assert_eq!(s.opcode, IORING_OP_MADVISE);
    assert_eq!((s.fd, s.addr, s.len, s.op_flags), (-1, 0x7000, 4096, MADV_WILLNEED as u32));
    assert_eq!(AdviseFlag::DONT_NEED().0, MADV_DONTNEED as u32);
}
