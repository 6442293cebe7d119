use a10::fd::{Descriptor, Kind};
use a10::sq::{
    claim_submission, fill_cancel_submission, ring_index, FieldValue, QueueFull, Submission,
    SubmissionQueue,
};
use a10::sys::{
    IORING_FILE_INDEX_ALLOC, IORING_OP_NOP, IORING_OP_READ, IOSQE_ASYNC, IOSQE_BUFFER_SELECT,
    IOSQE_CQE_SKIP_SUCCESS, IOSQE_FIXED_FILE, O_CLOEXEC,
};

#[test]
fn submission_reset() {
    let mut s = Submission::new();
    assert!(s.is_unchanged());
    assert_eq!(s.opcode, IORING_OP_NOP);
    s.opcode = IORING_OP_READ;
    s.addr = 0x1000;
    s.len = 10;
    assert!(!s.is_unchanged());
    s.reset();
    assert!(s.is_unchanged());
    assert_eq!(s, Submission::new());
}

#[test]
fn submission_flags() {
    let mut s = Submission::new();
    s.set_async();
    assert_eq!(s.flags, IOSQE_ASYNC);
    s.no_success_event();
    assert_eq!(s.flags, IOSQE_ASYNC | IOSQE_CQE_SKIP_SUCCESS);
    s.set_buffer_select(7);
    assert_eq!(s.flags, IOSQE_ASYNC | IOSQE_CQE_SKIP_SUCCESS | IOSQE_BUFFER_SELECT);
    assert_eq!(s.buf_group, 7);
    assert_eq!(s.opcode, IORING_OP_NOP);
}

#[test]
fn ring_index_wraps() {
    assert_eq!(ring_index(0, 8), 0);
    assert_eq!(ring_index(7, 8), 7);
    assert_eq!(ring_index(8, 8), 0);
    assert_eq!(ring_index(13, 8), 5);
    assert_eq!(ring_index(u32::MAX, 8), 7);
    assert_eq!(ring_index(12345, 1), 0);
}

#[test]
fn claim_submission_until_full() {
    assert_eq!(claim_submission(0, 0, 4), Ok((0, 1)));
    assert_eq!(claim_submission(0, 3, 4), Ok((3, 4)));
    assert_eq!(claim_submission(0, 4, 4), Err(QueueFull));
    assert_eq!(claim_submission(2, 5, 4), Ok((1, 6)));
    // Positions wrap around at 2^32.
    assert_eq!(claim_submission(u32::MAX - 1, u32::MAX, 4), Ok((3, 0)));
    assert_eq!(claim_submission(u32::MAX - 1, 2, 4), Err(QueueFull));
    assert_eq!(claim_submission(u32::MAX, 1, 4), Ok((1, 2)));
}

#[test]
fn kind_flags() {
    assert_eq!(Kind::File.cloexec_flag(), O_CLOEXEC);
    assert_eq!(Kind::Direct.cloexec_flag(), 0);

    let mut s = Submission::new();
    Kind::File.create_flags(&mut s);
    Kind::File.use_flags(&mut s);
    assert_eq!(s, Submission::new());

    Kind::Direct.create_flags(&mut s);
    assert_eq!(s.file_index, IORING_FILE_INDEX_ALLOC);
    Kind::Direct.use_flags(&mut s);
    assert_eq!(s.flags, IOSQE_FIXED_FILE);
}

#[test]
fn descriptor_roundtrip() {
    let file = Descriptor::from_raw(3, Kind::File);
    assert_eq!(file.kind(), Kind::File);
    assert_eq!(file.fd(), 3);

    let direct = Descriptor::from_raw(3, Kind::Direct);
    assert_eq!(direct.kind(), Kind::Direct);
    assert_eq!(direct.fd(), 3);
    assert_ne!(file, direct);

    let zero = Descriptor::from_raw(0, Kind::Direct);
    assert_eq!(zero.kind(), Kind::Direct);
    assert_eq!(zero.fd(), 0);
    let large = Descriptor::from_raw(i32::MAX, Kind::File);
    assert_eq!(large.kind(), Kind::File);
    assert_eq!(large.fd(), i32::MAX);

    assert_eq!(file.as_fd(), Some(3));
    assert_eq!(direct.as_fd(), None);
    assert_eq!(zero.as_fd(), None);
}

#[test]
fn wake_enters_with_the_unread_submissions() {
    let sq = SubmissionQueue { ring_fd: 5, kernel_thread: false };
    assert_eq!(sq.wake(false, 0, 1, 3), None);
    assert_eq!(sq.wake(true, 0, 1, 3), Some((0, 2)));
    // Positions wrap around at 2^32.
    assert_eq!(sq.wake(true, 0, u32::MAX, 1), Some((0, 2)));
    let sq = SubmissionQueue { ring_fd: 5, kernel_thread: true };
    assert_eq!(sq.wake(true, 0, 1, 3), Some((0, 0)));
}

#[test]
fn describe_submissions() {
    let mut s = Submission::new();
    s.opcode = a10::sys::IORING_OP_READ;
    s.fd = 3;
    s.off = 100;
    s.addr = 0x1000;
    s.len = 64;
    s.user_data = 7;
    assert_eq!(
        s.debug_fields(),
        vec![
            ("opcode", FieldValue::Name("IORING_OP_READ")),
            ("fd", FieldValue::Signed(3)),
            ("offset", FieldValue::Unsigned(100)),
            ("addr", FieldValue::Unsigned(0x1000)),
            ("len", FieldValue::Unsigned(64)),
            ("flags", FieldValue::Unsigned(0)),
            ("user_data", FieldValue::Unsigned(7)),
        ]
    );

    let mut s = Submission::new();
    fill_cancel_submission(9, &mut s);
    assert_eq!(
        s.debug_fields(),
        vec![
            ("opcode", FieldValue::Name("IORING_OP_ASYNC_CANCEL")),
            ("addr", FieldValue::Unsigned(9)),
            ("flags", FieldValue::Unsigned(IOSQE_CQE_SKIP_SUCCESS as u64)),
            ("user_data", FieldValue::Unsigned(0)),
        ]
    );

    let mut s = Submission::new();
    s.opcode = a10::sys::IORING_OP_POLL_ADD;
    s.fd = -1;
    s.len = a10::sys::IORING_POLL_ADD_MULTI;
    s.op_flags = 1;
    assert_eq!(s.debug_fields()[3], ("multishot", FieldValue::Bool(true)));
    assert_eq!(s.debug_fields()[1], ("fd", FieldValue::Signed(-1)));

    let mut s = Submission::new();
    s.opcode = a10::sys::IORING_OP_URING_CMD;
    s.fd = 4;
    s.off = a10::sys::SOCKET_URING_OP_GETSOCKOPT as u64;
    s.addr = 1 | (9 << 32);
    s.file_index = 4;
    assert_eq!(
        s.debug_fields()[..6].to_vec(),
        vec![
            ("opcode", FieldValue::Name("IORING_OP_URING_CMD")),
            ("fd", FieldValue::Signed(4)),
            ("cmd_op", FieldValue::Name("SOCKET_URING_OP_GETSOCKOPT")),
            ("level", FieldValue::Unsigned(1)),
            ("name", FieldValue::Unsigned(9)),
            ("len", FieldValue::Unsigned(4)),
        ]
    );

    // An unknown operation.
    let mut s = Submission::new();
    s.opcode = 200;
    s.len = 5;
    assert_eq!(
        s.debug_fields(),
        vec![
            ("opcode", FieldValue::Unsigned(200)),
            ("ioprio", FieldValue::Unsigned(0)),
            ("fd", FieldValue::Signed(0)),
            ("len", FieldValue::Unsigned(5)),
            ("flags", FieldValue::Unsigned(0)),
            ("user_data", FieldValue::Unsigned(0)),
        ]
    );
}
