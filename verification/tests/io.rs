use a10::fd::{Descriptor, Kind};
use a10::io::traits::{
    copy_bytes, extend_from_slice, extend_split, init_split, skip_len, total_len, BufGroupId,
    StaticBuf,
};
use a10::io::{
    all_written, remaining_iovecs, splice_from, splice_from_at, splice_to, splice_to_at, IoRange,
    Read, ReadN, ReadNStep, ReadNVectored, ReadVectored, Splice, SpliceDirection, SpliceFlag,
    Write, WriteAll, WriteAllStep, WriteAllVectored, WriteVectored, NO_OFFSET,
};
use a10::sq::Submission;
use a10::sys::{
    IORING_OP_READ, IORING_OP_READV, IORING_OP_WRITE, IORING_OP_WRITEV, IOSQE_BUFFER_SELECT,
    SPLICE_F_MORE, SPLICE_F_MOVE,
};

#[test]
fn read_fill_submission() {
    let fd = Descriptor::from_raw(4, Kind::File);
    assert_eq!(Read::new().offset, NO_OFFSET);

    let mut s = Submission::new();
    Read::new().at(100).fill_submission(&fd, 0x1000, 64, None, &mut s);
    assert_eq!(s.opcode, IORING_OP_READ);
    assert_eq!((s.fd, s.off, s.addr, s.len), (4, 100, 0x1000, 64));
    assert_eq!(s.flags, 0);

    let mut s = Submission::new();
    Read::new().fill_submission(&fd, 0, 64, Some(BufGroupId(3)), &mut s);
    assert_eq!(s.off, NO_OFFSET);
    assert_eq!(s.buf_group, 3);
    assert_eq!(s.flags, IOSQE_BUFFER_SELECT);

    let mut s = Submission::new();
    ReadVectored::new().at(8).fill_submission(&fd, 0x2000, 2, &mut s);
    assert_eq!(s.opcode, IORING_OP_READV);
    assert_eq!((s.fd, s.off, s.addr, s.len), (4, 8, 0x2000, 2));
    assert_eq!(ReadVectored::new().offset, NO_OFFSET);
}

#[test]
fn at_has_no_effect_once_submitted() {
    let fd = Descriptor::from_raw(4, Kind::File);
    let mut read = Read::new().at(100);
    let mut s = Submission::new();
    read.fill_submission(&fd, 0x1000, 64, None, &mut s);
    assert!(read.submitted);
    assert_eq!(read.at(5), read);
    assert_eq!(read.at(5).offset, 100);

    let mut read = ReadVectored::new();
    read.fill_submission(&fd, 0x2000, 2, &mut s);
    assert_eq!(read.at(5).offset, NO_OFFSET);

    let mut read_n = ReadN::new(10).at(100);
    assert_eq!(read_n.read().offset, 100);
    assert_eq!(read_n.at(7), ReadN { offset: 100, left: 10, submitted: true });
    let mut read_n = ReadNVectored::new(10).at(3);
    assert_eq!(read_n.read().offset, 3);
    assert_eq!(read_n.at(7).offset, 3);
}

#[test]
fn write_fill_submission() {
    let fd = Descriptor::from_raw(6, Kind::Direct);
    let mut s = Submission::new();
    Write::new(NO_OFFSET).fill_submission(&fd, 0x1000, 10, &mut s);
    assert_eq!(s.opcode, IORING_OP_WRITE);
    assert_eq!((s.fd, s.off, s.addr, s.len), (6, NO_OFFSET, 0x1000, 10));

    let mut s = Submission::new();
    WriteVectored::new(5).fill_submission(&fd, 0x3000, 3, &mut s);
    assert_eq!(s.opcode, IORING_OP_WRITEV);
    assert_eq!((s.fd, s.off, s.addr, s.len), (6, 5, 0x3000, 3));
}

#[test]
fn read_n_reads_until_enough() {
    let mut read = ReadN::new(10).at(100);
    assert_eq!(read.read().offset, 100);
    assert_eq!(read.step(4), ReadNStep::Again);
    assert_eq!(read, ReadN { offset: 104, left: 6, submitted: true });
    assert_eq!(read.read().offset, 104);
    assert_eq!(read.step(6), ReadNStep::Done);

    let mut read = ReadN::new(10);
    assert_eq!(read.step(3), ReadNStep::Again);
    // Reads from the file position keep doing so.
    assert_eq!(read, ReadN { offset: NO_OFFSET, left: 7, submitted: false });
    assert_eq!(read.step(100), ReadNStep::Done);
}

#[test]
fn read_n_unexpected_end_of_file() {
    let mut read = ReadN::new(10);
    assert_eq!(read.step(0), ReadNStep::UnexpectedEof);
    assert_eq!(read, ReadN::new(10));

    let mut read = ReadNVectored::new(10).at(0);
    assert_eq!(read.step(5), ReadNStep::Again);
    assert_eq!(read, ReadNVectored { offset: 5, left: 5, submitted: false });
    assert_eq!(read.read().offset, 5);
    assert_eq!(read.step(0), ReadNStep::UnexpectedEof);
    assert_eq!(read.step(5), ReadNStep::Done);
    assert_eq!(ReadNVectored::new(1).offset, NO_OFFSET);
}

#[test]
fn write_all_writes_everything() {
    let mut write = WriteAll::new(10, 0);
    assert_eq!(write.remaining(), 10);
    assert_eq!(write.write().offset, 0);
    assert_eq!(write.step(3), WriteAllStep::Again);
    assert_eq!(write, WriteAll { offset: 3, skip: 3, len: 10 });
    assert_eq!(write.remaining(), 7);
    assert_eq!(write.step(0), WriteAllStep::WriteZero);
    assert_eq!(write.step(7), WriteAllStep::Done);
    assert_eq!(write.remaining(), 0);

    let mut write = WriteAll::new(4, NO_OFFSET);
    assert_eq!(write.step(4), WriteAllStep::Done);
    assert_eq!(write.offset, NO_OFFSET);
}

#[test]
fn remaining_parts_of_buffers() {
    let lens = [3, 0, 5, 2];
    assert_eq!(
        remaining_iovecs(&lens, 0),
        vec![
            IoRange { start: 0, len: 3 },
            IoRange { start: 0, len: 0 },
            IoRange { start: 0, len: 5 },
            IoRange { start: 0, len: 2 },
        ]
    );
    assert_eq!(
        remaining_iovecs(&lens, 5),
        vec![
            IoRange { start: 3, len: 0 },
            IoRange { start: 0, len: 0 },
            IoRange { start: 2, len: 3 },
            IoRange { start: 0, len: 2 },
        ]
    );
    assert_eq!(
        remaining_iovecs(&lens, 10),
        vec![
            IoRange { start: 3, len: 0 },
            IoRange { start: 0, len: 0 },
            IoRange { start: 5, len: 0 },
            IoRange { start: 2, len: 0 },
        ]
    );
    assert!(!all_written(&lens, 9));
    assert!(all_written(&lens, 10));
    assert!(all_written(&[], 0));
}

#[test]
fn write_all_vectored_writes_everything() {
    let lens = [3, 5, 2];
    let mut write = WriteAllVectored::new(20);
    assert_eq!(write.write().offset, 20);
    assert_eq!(write.step(4, &lens), WriteAllStep::Again);
    assert_eq!(write, WriteAllVectored { offset: 24, skip: 4 });
    assert_eq!(write.step(0, &lens), WriteAllStep::WriteZero);
    assert_eq!(write.step(6, &lens), WriteAllStep::Done);
    assert_eq!(write, WriteAllVectored { offset: 30, skip: 10 });

    let mut write = WriteAllVectored::new(NO_OFFSET);
    assert_eq!(write.step(10, &lens), WriteAllStep::Done);
    assert_eq!(write.offset, NO_OFFSET);
}

#[test]
fn splice_arguments() {
    assert_eq!(
        splice_to(7, 100, None),
        Splice {
            target: 7,
            direction: SpliceDirection::To,
            off_in: NO_OFFSET,
            off_out: NO_OFFSET,
            length: 100,
            flags: SpliceFlag(0),
        }
    );
    assert_eq!(
        splice_to_at(10, 7, 20, 100, Some(SpliceFlag::MOVE())),
        Splice {
            target: 7,
            direction: SpliceDirection::To,
            off_in: 10,
            off_out: 20,
            length: 100,
            flags: SpliceFlag(SPLICE_F_MOVE),
        }
    );
    assert_eq!(
        splice_from(7, 100, Some(SpliceFlag::MORE())),
        Splice {
            target: 7,
            direction: SpliceDirection::From,
            off_in: NO_OFFSET,
            off_out: NO_OFFSET,
            length: 100,
            flags: SpliceFlag(SPLICE_F_MORE),
        }
    );
    // Splicing from the target reads at the target's offset and writes at
    // ours.
    assert_eq!(
        splice_from_at(10, 7, 20, 100, Some(SpliceFlag::MOVE() | SpliceFlag::MORE())),
        Splice {
            target: 7,
            direction: SpliceDirection::From,
            off_in: 20,
            off_out: 10,
            length: 100,
            flags: SpliceFlag(SPLICE_F_MOVE | SPLICE_F_MORE),
        }
    );
}

#[test]
fn copy_bytes_up_to_room() {
    let mut dst = b"ab".to_vec();
    assert_eq!(copy_bytes(&mut dst, 3, b"cdefg"), 3);
    assert_eq!(dst, b"abcde".to_vec());
    assert_eq!(copy_bytes(&mut dst, 10, b"xy"), 2);
    assert_eq!(dst, b"abcdexy".to_vec());
    assert_eq!(copy_bytes(&mut dst, 0, b"z"), 0);
    assert_eq!(dst, b"abcdexy".to_vec());
}

#[test]
fn split_over_buffers() {
    let lens = [4, 0, 3, 5];
    assert_eq!(init_split(&lens, 0), vec![0, 0, 0, 0]);
    assert_eq!(init_split(&lens, 6), vec![4, 0, 2, 0]);
    assert_eq!(init_split(&lens, 12), vec![4, 0, 3, 5]);
    assert_eq!(extend_split(&lens, 8), (vec![4, 0, 3, 1], 8));
    assert_eq!(extend_split(&lens, 100), (vec![4, 0, 3, 5], 12));
    assert_eq!(extend_split(&[], 5), (Vec::new(), 0));
    assert_eq!(total_len(&lens), 12);
    assert_eq!(total_len(&[]), 0);
}

#[test]
fn skip_length() {
    assert_eq!(skip_len(10, 3), 7);
    assert_eq!(skip_len(10, 10), 0);
    assert_eq!(skip_len(10, 20), 0);
}

#[test]
fn extend_then_init_agree() {
    // Copying bytes spreads them as marking the copied number as initialised.
    let lens = [4, 0, 3, 5];
    for len in [0, 5, 12, 20] {
        let (shares, copied) = extend_split(&lens, len);
        assert_eq!(init_split(&lens, copied), shares);
    }
}

#[test]
fn static_buffers() {
    let a = StaticBuf::from_static_str("abc");
    assert_eq!(a.len(), 3);
    assert!(!a.is_empty());
    assert_eq!(a.as_slice(), b"abc");

    let b = StaticBuf::from(&b"hello"[..]);
    assert_eq!(b.len(), 5);
    assert_eq!(b.as_slice(), b"hello");

    let e = StaticBuf::from_static_str("");
    assert!(e.is_empty());
    assert_eq!(e.len(), 0);
}

#[test]
fn extend_buffers_in_order() {
    let mut bufs = vec![Vec::with_capacity(10), Vec::with_capacity(10)];
    assert_eq!(extend_from_slice(&mut bufs, &[10, 10], b"hello"), 5);
    assert_eq!(bufs[0], b"hello");
    assert_eq!(bufs[1], b"");

    let mut bufs = vec![Vec::with_capacity(2), Vec::with_capacity(10)];
    assert_eq!(extend_from_slice(&mut bufs, &[2, 10], b"hello"), 5);
    assert_eq!(bufs[0], b"he");
    assert_eq!(bufs[1], b"llo");

    // No more than there is room for.
    let mut bufs = vec![b"x".to_vec(), Vec::new()];
    assert_eq!(extend_from_slice(&mut bufs, &[1, 2], b"hello"), 3);
    assert_eq!(bufs[0], b"xh");
    assert_eq!(bufs[1], b"el");
}

#[test]
fn read_n_puts_the_bytes_in_order() {
    let mut buf = b">".to_vec();
    let mut read = ReadN::new(5).at(10);
    assert_eq!(read.read_completed(&mut buf, b"ab"), ReadNStep::Again);
    assert_eq!(read, ReadN { offset: 12, left: 3, submitted: false });
    assert_eq!(read.read_completed(&mut buf, b"cdef"), ReadNStep::Done);
    assert_eq!(buf, b">abcdef");
    assert_eq!(read.read_completed(&mut buf, b""), ReadNStep::UnexpectedEof);

    let mut bufs = vec![Vec::new(), Vec::new()];
    let mut read = ReadNVectored::new(4);
    assert_eq!(read.read_completed(&mut bufs, &[2, 4], b"abc"), ReadNStep::Again);
    assert_eq!(read.read_completed(&mut bufs, &[0, 3], b"de"), ReadNStep::Done);
    assert_eq!(bufs, vec![b"ab".to_vec(), b"cde".to_vec()]);
}
