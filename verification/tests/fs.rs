use a10::extract::Extract;
use a10::fd::{Descriptor, Kind};
use a10::fs::metadata::{
    default_metadata_interest, FileType, Metadata, MetadataInterest, Permissions, Timestamp,
};
use a10::fs::{
    create_dir, open_file, remove_dir, remove_file, rename, AdviseFlag, Advise, Allocate,
    AllocateFlag, OpenOptions, RemoveFlag, Stat, SyncData, SyncDataFlag, Truncate,
};
use a10::sq::Submission;
use a10::sys::{
    AT_EMPTY_PATH, AT_FDCWD, AT_REMOVEDIR, FALLOC_FL_COLLAPSE_RANGE, FALLOC_FL_INSERT_RANGE, FALLOC_FL_KEEP_SIZE, FALLOC_FL_PUNCH_HOLE, FALLOC_FL_UNSHARE_RANGE, FALLOC_FL_ZERO_RANGE, IORING_FILE_INDEX_ALLOC, IORING_FSYNC_DATASYNC, IORING_OP_FADVISE, IORING_OP_FALLOCATE, IORING_OP_FSYNC, IORING_OP_FTRUNCATE, IORING_OP_MKDIRAT, IORING_OP_OPENAT, IORING_OP_RENAMEAT, IORING_OP_STATX, IORING_OP_UNLINKAT, O_APPEND, O_CLOEXEC, O_CREAT, O_DIRECT, O_DSYNC, O_EXCL, O_RDONLY, O_RDWR, O_SYNC, O_TMPFILE, O_TRUNC, O_WRONLY, POSIX_FADV_DONTNEED, POSIX_FADV_NOREUSE, POSIX_FADV_NORMAL, POSIX_FADV_RANDOM, POSIX_FADV_SEQUENTIAL, POSIX_FADV_WILLNEED, STATX_ATIME, STATX_BLOCKS, STATX_BTIME, STATX_MODE, STATX_MTIME, STATX_SIZE, STATX_TYPE, S_IFBLK, S_IFCHR, S_IFDIR, S_IFIFO, S_IFLNK, S_IFREG, S_IFSOCK,
};

#[test]
fn open_options_default_is_read_only() {
    let opts = OpenOptions::new();
    assert_eq!(opts.flags(), O_RDONLY);
    assert_eq!(opts.creation_mode(), 0o666);
    assert_eq!(opts.descriptor_kind(), Kind::File);
}

#[test]
fn open_options_access_modes() {
    assert_eq!(OpenOptions::new().write().flags(), O_RDWR);
    assert_eq!(OpenOptions::new().write_only().flags(), O_WRONLY);
    assert_eq!(OpenOptions::new().write_only().read().flags(), O_RDWR);
    assert_eq!(OpenOptions::new().read().write().flags(), O_RDWR);
    assert_eq!(OpenOptions::new().write().read().flags(), O_RDWR);
    assert_eq!(OpenOptions::new().write().write_only().flags(), O_WRONLY);
}

#[test]
fn open_options_flags() {
    let opts = OpenOptions::new()
        .write()
        .append()
        .truncate()
        .create()
        .data_sync()
        .sync()
        .direct()
        .mode(0o600)
        .kind(Kind::Direct);
    assert_eq!(
        opts.flags(),
        O_RDWR | O_APPEND | O_TRUNC | O_CREAT | O_DSYNC | O_SYNC | O_DIRECT
    );
    assert_eq!(opts.creation_mode(), 0o600);
    assert_eq!(opts.descriptor_kind(), Kind::Direct);
    assert_eq!(OpenOptions::new().create_new().flags(), O_CREAT | O_EXCL);
}

#[test]
fn open_sets_close_on_exec_for_files() {
    let open = OpenOptions::new().write().create().open(b"/tmp/file".to_vec());
    assert_eq!(open.path, b"/tmp/file".to_vec());
    assert_eq!(open.kind, Kind::File);
    assert_eq!(open.flags, O_RDWR | O_CREAT | O_CLOEXEC);
    assert_eq!(open.mode, 0o666);

    let open = OpenOptions::new().kind(Kind::Direct).open(b"a".to_vec());
    assert_eq!(open.kind, Kind::Direct);
    assert_eq!(open.flags, O_RDONLY);

    let open = open_file(b"b".to_vec());
    assert_eq!(open.path, b"b".to_vec());
    assert_eq!(open.flags, O_RDONLY | O_CLOEXEC);
    assert_eq!(open.mode, 0o666);
}

#[test]
fn open_temp_file() {
    let open = OpenOptions::new().write().open_temp_file(b"/tmp".to_vec());
    assert_eq!(open.path, b"/tmp".to_vec());
    assert_eq!(open.flags, O_RDWR | O_TMPFILE | O_CLOEXEC);
}

#[test]
fn open_fill_submission() {
    let open = OpenOptions::new().write().open(b"f".to_vec());
    let mut s = Submission::new();
    open.fill_submission(0x1000, &mut s);
    assert_eq!(s.opcode, IORING_OP_OPENAT);
    assert_eq!(s.fd, AT_FDCWD);
    assert_eq!(s.addr, 0x1000);
    assert_eq!(s.len, 0o666);
    assert_eq!(s.op_flags, (O_RDWR | O_CLOEXEC) as u32);
    assert_eq!(s.file_index, 0);

    let open = OpenOptions::new().kind(Kind::Direct).open(b"f".to_vec());
    let mut s = Submission::new();
    open.fill_submission(0x1000, &mut s);
    assert_eq!(s.file_index, IORING_FILE_INDEX_ALLOC);
}

#[test]
fn path_operations_fill_submission() {
    let mut s = Submission::new();
    let op = create_dir(b"dir".to_vec());
    assert_eq!(op.path, b"dir".to_vec());
    op.fill_submission(0x10, &mut s);
    assert_eq!(s.opcode, IORING_OP_MKDIRAT);
    assert_eq!(s.fd, AT_FDCWD);
    assert_eq!(s.addr, 0x10);
    assert_eq!(s.len, 0o777);

    let mut s = Submission::new();
    let op = rename(b"from".to_vec(), b"to".to_vec());
    assert_eq!((op.from.clone(), op.to.clone()), (b"from".to_vec(), b"to".to_vec()));
    op.fill_submission(0x10, 0x20, &mut s);
    assert_eq!(s.opcode, IORING_OP_RENAMEAT);
    assert_eq!(s.fd, AT_FDCWD);
    assert_eq!(s.addr, 0x10);
    assert_eq!(s.off, 0x20);
    assert_eq!(s.len, AT_FDCWD as u32);

    let mut s = Submission::new();
    let op = remove_file(b"file".to_vec());
    assert_eq!(op.flag, RemoveFlag::File);
    op.fill_submission(0x10, &mut s);
    assert_eq!(s.opcode, IORING_OP_UNLINKAT);
    assert_eq!(s.addr, 0x10);
    assert_eq!(s.op_flags, 0);

    let mut s = Submission::new();
    let op = remove_dir(b"dir".to_vec());
    assert_eq!(op.flag, RemoveFlag::Directory);
    op.fill_submission(0x10, &mut s);
    assert_eq!(s.op_flags, AT_REMOVEDIR as u32);
}

#[test]
fn fd_operations_fill_submission() {
    let fd = Descriptor::from_raw(5, Kind::Direct);

    let mut s = Submission::new();
    let sync = SyncData::sync_all();
    assert_eq!(sync.flag, SyncDataFlag::All);
    sync.fill_submission(&fd, &mut s);
    assert_eq!((s.opcode, s.fd, s.op_flags), (IORING_OP_FSYNC, 5, 0));
    let mut s = Submission::new();
    SyncData::sync_data().fill_submission(&fd, &mut s);
    assert_eq!(s.op_flags, IORING_FSYNC_DATASYNC);

    let mut s = Submission::new();
    let mut stat = Stat::new();
    assert_eq!(stat.interest, default_metadata_interest());
    stat.fill_submission(&fd, 0x100, 0x200, &mut s);
    // Once submitted, the interest no longer changes.
    assert!(stat.submitted);
    assert_eq!(stat.only(MetadataInterest::SIZE()).interest, default_metadata_interest());
    assert_eq!(s.opcode, IORING_OP_STATX);
    assert_eq!((s.fd, s.off, s.addr), (5, 0x100, 0x200));
    assert_eq!(s.len, default_metadata_interest().0);
    assert_eq!(s.op_flags, AT_EMPTY_PATH as u32);
    assert_eq!(Stat::new().only(MetadataInterest::SIZE()).interest, MetadataInterest(STATX_SIZE));

    let mut s = Submission::new();
    let advise = Advise { offset: 10, length: 20, advice: AdviseFlag::SEQUENTIAL() };
    advise.fill_submission(&fd, &mut s);
    assert_eq!(s.opcode, IORING_OP_FADVISE);
    assert_eq!((s.fd, s.off, s.len, s.op_flags), (5, 10, 20, POSIX_FADV_SEQUENTIAL));

    let mut s = Submission::new();
    let allocate = Allocate::new(10, 20, None);
    assert_eq!(allocate.mode, AllocateFlag(0));
    allocate.fill_submission(&fd, &mut s);
    assert_eq!(s.opcode, IORING_OP_FALLOCATE);
    assert_eq!((s.fd, s.off, s.addr, s.len), (5, 10, 20, 0));
    let allocate = Allocate::new(0, 1, Some(AllocateFlag::KEEP_SIZE() | AllocateFlag::PUNCH_HOLE()));
    assert_eq!(allocate.mode.0, FALLOC_FL_KEEP_SIZE | FALLOC_FL_PUNCH_HOLE);

    let mut s = Submission::new();
    Truncate { length: 1234 }.fill_submission(&fd, &mut s);
    assert_eq!((s.opcode, s.fd, s.off), (IORING_OP_FTRUNCATE, 5, 1234));
}

#[test]
fn flag_values() {
    assert_eq!(AdviseFlag::NORMAL().0, POSIX_FADV_NORMAL);
    assert_eq!(AdviseFlag::RANDOM().0, POSIX_FADV_RANDOM);
    assert_eq!(AdviseFlag::NO_REUSE().0, POSIX_FADV_NOREUSE);
    assert_eq!(AdviseFlag::WILL_NEED().0, POSIX_FADV_WILLNEED);
    assert_eq!(AdviseFlag::DONT_NEED().0, POSIX_FADV_DONTNEED);
    assert_eq!(AllocateFlag::UNSHARE_RANGE().0, FALLOC_FL_UNSHARE_RANGE);
    assert_eq!(AllocateFlag::COLLAPSE_RANGE().0, FALLOC_FL_COLLAPSE_RANGE);
    assert_eq!(AllocateFlag::ZERO_RANGE().0, FALLOC_FL_ZERO_RANGE);
    assert_eq!(AllocateFlag::INSERT_RANGE().0, FALLOC_FL_INSERT_RANGE);
    assert_eq!(
        (MetadataInterest::TYPE() | MetadataInterest::MODE()).0,
        STATX_TYPE | STATX_MODE
    );
    assert_eq!(MetadataInterest::BLOCKS().0, STATX_BLOCKS);
    assert_eq!(MetadataInterest::MODIFIED_TIME().0, STATX_MTIME);
    assert_eq!(MetadataInterest::ACCESSED_TIME().0, STATX_ATIME);
    assert_eq!(MetadataInterest::CREATED_TIME().0, STATX_BTIME);
    assert_eq!(
        default_metadata_interest().0,
        STATX_TYPE | STATX_MODE | STATX_SIZE | STATX_BLOCKS | STATX_MTIME | STATX_ATIME | STATX_BTIME
    );
}

fn metadata(mode: u16) -> Metadata {
    Metadata {
        mask: STATX_TYPE | STATX_SIZE,
        blksize: 4096,
        mode,
        size: 1024,
        accessed_at: Timestamp { secs: 1, nanos: 2 },
        created_at: Timestamp { secs: -1, nanos: 500 },
        modified_at: Timestamp { secs: 3, nanos: 4 },
    }
}

#[test]
fn metadata_accessors() {
    let m = metadata((S_IFREG | 0o644) as u16);
    assert_eq!(m.filled(), MetadataInterest(STATX_TYPE | STATX_SIZE));
    assert!(m.is_file());
    assert!(!m.is_dir());
    assert!(!m.is_symlink());
    assert_eq!(m.len(), 1024);
    assert_eq!(m.block_size(), 4096);
    assert_eq!(m.file_type(), FileType((S_IFREG | 0o644) as u16));
    assert_eq!(m.permissions(), Permissions((S_IFREG | 0o644) as u16));
    assert_eq!(m.accessed(), Timestamp { secs: 1, nanos: 2 });
    assert_eq!(m.modified(), Timestamp { secs: 3, nanos: 4 });
    assert_eq!(m.created(), Timestamp { secs: -1, nanos: 500 });
    assert!(metadata(S_IFDIR as u16).is_dir());
    assert!(metadata(S_IFLNK as u16).is_symlink());
    assert!(!metadata(S_IFLNK as u16).is_file());
}

#[test]
fn timestamp_as_nanos() {
    assert_eq!(Timestamp { secs: 3, nanos: 4 }.as_nanos(), 3_000_000_004);
    assert_eq!(Timestamp { secs: -1, nanos: 500 }.as_nanos(), -999_999_500);
    assert_eq!(Timestamp { secs: 0, nanos: 0 }.as_nanos(), 0);
    assert_eq!(
        Timestamp { secs: i64::MIN, nanos: 999_999_999 }.as_nanos(),
        i64::MIN as i128 * 1_000_000_000 + 999_999_999
    );
}

#[test]
fn file_type_names() {
    let cases = [
        (S_IFDIR, "directory", "d"),
        (S_IFREG, "file", "-"),
        (S_IFLNK, "symbolic link", "l"),
        (S_IFSOCK, "socket", "s"),
        (S_IFBLK, "block device", "b"),
        (S_IFCHR, "character device", "c"),
        (S_IFIFO, "named pipe", "p"),
        (0, "unknown", "?"),
    ];
    for (mode, long, short) in cases {
        let file_type = FileType(mode as u16);
        assert_eq!(file_type.name(true), long);
        assert_eq!(file_type.name(false), short);
    }
    let t = FileType(S_IFSOCK as u16);
    assert!(t.is_socket());
    assert!(!t.is_symlink());
    assert!(!t.is_file());
    assert!(FileType(S_IFBLK as u16).is_block_device());
    assert!(!FileType(S_IFBLK as u16).is_character_device());
    assert!(FileType(S_IFCHR as u16).is_character_device());
    assert!(FileType(S_IFIFO as u16).is_named_pipe());
    assert!(!FileType(S_IFSOCK as u16).is_named_pipe());
}

#[test]
fn permissions_symbolic() {
    assert_eq!(Permissions(0o755).symbolic(), b"rwxr-xr-x".to_vec());
    assert_eq!(Permissions(0o640).symbolic(), b"rw-r-----".to_vec());
    assert_eq!(Permissions(0).symbolic(), b"---------".to_vec());
    assert_eq!(Permissions(0o777 | S_IFREG as u16).symbolic(), b"rwxrwxrwx".to_vec());

    let p = Permissions(0o421);
    assert!(p.owner_can_read());
    assert!(!p.owner_can_write());
    assert!(!p.owner_can_execute());
    assert!(!p.group_can_read());
    assert!(p.group_can_write());
    assert!(!p.group_can_execute());
    assert!(!p.others_can_read());
    assert!(!p.others_can_write());
    assert!(p.others_can_execute());
}

#[test]
fn extract_returns_the_paths() {
    let open = OpenOptions::new().kind(Kind::Direct).open(b"/tmp/file".to_vec());
    let fd = open.map_ok(7);
    assert_eq!((fd.fd(), fd.kind()), (7, Kind::Direct));
    let (fd, path) = open.extract().map_ok(7);
    assert_eq!((fd.fd(), fd.kind()), (7, Kind::Direct));
    assert_eq!(path, b"/tmp/file".to_vec());

    let (fd, _) = open_file(b"a".to_vec()).extract().map_ok(3);
    assert_eq!((fd.fd(), fd.kind()), (3, Kind::File));

    assert_eq!(create_dir(b"dir".to_vec()).extract().map_ok(), b"dir".to_vec());
    assert_eq!(remove_file(b"f".to_vec()).extract().map_ok(), b"f".to_vec());
    assert_eq!(remove_dir(b"d".to_vec()).extract().map_ok(), b"d".to_vec());
    let (from, to) = rename(b"old".to_vec(), b"new".to_vec()).extract().map_ok();
    assert_eq!(from, b"old".to_vec());
    assert_eq!(to, b"new".to_vec());
}
