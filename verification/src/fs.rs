//! Filesystem manipulation operations.
//!
//! To open a file use [`open_file`] or [`OpenOptions`]. The functions here
//! build the arguments of the operations and fill the submissions that the
//! kernel reads; the paths are given as the bytes of the path.

pub mod metadata;

use vstd::prelude::*;

use crate::extract::{Extract, Extractor};
use crate::fd::{Descriptor, Kind, encoded};
use crate::fs::metadata::{MetadataInterest, default_metadata_interest, spec_default_metadata_interest};
use crate::sq::Submission;
use crate::sys::{
    AT_EMPTY_PATH, AT_FDCWD, AT_REMOVEDIR, FALLOC_FL_COLLAPSE_RANGE, FALLOC_FL_INSERT_RANGE, FALLOC_FL_KEEP_SIZE, FALLOC_FL_PUNCH_HOLE, FALLOC_FL_UNSHARE_RANGE, FALLOC_FL_ZERO_RANGE, IORING_FILE_INDEX_ALLOC, IORING_FSYNC_DATASYNC, IORING_OP_FADVISE, IORING_OP_FALLOCATE, IORING_OP_FSYNC, IORING_OP_FTRUNCATE, IORING_OP_MKDIRAT, IORING_OP_OPENAT, IORING_OP_RENAMEAT, IORING_OP_STATX, IORING_OP_UNLINKAT, O_ACCMODE, O_APPEND, O_CLOEXEC, O_CREAT, O_DIRECT, O_DSYNC, O_EXCL, O_RDONLY, O_RDWR, O_SYNC, O_TMPFILE, O_TRUNC, O_WRONLY, POSIX_FADV_DONTNEED, POSIX_FADV_NOREUSE, POSIX_FADV_NORMAL, POSIX_FADV_RANDOM, POSIX_FADV_SEQUENTIAL, POSIX_FADV_WILLNEED,
};

verus! {

/// Access mode part of the `open(2)` flags.
pub open spec fn access_mode(flags: i32) -> i32 {
    flags & O_ACCMODE
}

/// Flags after [`OpenOptions::read`].
pub open spec fn read_flags(flags: i32) -> i32 {
    if flags & O_ACCMODE == O_WRONLY {
        (flags & !O_ACCMODE) | O_RDWR
    } else {
        flags
    }
}

/// Flags after [`OpenOptions::write`].
pub open spec fn write_flags(flags: i32) -> i32 {
    if flags & O_ACCMODE == O_RDONLY {
        (flags & !O_ACCMODE) | O_RDWR
    } else {
        flags
    }
}

/// Flags after [`OpenOptions::write_only`].
pub open spec fn write_only_flags(flags: i32) -> i32 {
    (flags & !O_ACCMODE) | O_WRONLY
}

/// Options used to configure how a file is opened.
#[derive(Clone, Copy, Debug)]
pub struct OpenOptions {
    flags: i32,
    mode: u32,
    kind: Kind,
}

impl OpenOptions {
    /// The `open(2)` flags set so far.
    pub closed spec fn spec_flags(&self) -> i32 {
        self.flags
    }

    /// The mode bits a new file is created with.
    pub closed spec fn spec_mode(&self) -> u32 {
        self.mode
    }

    /// The kind of descriptor to open.
    pub closed spec fn spec_kind(&self) -> Kind {
        self.kind
    }

    /// Empty `OpenOptions`, has reading enabled by default.
    pub fn new() -> (o: OpenOptions)
        ensures
            o.spec_flags() == O_RDONLY,
            o.spec_mode() == 0o666,
            o.spec_kind() == Kind::File,
    {
        OpenOptions {
            flags: O_RDONLY,  // NOTE: `O_RDONLY` is 0.
            mode: 0o666,  // Same as in std lib.
            kind: Kind::File,
        }
    }

    /// Returns the `open(2)` flags set so far.
    pub fn flags(&self) -> (f: i32)
        ensures
            f == self.spec_flags(),
    {
        self.flags
    }

    /// Returns the mode bits that a new file will be created with.
    pub fn creation_mode(&self) -> (m: u32)
        ensures
            m == self.spec_mode(),
    {
        self.mode
    }

    /// Returns the kind of descriptor that will be opened.
    pub fn descriptor_kind(&self) -> (k: Kind)
        ensures
            k == self.spec_kind(),
    {
        self.kind
    }

    /// Enable read access.
    ///
    /// Note that read access is already enabled by default, so this is only
    /// useful if you called [`OpenOptions::write_only`] and want to enable read
    /// access as well.
    pub fn read(self) -> (o: Self)
        ensures
            o.spec_flags() == read_flags(self.spec_flags()),
            o.spec_mode() == self.spec_mode(),
            o.spec_kind() == self.spec_kind(),
    {
        let mut this = self;
        if (this.flags & O_ACCMODE) == O_WRONLY {
            this.flags = this.flags & !O_ACCMODE;
            this.flags = this.flags | O_RDWR;
        }  // Else we're already in read mode.
        this
    }

    /// Enable write access.
    pub fn write(self) -> (o: Self)
        ensures
            o.spec_flags() == write_flags(self.spec_flags()),
            o.spec_mode() == self.spec_mode(),
            o.spec_kind() == self.spec_kind(),
    {
        let mut this = self;
        if (this.flags & O_ACCMODE) == O_RDONLY {
            this.flags = this.flags & !O_ACCMODE;
            this.flags = this.flags | O_RDWR;
        }  // Else we're already in write mode.
        this
    }

    /// Only enable write access, disabling read access.
    pub fn write_only(self) -> (o: Self)
        ensures
            o.spec_flags() == write_only_flags(self.spec_flags()),
            o.spec_mode() == self.spec_mode(),
            o.spec_kind() == self.spec_kind(),
    {
        let mut this = self;
        this.flags = this.flags & !O_ACCMODE;
        this.flags = this.flags | O_WRONLY;
        this
    }

    /// Set writing to append only mode.
    ///
    /// # Notes
    ///
    /// This requires [writing access] to be enabled.
    ///
    /// [writing access]: OpenOptions::write
    pub fn append(self) -> (o: Self)
        ensures
            o.spec_flags() == self.spec_flags() | O_APPEND,
            o.spec_mode() == self.spec_mode(),
            o.spec_kind() == self.spec_kind(),
    {
        let mut this = self;
        this.flags = this.flags | O_APPEND;
        this
    }

    /// Truncate the file if it exists.
    pub fn truncate(self) -> (o: Self)
        ensures
            o.spec_flags() == self.spec_flags() | O_TRUNC,
            o.spec_mode() == self.spec_mode(),
            o.spec_kind() == self.spec_kind(),
    {
        let mut this = self;
        this.flags = this.flags | O_TRUNC;
        this
    }

    /// If the file doesn't exist create it.
    pub fn create(self) -> (o: Self)
        ensures
            o.spec_flags() == self.spec_flags() | O_CREAT,
            o.spec_mode() == self.spec_mode(),
            o.spec_kind() == self.spec_kind(),
    {
        let mut this = self;
        this.flags = this.flags | O_CREAT;
        this
    }

    /// Force a file to be created, failing if a file already exists.
    ///
    /// This options implies [`OpenOptions::create`].
    pub fn create_new(self) -> (o: Self)
        ensures
            o.spec_flags() == self.spec_flags() | (O_CREAT | O_EXCL),
            o.spec_mode() == self.spec_mode(),
            o.spec_kind() == self.spec_kind(),
    {
        let mut this = self;
        this.flags = this.flags | (O_CREAT | O_EXCL);
        this
    }

    /// Write operations on the file will complete according to the requirements
    /// of synchronized I/O *data* integrity completion.
    pub fn data_sync(self) -> (o: Self)
        ensures
            o.spec_flags() == self.spec_flags() | O_DSYNC,
            o.spec_mode() == self.spec_mode(),
            o.spec_kind() == self.spec_kind(),
    {
        let mut this = self;
        this.flags = this.flags | O_DSYNC;
        this
    }

    /// Write operations on the file will complete according to the requirements
    /// of synchronized I/O *file* integrity completion.
    pub fn sync(self) -> (o: Self)
        ensures
            o.spec_flags() == self.spec_flags() | O_SYNC,
            o.spec_mode() == self.spec_mode(),
            o.spec_kind() == self.spec_kind(),
    {
        let mut this = self;
        this.flags = this.flags | O_SYNC;
        this
    }

    /// Try to minimize cache effects of the I/O to and from this file.
    pub fn direct(self) -> (o: Self)
        ensures
            o.spec_flags() == self.spec_flags() | O_DIRECT,
            o.spec_mode() == self.spec_mode(),
            o.spec_kind() == self.spec_kind(),
    {
        let mut this = self;
        this.flags = this.flags | O_DIRECT;
        this
    }

    /// Sets the mode bits that a new file will be created with.
    pub fn mode(self, mode: u32) -> (o: Self)
        ensures
            o.spec_flags() == self.spec_flags(),
            o.spec_mode() == mode,
            o.spec_kind() == self.spec_kind(),
    {
        let mut this = self;
        this.mode = mode;
        this
    }

    /// Set the kind of descriptor to use.
    ///
    /// Defaults to a regular [`Kind::File`] descriptor.
    pub fn kind(self, kind: Kind) -> (o: Self)
        ensures
            o.spec_flags() == self.spec_flags(),
            o.spec_mode() == self.spec_mode(),
            o.spec_kind() == kind,
    {
        let mut this = self;
        this.kind = kind;
        this
    }

    /// Create an unnamed temporary regular file in the directory `dir`.
    ///
    /// [`OpenOptions::write`] must be set.
    pub fn open_temp_file(self, dir: Vec<u8>) -> (op: Open)
        ensures
            op.path@ == dir@,
            op.kind == self.spec_kind(),
            op.flags == (self.spec_flags() | O_TMPFILE) | self.spec_kind().cloexec_flag(),
            op.mode == self.spec_mode(),
    {
        let mut this = self;
        this.flags = this.flags | O_TMPFILE;
        this.open(dir)
    }

    /// Open `path`.
    pub fn open(self, path: Vec<u8>) -> (op: Open)
        ensures
            op.path@ == path@,
            op.kind == self.spec_kind(),
            op.flags == self.spec_flags() | self.spec_kind().cloexec_flag(),
            op.mode == self.spec_mode(),
    {
        let flags = self.flags | self.kind.cloexec_flag();
        Open { path, kind: self.kind, flags, mode: self.mode }
    }
}

/// Reading and writing are both enabled after `read` and `write`, whatever the
/// order, and the other flags are left alone.
pub proof fn lemma_read_write_gives_read_write(flags: i32)
    requires
        access_mode(flags) != O_ACCMODE,
    ensures
        access_mode(read_flags(write_flags(flags))) == O_RDWR,
        access_mode(write_flags(read_flags(flags))) == O_RDWR,
        read_flags(write_flags(flags)) & !O_ACCMODE == flags & !O_ACCMODE,
        write_flags(read_flags(flags)) & !O_ACCMODE == flags & !O_ACCMODE,
{
    assert((flags & 3) != 3 ==> (flags & 3 == 0 || flags & 3 == 1 || flags & 3 == 2)) by (bit_vector);
    assert(((flags & !3i32) | 2) & 3 == 2) by (bit_vector);
    assert(((flags & !3i32) | 2) & !3i32 == flags & !3i32) by (bit_vector);
}

/// Enabling read access keeps a mode that allows reading and leaves the other
/// flags alone; the same holds for write access.
pub proof fn lemma_access_modes(flags: i32)
    requires
        access_mode(flags) != O_ACCMODE,
    ensures
        access_mode(read_flags(flags)) == O_RDONLY || access_mode(read_flags(flags)) == O_RDWR,
        access_mode(write_flags(flags)) == O_WRONLY || access_mode(write_flags(flags)) == O_RDWR,
        access_mode(write_only_flags(flags)) == O_WRONLY,
        read_flags(flags) & !O_ACCMODE == flags & !O_ACCMODE,
        write_flags(flags) & !O_ACCMODE == flags & !O_ACCMODE,
        write_only_flags(flags) & !O_ACCMODE == flags & !O_ACCMODE,
{
    assert((flags & 3) != 3 ==> (flags & 3 == 0 || flags & 3 == 1 || flags & 3 == 2)) by (bit_vector);
    assert(((flags & !3i32) | 2) & 3 == 2) by (bit_vector);
    assert(((flags & !3i32) | 2) & !3i32 == flags & !3i32) by (bit_vector);
    assert(((flags & !3i32) | 1) & 3 == 1) by (bit_vector);
    assert(((flags & !3i32) | 1) & !3i32 == flags & !3i32) by (bit_vector);
}

/// Arguments of an `openat(2)` operation.
#[derive(Debug)]
pub struct Open {
    /// Path to open.
    pub path: Vec<u8>,
    /// Kind of descriptor to create.
    pub kind: Kind,
    /// `open(2)` flags.
    pub flags: i32,
    /// Mode of a created file.
    pub mode: u32,
}

impl Open {
    /// Fill `submission` to open the path, which is stored at `path_addr`.
    pub fn fill_submission(&self, path_addr: u64, submission: &mut Submission)
        ensures
            *final(submission) == (match self.kind {
                Kind::File => Submission {
                    opcode: IORING_OP_OPENAT,
                    fd: AT_FDCWD,
                    addr: path_addr,
                    len: self.mode,
                    op_flags: self.flags as u32,
                    ..*old(submission)
                },
                Kind::Direct => Submission {
                    opcode: IORING_OP_OPENAT,
                    fd: AT_FDCWD,
                    addr: path_addr,
                    len: self.mode,
                    op_flags: self.flags as u32,
                    file_index: IORING_FILE_INDEX_ALLOC,
                    ..*old(submission)
                },
            }),
    {
        submission.opcode = IORING_OP_OPENAT;
        submission.fd = AT_FDCWD;
        submission.addr = path_addr;
        submission.len = self.mode;
        submission.op_flags = self.flags as u32;
        self.kind.create_flags(submission);
    }

    /// The opened descriptor, from the completion result `res`.
    pub fn map_ok(&self, res: u32) -> (fd: Descriptor)
        ensures
            fd.spec_raw() == encoded(res as i32, self.kind),
    {
        Descriptor::from_raw(#[verifier::truncate] (res as i32), self.kind)
    }
}

impl Extract for Open {}

impl Extractor<Open> {
    /// The opened descriptor and the path, from the completion result `res`.
    pub fn map_ok(self, res: u32) -> (r: (Descriptor, Vec<u8>))
        ensures
            r.0.spec_raw() == encoded(res as i32, self.fut.kind),
            r.1@ == self.fut.path@,
    {
        let fd = self.fut.map_ok(res);
        (fd, self.fut.path)
    }
}

/// Open a file in read-only mode.
pub fn open_file(path: Vec<u8>) -> (op: Open)
    ensures
        op.path@ == path@,
        op.kind == Kind::File,
        op.flags == O_RDONLY | O_CLOEXEC,
        op.mode == 0o666,
{
    assert(0i32 & 3i32 == 0) by (bit_vector);
    OpenOptions::new().read().open(path)
}

/// Arguments of a `mkdirat(2)` operation: creates a new, empty directory.
#[derive(Debug)]
pub struct CreateDir {
    /// Path of the directory.
    pub path: Vec<u8>,
}

impl CreateDir {
    /// Fill `submission` to create the directory, whose path is stored at
    /// `path_addr`.
    pub fn fill_submission(&self, path_addr: u64, submission: &mut Submission)
        ensures
            *final(submission) == (Submission {
                opcode: IORING_OP_MKDIRAT,
                fd: AT_FDCWD,
                addr: path_addr,
                len: 0o777,
                ..*old(submission)
            }),
    {
        submission.opcode = IORING_OP_MKDIRAT;
        submission.fd = AT_FDCWD;
        submission.addr = path_addr;
        submission.len = 0o777;  // Same as used by the standard library.
    }
}

impl Extract for CreateDir {}

impl Extractor<CreateDir> {
    /// The path of the created directory, once the operation completed.
    pub fn map_ok(self) -> (path: Vec<u8>)
        ensures
            path@ == self.fut.path@,
    {
        self.fut.path
    }
}

/// Creates a new, empty directory.
pub fn create_dir(path: Vec<u8>) -> (op: CreateDir)
    ensures
        op.path@ == path@,
{
    CreateDir { path }
}

/// Arguments of a `renameat(2)` operation.
#[derive(Debug)]
pub struct Rename {
    /// Current path.
    pub from: Vec<u8>,
    /// New path.
    pub to: Vec<u8>,
}

impl Rename {
    /// Fill `submission` to rename the file, the paths are stored at
    /// `from_addr` and `to_addr`.
    pub fn fill_submission(&self, from_addr: u64, to_addr: u64, submission: &mut Submission)
        ensures
            *final(submission) == (Submission {
                opcode: IORING_OP_RENAMEAT,
                fd: AT_FDCWD,
                off: to_addr,
                addr: from_addr,
                len: AT_FDCWD as u32,
                ..*old(submission)
            }),
    {
        submission.opcode = IORING_OP_RENAMEAT;
        submission.fd = AT_FDCWD;
        submission.off = to_addr;
        submission.addr = from_addr;
        submission.len = AT_FDCWD as u32;
    }
}

impl Extract for Rename {}

impl Extractor<Rename> {
    /// The old and the new path, once the operation completed.
    pub fn map_ok(self) -> (paths: (Vec<u8>, Vec<u8>))
        ensures
            paths.0@ == self.fut.from@,
            paths.1@ == self.fut.to@,
    {
        (self.fut.from, self.fut.to)
    }
}

/// Rename a file or directory to a new name.
pub fn rename(from: Vec<u8>, to: Vec<u8>) -> (op: Rename)
    ensures
        op.from@ == from@,
        op.to@ == to@,
{
    Rename { from, to }
}

/// What [`Delete`] removes.
#[derive(Copy, Clone, Debug, PartialEq, Eq)]
pub enum RemoveFlag {
    File,
    Directory,
}

/// Arguments of an `unlinkat(2)` operation.
#[derive(Debug)]
pub struct Delete {
    /// Path to remove.
    pub path: Vec<u8>,
    /// Remove a file or a directory.
    pub flag: RemoveFlag,
}

impl Delete {
    /// Fill `submission` to remove the path, which is stored at `path_addr`.
    pub fn fill_submission(&self, path_addr: u64, submission: &mut Submission)
        ensures
            *final(submission) == (Submission {
                opcode: IORING_OP_UNLINKAT,
                fd: AT_FDCWD,
                addr: path_addr,
                op_flags: (match self.flag {
                    RemoveFlag::File => 0u32,
                    RemoveFlag::Directory => AT_REMOVEDIR as u32,
                }),
                ..*old(submission)
            }),
    {
        submission.opcode = IORING_OP_UNLINKAT;
        submission.fd = AT_FDCWD;
        submission.addr = path_addr;
        let flags = match self.flag {
            RemoveFlag::File => 0,
            RemoveFlag::Directory => AT_REMOVEDIR,
        };
        submission.op_flags = flags as u32;
    }
}

impl Extract for Delete {}

impl Extractor<Delete> {
    /// The removed path, once the operation completed.
    pub fn map_ok(self) -> (path: Vec<u8>)
        ensures
            path@ == self.fut.path@,
    {
        self.fut.path
    }
}

/// Remove a file.
pub fn remove_file(path: Vec<u8>) -> (op: Delete)
    ensures
        op.path@ == path@,
        op.flag == RemoveFlag::File,
{
    Delete { path, flag: RemoveFlag::File }
}

/// Remove a directory.
pub fn remove_dir(path: Vec<u8>) -> (op: Delete)
    ensures
        op.path@ == path@,
        op.flag == RemoveFlag::Directory,
{
    Delete { path, flag: RemoveFlag::Directory }
}

/// What [`SyncData`] synchronises.
#[derive(Copy, Clone, Debug, PartialEq, Eq)]
pub enum SyncDataFlag {
    /// Data and metadata (`fsync(2)`).
    All,
    /// Only data (`fdatasync(2)`).
    Data,
}

/// Arguments of an `fsync(2)` operation.
#[derive(Copy, Clone, Debug)]
pub struct SyncData {
    /// What to synchronise.
    pub flag: SyncDataFlag,
}

impl SyncData {
    /// Sync all OS-internal metadata to disk.
    pub fn sync_all() -> (op: SyncData)
        ensures
            op.flag == SyncDataFlag::All,
    {
        SyncData { flag: SyncDataFlag::All }
    }

    /// Sync the data to disk, but not necessarily the metadata.
    pub fn sync_data() -> (op: SyncData)
        ensures
            op.flag == SyncDataFlag::Data,
    {
        SyncData { flag: SyncDataFlag::Data }
    }

    /// Fill `submission` to sync the file `fd`.
    pub fn fill_submission(&self, fd: &Descriptor, submission: &mut Submission)
        ensures
            *final(submission) == (Submission {
                opcode: IORING_OP_FSYNC,
                fd: fd.spec_raw() & 0x7fff_ffff,
                op_flags: (match self.flag {
                    SyncDataFlag::All => 0u32,
                    SyncDataFlag::Data => IORING_FSYNC_DATASYNC,
                }),
                ..*old(submission)
            }),
    {
        submission.opcode = IORING_OP_FSYNC;
        submission.fd = fd.fd();
        let fsync_flags = match self.flag {
            SyncDataFlag::All => 0,
            SyncDataFlag::Data => IORING_FSYNC_DATASYNC,
        };
        submission.op_flags = fsync_flags;
    }
}

/// A [`Stat`] changed to ask for `mask`, unless it was submitted.
pub open spec fn stat_only(s: Stat, mask: MetadataInterest) -> Stat {
    if s.submitted {
        s
    } else {
        Stat { interest: mask, ..s }
    }
}

/// Once a [`Stat`] was submitted, changing what it asks for has no effect;
/// before, it asks for exactly the new interest.
pub proof fn lemma_only_after_submission(s: Stat, mask: MetadataInterest)
    ensures
        stat_only(Stat { submitted: true, ..s }, mask) == (Stat { submitted: true, ..s }),
        !s.submitted ==> stat_only(s, mask).interest == mask,
{
}

/// Arguments of a `statx(2)` operation retrieving the metadata of a file.
#[derive(Copy, Clone, Debug)]
pub struct Stat {
    /// Which field(s) of the metadata the kernel should fill.
    pub interest: MetadataInterest,
    /// The operation was submitted: its arguments no longer change.
    pub submitted: bool,
}

impl Stat {
    /// Retrieve the default metadata: all the fields [`Metadata`] has
    /// accessors for.
    ///
    /// [`Metadata`]: crate::fs::metadata::Metadata
    pub fn new() -> (op: Stat)
        ensures
            op.interest.0 == spec_default_metadata_interest(),
            !op.submitted,
    {
        Stat { interest: default_metadata_interest(), submitted: false }
    }

    /// Set which field(s) of the metadata the kernel should fill.
    ///
    /// Defaults to filling some basic fields. Once the operation was
    /// submitted this has no effect.
    pub fn only(self, mask: MetadataInterest) -> (op: Self)
        ensures
            op == stat_only(self, mask),
    {
        let mut this = self;
        if !this.submitted {
            this.interest = mask;
        }
        this
    }

    /// Fill `submission` to retrieve the metadata of the file `fd` into the
    /// buffer at `metadata_addr`; `empty_path_addr` is the address of an empty
    /// path.
    pub fn fill_submission(
        &mut self,
        fd: &Descriptor,
        metadata_addr: u64,
        empty_path_addr: u64,
        submission: &mut Submission,
    )
        ensures
            *final(self) == (Stat { submitted: true, ..*old(self) }),
            *final(submission) == (Submission {
                opcode: IORING_OP_STATX,
                fd: fd.spec_raw() & 0x7fff_ffff,
                off: metadata_addr,
                addr: empty_path_addr,
                len: old(self).interest.0,
                op_flags: AT_EMPTY_PATH as u32,
                ..*old(submission)
            }),
    {
        submission.opcode = IORING_OP_STATX;
        submission.fd = fd.fd();
        submission.off = metadata_addr;
        submission.addr = empty_path_addr;  // Not using a path.
        submission.len = self.interest.0;
        submission.op_flags = AT_EMPTY_PATH as u32;
        self.submitted = true;
    }
}

/// Advise about data access, see [`Advise`].
#[derive(Copy, Clone, Debug, PartialEq, Eq)]
pub struct AdviseFlag(pub u32);

impl AdviseFlag {
    /// No advice.
    #[allow(non_snake_case)]
    pub fn NORMAL() -> (r: AdviseFlag)
        ensures
            r.0 == POSIX_FADV_NORMAL,
    {
        AdviseFlag(POSIX_FADV_NORMAL)
    }

    /// Data will be accessed sequentially.
    #[allow(non_snake_case)]
    pub fn SEQUENTIAL() -> (r: AdviseFlag)
        ensures
            r.0 == POSIX_FADV_SEQUENTIAL,
    {
        AdviseFlag(POSIX_FADV_SEQUENTIAL)
    }

    /// Data will be accessed randomly.
    #[allow(non_snake_case)]
    pub fn RANDOM() -> (r: AdviseFlag)
        ensures
            r.0 == POSIX_FADV_RANDOM,
    {
        AdviseFlag(POSIX_FADV_RANDOM)
    }

    /// Data will be accessed only once.
    #[allow(non_snake_case)]
    pub fn NO_REUSE() -> (r: AdviseFlag)
        ensures
            r.0 == POSIX_FADV_NOREUSE,
    {
        AdviseFlag(POSIX_FADV_NOREUSE)
    }

    /// Data will be accessed in the near future.
    #[allow(non_snake_case)]
    pub fn WILL_NEED() -> (r: AdviseFlag)
        ensures
            r.0 == POSIX_FADV_WILLNEED,
    {
        AdviseFlag(POSIX_FADV_WILLNEED)
    }

    /// Data will not be accessed in the near future.
    #[allow(non_snake_case)]
    pub fn DONT_NEED() -> (r: AdviseFlag)
        ensures
            r.0 == POSIX_FADV_DONTNEED,
    {
        AdviseFlag(POSIX_FADV_DONTNEED)
    }
}

/// Arguments of a `posix_fadvise(2)` operation: predeclare an access
/// pattern for file data.
#[derive(Copy, Clone, Debug)]
pub struct Advise {
    /// Start of the region.
    pub offset: u64,
    /// Length of the region, zero means until the end of the file.
    pub length: u32,
    /// The advice.
    pub advice: AdviseFlag,
}

impl Advise {
    /// Fill `submission` to give the advice for the file `fd`.
    pub fn fill_submission(&self, fd: &Descriptor, submission: &mut Submission)
        ensures
            *final(submission) == (Submission {
                opcode: IORING_OP_FADVISE,
                fd: fd.spec_raw() & 0x7fff_ffff,
                off: self.offset,
                len: self.length,
                op_flags: self.advice.0,
                ..*old(submission)
            }),
    {
        submission.opcode = IORING_OP_FADVISE;
        submission.fd = fd.fd();
        submission.off = self.offset;
        submission.len = self.length;
        submission.op_flags = self.advice.0;
    }
}

/// Mode for [`Allocate`].
#[derive(Copy, Clone, Debug, PartialEq, Eq)]
pub struct AllocateFlag(pub u32);

impl AllocateFlag {
    /// Keep the same file size.
    #[allow(non_snake_case)]
    pub fn KEEP_SIZE() -> (r: AllocateFlag)
        ensures
            r.0 == FALLOC_FL_KEEP_SIZE,
    {
        AllocateFlag(FALLOC_FL_KEEP_SIZE)
    }

    /// Guarantee that a subsequent write will not fail due to lack of space.
    #[allow(non_snake_case)]
    pub fn UNSHARE_RANGE() -> (r: AllocateFlag)
        ensures
            r.0 == FALLOC_FL_UNSHARE_RANGE,
    {
        AllocateFlag(FALLOC_FL_UNSHARE_RANGE)
    }

    /// Deallocate the space.
    #[allow(non_snake_case)]
    pub fn PUNCH_HOLE() -> (r: AllocateFlag)
        ensures
            r.0 == FALLOC_FL_PUNCH_HOLE,
    {
        AllocateFlag(FALLOC_FL_PUNCH_HOLE)
    }

    /// Remove the byte range from the file, without leaving a hole.
    #[allow(non_snake_case)]
    pub fn COLLAPSE_RANGE() -> (r: AllocateFlag)
        ensures
            r.0 == FALLOC_FL_COLLAPSE_RANGE,
    {
        AllocateFlag(FALLOC_FL_COLLAPSE_RANGE)
    }

    /// Zero the byte range.
    #[allow(non_snake_case)]
    pub fn ZERO_RANGE() -> (r: AllocateFlag)
        ensures
            r.0 == FALLOC_FL_ZERO_RANGE,
    {
        AllocateFlag(FALLOC_FL_ZERO_RANGE)
    }

    /// Insert a hole in the file without overwriting any existing data.
    #[allow(non_snake_case)]
    pub fn INSERT_RANGE() -> (r: AllocateFlag)
        ensures
            r.0 == FALLOC_FL_INSERT_RANGE,
    {
        AllocateFlag(FALLOC_FL_INSERT_RANGE)
    }
}

impl std::ops::BitOr for AllocateFlag {
    type Output = Self;

    fn bitor(self, rhs: Self) -> (r: Self::Output) {
        AllocateFlag(self.0 | rhs.0)
    }
}

impl vstd::std_specs::ops::BitOrSpecImpl for AllocateFlag {
    open spec fn obeys_bitor_spec() -> bool {
        true
    }

    open spec fn bitor_req(self, rhs: Self) -> bool {
        true
    }

    open spec fn bitor_spec(self, rhs: Self) -> Self {
        AllocateFlag(self.0 | rhs.0)
    }
}

/// Arguments of a `fallocate(2)` operation: manipulate the allocated disk
/// space of a file.
#[derive(Copy, Clone, Debug)]
pub struct Allocate {
    /// Start of the byte range.
    pub offset: u64,
    /// Length of the byte range.
    pub length: u32,
    /// What to do with the byte range.
    pub mode: AllocateFlag,
}

impl Allocate {
    /// Manipulate the allocated disk space for the byte range starting at
    /// `offset` and continuing for `length` bytes; without a `mode` the space
    /// is allocated.
    pub fn new(offset: u64, length: u32, mode: Option<AllocateFlag>) -> (op: Allocate)
        ensures
            op.offset == offset,
            op.length == length,
            op.mode == (match mode {
                Some(mode) => mode,
                None => AllocateFlag(0),
            }),
    {
        let mode = match mode {
            Some(mode) => mode,
            None => AllocateFlag(0),
        };
        Allocate { offset, length, mode }
    }

    /// Fill `submission` to manipulate the space of the file `fd`.
    pub fn fill_submission(&self, fd: &Descriptor, submission: &mut Submission)
        ensures
            *final(submission) == (Submission {
                opcode: IORING_OP_FALLOCATE,
                fd: fd.spec_raw() & 0x7fff_ffff,
                off: self.offset,
                addr: self.length as u64,
                len: self.mode.0,
                ..*old(submission)
            }),
    {
        submission.opcode = IORING_OP_FALLOCATE;
        submission.fd = fd.fd();
        submission.off = self.offset;
        submission.addr = self.length as u64;
        submission.len = self.mode.0;
    }
}

/// Arguments of an `ftruncate(2)` operation: truncate or extend a file to
/// `length` bytes.
#[derive(Copy, Clone, Debug)]
pub struct Truncate {
    /// New length of the file.
    pub length: u64,
}

impl Truncate {
    /// Fill `submission` to truncate the file `fd`.
    pub fn fill_submission(&self, fd: &Descriptor, submission: &mut Submission)
        ensures
            *final(submission) == (Submission {
                opcode: IORING_OP_FTRUNCATE,
                fd: fd.spec_raw() & 0x7fff_ffff,
                off: self.length,
                ..*old(submission)
            }),
    {
        submission.opcode = IORING_OP_FTRUNCATE;
        submission.fd = fd.fd();
        submission.off = self.length;
    }
}

} // verus!
