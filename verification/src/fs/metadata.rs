//! Metadata of files: type, permissions, size and times.

use vstd::prelude::*;

use crate::sys::{
    S_IFBLK, S_IFCHR, S_IFDIR, S_IFIFO, S_IFLNK, S_IFMT, S_IFREG, S_IFSOCK, S_IRGRP, S_IROTH,
    S_IRUSR, S_IWGRP, S_IWOTH, S_IWUSR, S_IXGRP, S_IXOTH, S_IXUSR, STATX_ATIME, STATX_BLOCKS,
    STATX_BTIME, STATX_MODE, STATX_MTIME, STATX_SIZE, STATX_TYPE,
};

verus! {

/// Interest in specific metadata.
#[derive(Copy, Clone, Debug, PartialEq, Eq)]
pub struct MetadataInterest(pub u32);

impl MetadataInterest {
    /// Enables [`Metadata::file_type`] and related `is_*` methods.
    #[allow(non_snake_case)]
    pub fn TYPE() -> (r: MetadataInterest)
        ensures
            r.0 == STATX_TYPE,
    {
        MetadataInterest(STATX_TYPE)
    }
    /// Enables [`Metadata::len`].
    #[allow(non_snake_case)]
    pub fn SIZE() -> (r: MetadataInterest)
        ensures
            r.0 == STATX_SIZE,
    {
        MetadataInterest(STATX_SIZE)
    }
    /// Enables [`Metadata::block_size`].
    #[allow(non_snake_case)]
    pub fn BLOCKS() -> (r: MetadataInterest)
        ensures
            r.0 == STATX_BLOCKS,
    {
        MetadataInterest(STATX_BLOCKS)
    }
    /// Enables [`Metadata::permissions`].
    #[allow(non_snake_case)]
    pub fn MODE() -> (r: MetadataInterest)
        ensures
            r.0 == STATX_MODE,
    {
        MetadataInterest(STATX_MODE)
    }
    /// Enables [`Metadata::modified`].
    #[allow(non_snake_case)]
    pub fn MODIFIED_TIME() -> (r: MetadataInterest)
        ensures
            r.0 == STATX_MTIME,
    {
        MetadataInterest(STATX_MTIME)
    }
    /// Enables [`Metadata::accessed`].
    #[allow(non_snake_case)]
    pub fn ACCESSED_TIME() -> (r: MetadataInterest)
        ensures
            r.0 == STATX_ATIME,
    {
        MetadataInterest(STATX_ATIME)
    }
    /// Enables [`Metadata::created`].
    #[allow(non_snake_case)]
    pub fn CREATED_TIME() -> (r: MetadataInterest)
        ensures
            r.0 == STATX_BTIME,
    {
        MetadataInterest(STATX_BTIME)
    }
}

impl std::ops::BitOr for MetadataInterest {
    type Output = Self;

    fn bitor(self, rhs: Self) -> (r: Self::Output) {
        MetadataInterest(self.0 | rhs.0)
    }
}

impl vstd::std_specs::ops::BitOrSpecImpl for MetadataInterest {
    open spec fn obeys_bitor_spec() -> bool {
        true
    }

    open spec fn bitor_req(self, rhs: Self) -> bool {
        true
    }

    open spec fn bitor_spec(self, rhs: Self) -> Self {
        MetadataInterest(self.0 | rhs.0)
    }
}

/// The interest used when none is given: all the fields [`Metadata`] has
/// accessors for.
pub open spec fn spec_default_metadata_interest() -> u32 {
    STATX_TYPE | STATX_MODE | STATX_SIZE | STATX_BLOCKS | STATX_MTIME | STATX_ATIME | STATX_BTIME
}

/// Returns the interest used when none is given.
pub fn default_metadata_interest() -> (r: MetadataInterest)
    ensures
        r.0 == spec_default_metadata_interest(),
{
    MetadataInterest(
        STATX_TYPE | STATX_MODE | STATX_SIZE | STATX_BLOCKS | STATX_MTIME | STATX_ATIME
            | STATX_BTIME,
    )
}

/// A point in time, relative to the Unix epoch.
#[derive(Copy, Clone, Debug, PartialEq, Eq)]
pub struct Timestamp {
    /// Whole seconds since the epoch, negative before it.
    pub secs: i64,
    /// Nanoseconds added to `secs`.
    pub nanos: u32,
}

impl Timestamp {
    /// Nanoseconds since the epoch, negative before it.
    pub open spec fn spec_as_nanos(&self) -> int {
        self.secs * 1_000_000_000 + self.nanos
    }

    /// Returns the number of nanoseconds since the epoch.
    pub fn as_nanos(&self) -> (n: i128)
        ensures
            n == self.spec_as_nanos(),
    {
        proof {
            assert(-0x8000_0000_0000_0000int * 1_000_000_000 <= self.secs * 1_000_000_000
                <= 0x7fff_ffff_ffff_ffffint * 1_000_000_000) by (nonlinear_arith)
                requires
                    -0x8000_0000_0000_0000int <= self.secs <= 0x7fff_ffff_ffff_ffffint,
            ;
        }
        (self.secs as i128) * 1_000_000_000 + (self.nanos as i128)
    }
}

/// Metadata information about a file, as filled by `statx(2)`.
#[derive(Copy, Clone, Debug, PartialEq, Eq)]
pub struct Metadata {
    /// Which fields the kernel filled (`stx_mask`).
    pub mask: u32,
    /// The "preferred" block size for efficient I/O (`stx_blksize`).
    pub blksize: u32,
    /// File type and mode (`stx_mode`).
    pub mode: u16,
    /// Size in bytes (`stx_size`).
    pub size: u64,
    /// Last access (`stx_atime`).
    pub accessed_at: Timestamp,
    /// Creation (`stx_btime`).
    pub created_at: Timestamp,
    /// Last modification (`stx_mtime`).
    pub modified_at: Timestamp,
}

impl Metadata {
    /// Which field(s) of the metadata are filled (based on the provided
    /// interest).
    pub fn filled(&self) -> (r: MetadataInterest)
        ensures
            r.0 == self.mask,
    {
        MetadataInterest(self.mask)
    }

    /// Returns the file type for this metadata.
    pub fn file_type(&self) -> (r: FileType)
        ensures
            r.0 == self.mode,
    {
        FileType(self.mode)
    }

    /// Returns `true` if this represents a directory.
    pub fn is_dir(&self) -> (r: bool)
        ensures
            r == has_type(self.mode, S_IFDIR),
    {
        self.file_type().is_dir()
    }

    /// Returns `true` if this represents a file.
    pub fn is_file(&self) -> (r: bool)
        ensures
            r == has_type(self.mode, S_IFREG),
    {
        self.file_type().is_file()
    }

    /// Returns `true` if this represents a symbolic link.
    pub fn is_symlink(&self) -> (r: bool)
        ensures
            r == has_type(self.mode, S_IFLNK),
    {
        self.file_type().is_symlink()
    }

    /// Returns the size of the file, in bytes, this metadata is for.
    pub fn len(&self) -> (r: u64)
        ensures
            r == self.size,
    {
        self.size
    }

    /// The "preferred" block size for efficient filesystem I/O.
    pub fn block_size(&self) -> (r: u32)
        ensures
            r == self.blksize,
    {
        self.blksize
    }

    /// Returns the permissions of the file this metadata is for.
    pub fn permissions(&self) -> (r: Permissions)
        ensures
            r.0 == self.mode,
    {
        Permissions(self.mode)
    }

    /// Returns the time this file was last modified.
    pub fn modified(&self) -> (r: Timestamp)
        ensures
            r == self.modified_at,
    {
        self.modified_at
    }

    /// Returns the time this file was last accessed.
    ///
    /// # Notes
    ///
    /// It's possible to disable keeping track of this access time, which makes
    /// this function return an invalid value.
    pub fn accessed(&self) -> (r: Timestamp)
        ensures
            r == self.accessed_at,
    {
        self.accessed_at
    }

    /// Returns the time this file was created.
    pub fn created(&self) -> (r: Timestamp)
        ensures
            r == self.created_at,
    {
        self.created_at
    }
}

/// True if the type bits of `mode` are those of `file_type`.
pub open spec fn has_type(mode: u16, file_type: u32) -> bool {
    (mode & (S_IFMT as u16)) == file_type as u16
}

/// A structure representing a type of file with accessors for each file type.
#[derive(Copy, Clone, Debug, PartialEq, Eq)]
pub struct FileType(pub u16);

/// How a file type is shown: the long name used by the alternate format, or
/// the single character used by `ls(1)`.
pub open spec fn file_type_name(mode: u16, alternate: bool) -> Seq<char> {
    if has_type(mode, S_IFDIR) {
        if alternate { "directory"@ } else { "d"@ }
    } else if has_type(mode, S_IFREG) {
        if alternate { "file"@ } else { "-"@ }
    } else if has_type(mode, S_IFLNK) {
        if alternate { "symbolic link"@ } else { "l"@ }
    } else if has_type(mode, S_IFSOCK) {
        if alternate { "socket"@ } else { "s"@ }
    } else if has_type(mode, S_IFBLK) {
        if alternate { "block device"@ } else { "b"@ }
    } else if has_type(mode, S_IFCHR) {
        if alternate { "character device"@ } else { "c"@ }
    } else if has_type(mode, S_IFIFO) {
        if alternate { "named pipe"@ } else { "p"@ }
    } else {
        if alternate { "unknown"@ } else { "?"@ }
    }
}

impl FileType {
    /// Returns `true` if this represents a directory.
    pub fn is_dir(&self) -> (r: bool)
        ensures
            r == has_type(self.0, S_IFDIR),
    {
        (self.0 & S_IFMT as u16) == S_IFDIR as u16
    }

    /// Returns `true` if this represents a file.
    pub fn is_file(&self) -> (r: bool)
        ensures
            r == has_type(self.0, S_IFREG),
    {
        (self.0 & S_IFMT as u16) == S_IFREG as u16
    }

    /// Returns `true` if this represents a symbolic link.
    pub fn is_symlink(&self) -> (r: bool)
        ensures
            r == has_type(self.0, S_IFLNK),
    {
        (self.0 & S_IFMT as u16) == S_IFLNK as u16
    }

    /// Returns `true` if this represents a socket.
    pub fn is_socket(&self) -> (r: bool)
        ensures
            r == has_type(self.0, S_IFSOCK),
    {
        (self.0 & S_IFMT as u16) == S_IFSOCK as u16
    }

    /// Returns `true` if this represents a block device.
    pub fn is_block_device(&self) -> (r: bool)
        ensures
            r == has_type(self.0, S_IFBLK),
    {
        (self.0 & S_IFMT as u16) == S_IFBLK as u16
    }

    /// Returns `true` if this represents a character device.
    pub fn is_character_device(&self) -> (r: bool)
        ensures
            r == has_type(self.0, S_IFCHR),
    {
        (self.0 & S_IFMT as u16) == S_IFCHR as u16
    }

    /// Returns `true` if this represents a named fifo pipe.
    pub fn is_named_pipe(&self) -> (r: bool)
        ensures
            r == has_type(self.0, S_IFIFO),
    {
        (self.0 & S_IFMT as u16) == S_IFIFO as u16
    }

    /// The name used when formatting the file type: the long name if
    /// `alternate`, else the character `ls(1)` uses.
    pub fn name(&self, alternate: bool) -> (s: &'static str)
        ensures
            s@ == file_type_name(self.0, alternate),
    {
        if self.is_dir() {
            if alternate { "directory" } else { "d" }
        } else if self.is_file() {
            if alternate { "file" } else { "-" }
        } else if self.is_symlink() {
            if alternate { "symbolic link" } else { "l" }
        } else if self.is_socket() {
            if alternate { "socket" } else { "s" }
        } else if self.is_block_device() {
            if alternate { "block device" } else { "b" }
        } else if self.is_character_device() {
            if alternate { "character device" } else { "c" }
        } else if self.is_named_pipe() {
            if alternate { "named pipe" } else { "p" }
        } else {
            if alternate { "unknown" } else { "?" }
        }
    }
}

/// A file has at most one type.
pub proof fn lemma_file_type_exclusive(mode: u16)
    ensures
        has_type(mode, S_IFDIR) ==> !has_type(mode, S_IFREG) && !has_type(mode, S_IFLNK)
            && !has_type(mode, S_IFSOCK) && !has_type(mode, S_IFBLK) && !has_type(mode, S_IFCHR)
            && !has_type(mode, S_IFIFO),
        has_type(mode, S_IFREG) ==> !has_type(mode, S_IFLNK) && !has_type(mode, S_IFSOCK)
            && !has_type(mode, S_IFBLK) && !has_type(mode, S_IFCHR) && !has_type(mode, S_IFIFO),
        has_type(mode, S_IFLNK) ==> !has_type(mode, S_IFSOCK) && !has_type(mode, S_IFBLK)
            && !has_type(mode, S_IFCHR) && !has_type(mode, S_IFIFO),
        has_type(mode, S_IFSOCK) ==> !has_type(mode, S_IFBLK) && !has_type(mode, S_IFCHR)
            && !has_type(mode, S_IFIFO),
        has_type(mode, S_IFBLK) ==> !has_type(mode, S_IFCHR) && !has_type(mode, S_IFIFO),
        has_type(mode, S_IFCHR) ==> !has_type(mode, S_IFIFO),
{
}

/// The name of a file type depends on the type bits of the mode alone
/// (`mode & 0o170000`), not on its permission bits: a regular file is `-`
/// (`file`), a directory `d` (`directory`), and so on, whatever its
/// permissions.
pub proof fn lemma_file_type_name(mode: u16, alternate: bool)
    ensures
        file_type_name(mode, alternate) == file_type_name(mode & 0o170000u16, alternate),
        mode & 0o170000u16 == 0o040000u16 ==> file_type_name(mode, alternate) == (if alternate {
            "directory"@
        } else {
            "d"@
        }),
        mode & 0o170000u16 == 0o100000u16 ==> file_type_name(mode, alternate) == (if alternate {
            "file"@
        } else {
            "-"@
        }),
        mode & 0o170000u16 == 0o120000u16 ==> file_type_name(mode, alternate) == (if alternate {
            "symbolic link"@
        } else {
            "l"@
        }),
        mode & 0o170000u16 == 0o140000u16 ==> file_type_name(mode, alternate) == (if alternate {
            "socket"@
        } else {
            "s"@
        }),
        mode & 0o170000u16 == 0o060000u16 ==> file_type_name(mode, alternate) == (if alternate {
            "block device"@
        } else {
            "b"@
        }),
        mode & 0o170000u16 == 0o020000u16 ==> file_type_name(mode, alternate) == (if alternate {
            "character device"@
        } else {
            "c"@
        }),
        mode & 0o170000u16 == 0o010000u16 ==> file_type_name(mode, alternate) == (if alternate {
            "named pipe"@
        } else {
            "p"@
        }),
{
    assert((mode & 0o170000u16) & 0o170000u16 == mode & 0o170000u16) by (bit_vector);
}

/// Access permissions.
#[derive(Copy, Clone, Debug, PartialEq, Eq)]
pub struct Permissions(pub u16);

/// True if the permission bit `bit` is set in `mode`.
pub open spec fn has_permission(mode: u16, bit: u32) -> bool {
    mode & (bit as u16) != 0
}

/// The character `ls(1)` shows for a permission: `c` if it's granted, `-` if
/// not.
pub open spec fn permission_char(granted: bool, c: u8) -> u8 {
    if granted { c } else { 0x2du8 }
}

/// The permissions as `ls(1)` shows them, e.g. `rwxr-x---`.
pub open spec fn spec_symbolic(mode: u16) -> Seq<u8> {
    seq![
        permission_char(has_permission(mode, S_IRUSR), 0x72u8),
        permission_char(has_permission(mode, S_IWUSR), 0x77u8),
        permission_char(has_permission(mode, S_IXUSR), 0x78u8),
        permission_char(has_permission(mode, S_IRGRP), 0x72u8),
        permission_char(has_permission(mode, S_IWGRP), 0x77u8),
        permission_char(has_permission(mode, S_IXGRP), 0x78u8),
        permission_char(has_permission(mode, S_IROTH), 0x72u8),
        permission_char(has_permission(mode, S_IWOTH), 0x77u8),
        permission_char(has_permission(mode, S_IXOTH), 0x78u8),
    ]
}

impl Permissions {
    /// Return `true` if the owner has read permission.
    pub fn owner_can_read(&self) -> (r: bool)
        ensures
            r == has_permission(self.0, S_IRUSR),
    {
        self.0 & S_IRUSR as u16 != 0
    }

    /// Return `true` if the owner has write permission.
    pub fn owner_can_write(&self) -> (r: bool)
        ensures
            r == has_permission(self.0, S_IWUSR),
    {
        self.0 & S_IWUSR as u16 != 0
    }

    /// Return `true` if the owner has execute permission.
    pub fn owner_can_execute(&self) -> (r: bool)
        ensures
            r == has_permission(self.0, S_IXUSR),
    {
        self.0 & S_IXUSR as u16 != 0
    }

    /// Return `true` if the group the file belongs to has read permission.
    pub fn group_can_read(&self) -> (r: bool)
        ensures
            r == has_permission(self.0, S_IRGRP),
    {
        self.0 & S_IRGRP as u16 != 0
    }

    /// Return `true` if the group the file belongs to has write permission.
    pub fn group_can_write(&self) -> (r: bool)
        ensures
            r == has_permission(self.0, S_IWGRP),
    {
        self.0 & S_IWGRP as u16 != 0
    }

    /// Return `true` if the group the file belongs to has execute permission.
    pub fn group_can_execute(&self) -> (r: bool)
        ensures
            r == has_permission(self.0, S_IXGRP),
    {
        self.0 & S_IXGRP as u16 != 0
    }

    /// Return `true` if others have read permission.
    pub fn others_can_read(&self) -> (r: bool)
        ensures
            r == has_permission(self.0, S_IROTH),
    {
        self.0 & S_IROTH as u16 != 0
    }

    /// Return `true` if others have write permission.
    pub fn others_can_write(&self) -> (r: bool)
        ensures
            r == has_permission(self.0, S_IWOTH),
    {
        self.0 & S_IWOTH as u16 != 0
    }

    /// Return `true` if others have execute permission.
    pub fn others_can_execute(&self) -> (r: bool)
        ensures
            r == has_permission(self.0, S_IXOTH),
    {
        self.0 & S_IXOTH as u16 != 0
    }

    /// The permissions in the format `ls(1)` uses, e.g. `rwxr-x---`.
    pub fn symbolic(&self) -> (s: Vec<u8>)
        ensures
            s@ == spec_symbolic(self.0),
    {
        let mut buf: Vec<u8> = Vec::new();
        buf.push(if self.owner_can_read() { 0x72u8 } else { 0x2du8 });
        buf.push(if self.owner_can_write() { 0x77u8 } else { 0x2du8 });
        buf.push(if self.owner_can_execute() { 0x78u8 } else { 0x2du8 });
        buf.push(if self.group_can_read() { 0x72u8 } else { 0x2du8 });
        buf.push(if self.group_can_write() { 0x77u8 } else { 0x2du8 });
        buf.push(if self.group_can_execute() { 0x78u8 } else { 0x2du8 });
        buf.push(if self.others_can_read() { 0x72u8 } else { 0x2du8 });
        buf.push(if self.others_can_write() { 0x77u8 } else { 0x2du8 });
        buf.push(if self.others_can_execute() { 0x78u8 } else { 0x2du8 });
        assert(buf@ =~= spec_symbolic(self.0));
        buf
    }
}

} // verus!
