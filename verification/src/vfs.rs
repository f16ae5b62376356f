//! The interface of a virtual file system, and the file system that keeps
//! every path below one directory of the host.

use vstd::prelude::*;
use crate::text::{join_path, join_spec};

verus! {

/// The operations of a file system, over the types that a platform gives to
/// descriptors, errors, metadata, offsets, modes and flags.
pub trait GenericVirtualFileSystem {
    type FileDesc;

    type Error;

    type FileStat;

    type SeekFrom;

    type FileMode;

    type OpenFlags;

    /// Opens the file at `path` with the given flags and mode.
    fn open(&self, path: &str, flags: Self::OpenFlags, mode: Self::FileMode) -> Result<
        Self::FileDesc,
        Self::Error,
    >;

    /// The path that a descriptor was opened at.
    fn resolve(&self, fd: Self::FileDesc) -> Result<String, Self::Error>;

    /// Closes an open descriptor.
    fn close(&self, fd: Self::FileDesc) -> Result<(), Self::Error>;

    /// Reads from the descriptor into `buf`; returns the number of bytes read.
    fn read(&self, fd: Self::FileDesc, buf: &mut [u8]) -> Result<usize, Self::Error>;

    /// Writes `buf` to the descriptor; returns the number of bytes written.
    fn write(&self, fd: Self::FileDesc, buf: &[u8]) -> Result<usize, Self::Error>;

    /// Moves the offset of the descriptor; returns the new offset.
    fn lseek(&self, fd: Self::FileDesc, offset: Self::SeekFrom) -> Result<u64, Self::Error>;

    /// The metadata of the file behind the descriptor.
    fn fstat(&self, fd: Self::FileDesc) -> Result<Self::FileStat, Self::Error>;

    /// The metadata of the file at `path`.
    fn stat(&self, path: &str) -> Result<Self::FileStat, Self::Error>;

    /// Writes what is pending for the descriptor to storage.
    fn fsync(&self, fd: Self::FileDesc) -> Result<(), Self::Error>;

    /// Removes the file at `path`.
    fn unlink(&self, path: &str) -> Result<(), Self::Error>;

    /// Creates a directory at `path`.
    fn mkdir(&self, path: &str, mode: Self::FileMode) -> Result<(), Self::Error>;

    /// Removes the empty directory at `path`.
    fn rmdir(&self, path: &str) -> Result<(), Self::Error>;

    /// Renames a file or directory.
    fn rename(&self, oldpath: &str, newpath: &str) -> Result<(), Self::Error>;

    /// Changes the permissions of the file at `path`.
    fn chmod(&self, path: &str, mode: Self::FileMode) -> Result<(), Self::Error>;

    /// Changes the owner and the group of the file at `path`.
    fn chown(&self, path: &str, owner: u32, group: u32) -> Result<(), Self::Error>;

    /// The names of the entries of the directory at `path`.
    fn readdir(&self, path: &str) -> Result<Vec<String>, Self::Error>;
}

/// Open for reading.
pub const READ_ONLY: u32 = 0x0001;

/// Open for writing.
pub const WRITE_ONLY: u32 = 0x0002;

/// Open for reading and writing.
pub const READ_WRITE: u32 = 0x0004;

/// Create the file where there is none.
pub const CREATE: u32 = 0x0008;

/// Cut the file to no length.
pub const TRUNC: u32 = 0x0010;

/// Write at the end of the file.
pub const APPEND: u32 = 0x0020;

/// Fail where the file is there already.
pub const EXCL: u32 = 0x0040;

/// Every bit that [`OpenFlags`] knows.
pub const ALL_OPEN_FLAGS: u32 = 0x007f;

/// The owner may read.
pub const USER_READ: u32 = 0x0100;

/// The owner may write.
pub const USER_WRITE: u32 = 0x0080;

/// The owner may execute.
pub const USER_EXEC: u32 = 0x0040;

/// The group may read.
pub const GROUP_READ: u32 = 0x0020;

/// The group may write.
pub const GROUP_WRITE: u32 = 0x0010;

/// The group may execute.
pub const GROUP_EXEC: u32 = 0x0008;

/// Everyone may read.
pub const OTHER_READ: u32 = 0x0004;

/// Everyone may write.
pub const OTHER_WRITE: u32 = 0x0002;

/// Everyone may execute.
pub const OTHER_EXEC: u32 = 0x0001;

/// Every bit that [`FileMode`] knows.
pub const ALL_FILE_MODES: u32 = 0x01ff;

/// How a file is opened: a set of the flags `READ_ONLY` to `EXCL`.
#[derive(Clone, Copy, Debug, PartialEq, Eq, Hash, Structural)]
pub struct OpenFlags {
    bits: u32,
}

impl OpenFlags {
    /// The flags as bits.
    pub closed spec fn spec_bits(self) -> u32 {
        self.bits
    }

    /// The flags among `bits` that are known; the other bits are dropped.
    pub fn from_bits_truncate(bits: u32) -> (flags: OpenFlags)
        ensures
            flags.spec_bits() == bits & ALL_OPEN_FLAGS,
    {
        OpenFlags { bits: bits & ALL_OPEN_FLAGS }
    }

    /// The flags as bits.
    pub fn bits(&self) -> (bits: u32)
        ensures
            bits == self.spec_bits(),
    {
        self.bits
    }

    /// Whether every flag of `other` is set in `self`.
    pub fn contains(&self, other: OpenFlags) -> (all: bool)
        ensures
            all == (self.spec_bits() & other.spec_bits() == other.spec_bits()),
    {
        self.bits & other.bits == other.bits
    }
}

/// The permissions of a file: a set of the bits `USER_READ` to `OTHER_EXEC`.
#[derive(Clone, Copy, Debug, PartialEq, Eq, Hash, Structural)]
pub struct FileMode {
    bits: u32,
}

impl FileMode {
    /// The permissions as bits.
    pub closed spec fn spec_bits(self) -> u32 {
        self.bits
    }

    /// The permissions among `bits` that are known; the other bits are
    /// dropped.
    pub fn from_bits_truncate(bits: u32) -> (mode: FileMode)
        ensures
            mode.spec_bits() == bits & ALL_FILE_MODES,
    {
        FileMode { bits: bits & ALL_FILE_MODES }
    }

    /// The permissions as bits.
    pub fn bits(&self) -> (bits: u32)
        ensures
            bits == self.spec_bits(),
    {
        self.bits
    }

    /// Whether every permission of `other` is granted by `self`.
    pub fn contains(&self, other: FileMode) -> (all: bool)
        ensures
            all == (self.spec_bits() & other.spec_bits() == other.spec_bits()),
    {
        self.bits & other.bits == other.bits
    }
}

/// From where an offset counts.
#[derive(Clone, Copy, Debug, PartialEq, Eq, Structural)]
pub enum SeekFrom {
    Start(i64),
    Current(i64),
    End(i64),
}

/// The metadata of a file.
#[derive(Clone, Copy, Debug)]
pub struct FileStat {
    pub size: u64,
    pub mode: FileMode,
    pub uid: u32,
    pub gid: u32,
    pub atime: u64,
    pub mtime: u64,
    pub ctime: u64,
}

/// A file descriptor.
pub type FileDesc = u32;

/// What can go wrong in a file system.
#[derive(Clone, Copy, Debug, PartialEq, Eq, Structural)]
pub enum Error {
    /// The file system does not offer the operation.
    Unsupported,
}

/// A file system that keeps every relative path below one directory of the
/// host.
pub struct RemapVFS {
    host_path: String,
}

impl RemapVFS {
    /// A file system below `host_path`.
    pub fn new(host_path: String) -> (vfs: RemapVFS)
        ensures
            vfs.root() == host_path@,
    {
        RemapVFS { host_path }
    }

    /// The directory that the file system lies below.
    pub closed spec fn root(&self) -> Seq<char> {
        self.host_path@
    }

    /// The host path of `path`: `path` taken below the root. An absolute
    /// `path` stands for itself.
    pub fn remap(&self, path: &str) -> (resolved: Result<String, Error>)
        ensures
            resolved matches Ok(p) && p@ == join_spec(self.root(), path@),
    {
        Ok(join_path(self.host_path.as_str(), path))
    }
}

} // verus!
