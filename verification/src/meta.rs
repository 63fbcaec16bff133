use vstd::prelude::*;

verus! {

/// A stable identity for a file: device number and inode number as
/// reported by `fstat`. Two descriptors refer to the same file exactly
/// when both fields agree.
#[derive(Clone, Copy, Debug, PartialEq, Eq, Structural)]
pub struct FileId {
    pub dev: u64,
    pub ino: u64,
}

/// Reports whether two stat identities name the same file: same device
/// and same inode.
pub fn samestat(a: &FileId, b: &FileId) -> (r: bool)
    ensures
        r == (a.dev == b.dev && a.ino == b.ino),
{
    a.dev == b.dev && a.ino == b.ino
}

/// The possible file types.
#[derive(Clone, Copy, Debug, PartialEq, Eq, Hash, Structural)]
#[non_exhaustive]
pub enum FileType {
    File,
    Directory,
    Symlink,
    Socket,
    Block,
    Character,
    Fifo,
}

/// Mask of the file-type bits in a stat mode word.
pub const S_IFMT: u32 = 0o170000;

/// File-type bits of a regular file.
pub const S_IFREG: u32 = 0o100000;

/// File-type bits of a directory.
pub const S_IFDIR: u32 = 0o040000;

/// File-type bits of a symbolic link.
pub const S_IFLNK: u32 = 0o120000;

/// File-type bits of a socket.
pub const S_IFSOCK: u32 = 0o140000;

/// File-type bits of a block device.
pub const S_IFBLK: u32 = 0o060000;

/// File-type bits of a character device.
pub const S_IFCHR: u32 = 0o020000;

/// File-type bits of a FIFO.
pub const S_IFIFO: u32 = 0o010000;

/// What `file_type_from_mode` returns for a given stat mode word.
pub open spec fn spec_file_type_from_mode(mode: u32) -> Option<FileType> {
    let bits = mode & S_IFMT;
    if bits == S_IFREG {
        Some(FileType::File)
    } else if bits == S_IFDIR {
        Some(FileType::Directory)
    } else if bits == S_IFLNK {
        Some(FileType::Symlink)
    } else if bits == S_IFSOCK {
        Some(FileType::Socket)
    } else if bits == S_IFBLK {
        Some(FileType::Block)
    } else if bits == S_IFCHR {
        Some(FileType::Character)
    } else if bits == S_IFIFO {
        Some(FileType::Fifo)
    } else {
        None
    }
}

/// Classifies a stat mode word into a file type, or `None` if the
/// type bits match no known type.
pub fn file_type_from_mode(mode: u32) -> (r: Option<FileType>)
    ensures
        r == spec_file_type_from_mode(mode),
{
    let bits = mode & S_IFMT;
    if bits == S_IFREG {
        Some(FileType::File)
    } else if bits == S_IFDIR {
        Some(FileType::Directory)
    } else if bits == S_IFLNK {
        Some(FileType::Symlink)
    } else if bits == S_IFSOCK {
        Some(FileType::Socket)
    } else if bits == S_IFBLK {
        Some(FileType::Block)
    } else if bits == S_IFCHR {
        Some(FileType::Character)
    } else if bits == S_IFIFO {
        Some(FileType::Fifo)
    } else {
        None
    }
}

/// Directory-entry type code of a FIFO.
pub const DT_FIFO: u8 = 1;

/// Directory-entry type code of a character device.
pub const DT_CHR: u8 = 2;

/// Directory-entry type code of a directory.
pub const DT_DIR: u8 = 4;

/// Directory-entry type code of a block device.
pub const DT_BLK: u8 = 6;

/// Directory-entry type code of a regular file.
pub const DT_REG: u8 = 8;

/// Directory-entry type code of a symbolic link.
pub const DT_LNK: u8 = 10;

/// Directory-entry type code of a socket.
pub const DT_SOCK: u8 = 12;

/// What `file_type_from_dirent` returns for a given directory-entry type
/// code.
pub open spec fn spec_file_type_from_dirent(d: u8) -> Option<FileType> {
    if d == DT_REG {
        Some(FileType::File)
    } else if d == DT_DIR {
        Some(FileType::Directory)
    } else if d == DT_LNK {
        Some(FileType::Symlink)
    } else if d == DT_SOCK {
        Some(FileType::Socket)
    } else if d == DT_BLK {
        Some(FileType::Block)
    } else if d == DT_CHR {
        Some(FileType::Character)
    } else if d == DT_FIFO {
        Some(FileType::Fifo)
    } else {
        None
    }
}

/// Classifies the type code of a directory entry into a file type, or
/// `None` when the system did not report one.
pub fn file_type_from_dirent(d: u8) -> (r: Option<FileType>)
    ensures
        r == spec_file_type_from_dirent(d),
{
    if d == DT_REG {
        Some(FileType::File)
    } else if d == DT_DIR {
        Some(FileType::Directory)
    } else if d == DT_LNK {
        Some(FileType::Symlink)
    } else if d == DT_SOCK {
        Some(FileType::Socket)
    } else if d == DT_BLK {
        Some(FileType::Block)
    } else if d == DT_CHR {
        Some(FileType::Character)
    } else if d == DT_FIFO {
        Some(FileType::Fifo)
    } else {
        None
    }
}

/// An opaque, equality-comparable value distinguishing mount points.
#[derive(Clone, Copy, Debug, PartialEq, Eq, Hash, Structural)]
pub struct MountId(pub u64);

/// The portable mount probe: identifies the mount containing a descriptor
/// by the device field of its stat record. This catches every mount
/// crossing except bind mounts; callers that can read a kernel-provided
/// mount id use that instead.
pub fn identify_mount(dev: u64) -> (r: MountId)
    ensures
        r == MountId(dev),
{
    MountId(dev)
}

} // verus!
