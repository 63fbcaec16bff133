use vstd::prelude::*;

verus! {

/// The access mode of an open request: the low two bits of the flag word.
/// `Other` stands for the fourth encoding, which POSIX leaves unspecified;
/// it is carried through unchanged.
#[derive(Clone, Copy, Debug, PartialEq, Eq, Structural)]
pub enum AccessMode {
    ReadOnly,
    WriteOnly,
    ReadWrite,
    Other,
}

/// The open-flag word, decoded into the bits the resolver reads plus an
/// opaque remainder.
///
/// The resolver inspects only `path_only`, `nofollow` and `directory`, and
/// the option builder writes the creation bits; every other platform bit
/// travels in `extra`, untouched. The boundary that performs the actual
/// system calls converts this struct to and from the platform's flag word.
#[derive(Clone, Copy, Debug, PartialEq, Eq, Structural)]
pub struct OpenFlags {
    /// Read/write access requested for the final object.
    pub access: AccessMode,
    /// A path-only handle was requested (`O_PATH` where available): the
    /// descriptor grants no read, write or execute on the object.
    pub path_only: bool,
    /// Do not follow a symlink in the final component (`O_NOFOLLOW`).
    pub nofollow: bool,
    /// The final component must be a directory (`O_DIRECTORY`).
    pub directory: bool,
    /// Create the file if missing (`O_CREAT`).
    pub create: bool,
    /// With `create`, fail if the file exists (`O_EXCL`).
    pub create_excl: bool,
    /// Truncate an existing file while opening (`O_TRUNC`).
    pub truncate: bool,
    /// Append mode (`O_APPEND`).
    pub append: bool,
    /// All remaining platform flag bits, carried through opaquely.
    pub extra: u32,
}

impl OpenFlags {
    /// Plain read-only flags with nothing else set.
    pub fn read_only() -> (r: OpenFlags)
        ensures
            r == spec_read_only_flags(),
    {
        OpenFlags {
            access: AccessMode::ReadOnly,
            path_only: false,
            nofollow: false,
            directory: false,
            create: false,
            create_excl: false,
            truncate: false,
            append: false,
            extra: 0,
        }
    }

    /// The same flags with the must-be-directory bit set.
    pub fn with_directory(self) -> (r: OpenFlags)
        ensures
            r == (OpenFlags { directory: true, ..self }),
    {
        OpenFlags { directory: true, ..self }
    }

    /// The same flags with the do-not-follow bit set.
    pub fn with_nofollow(self) -> (r: OpenFlags)
        ensures
            r == (OpenFlags { nofollow: true, ..self }),
    {
        OpenFlags { nofollow: true, ..self }
    }
}

/// Plain read-only flags, as a spec value.
pub open spec fn spec_read_only_flags() -> OpenFlags {
    OpenFlags {
        access: AccessMode::ReadOnly,
        path_only: false,
        nofollow: false,
        directory: false,
        create: false,
        create_excl: false,
        truncate: false,
        append: false,
        extra: 0,
    }
}

/// The flags every intermediate directory is opened with: the strongest
/// search-only open the host offers. On Linux that is the path-only handle
/// plus the directory requirement.
pub open spec fn spec_dir_open_flags() -> OpenFlags {
    OpenFlags {
        access: AccessMode::ReadOnly,
        path_only: true,
        nofollow: false,
        directory: true,
        create: false,
        create_excl: false,
        truncate: false,
        append: false,
        extra: 0,
    }
}

/// The flag set used for every intermediate directory open.
pub fn dir_open_flags() -> (r: OpenFlags)
    ensures
        r == spec_dir_open_flags(),
{
    OpenFlags {
        access: AccessMode::ReadOnly,
        path_only: true,
        nofollow: false,
        directory: true,
        create: false,
        create_excl: false,
        truncate: false,
        append: false,
        extra: 0,
    }
}

/// Reports whether the host can open directories for searching only, so
/// that files inside a directory can be opened without read permission on
/// the directory. True here, since the intermediate opens use a path-only
/// handle rather than a read-only one.
pub fn has_o_search() -> (r: bool)
    ensures
        r == (spec_dir_open_flags() != (OpenFlags { directory: true, ..spec_read_only_flags() })),
{
    true
}

/// Stable bit value of the `NO_SYMLINKS` lookup flag.
pub const LOOKUP_NO_SYMLINKS: u32 = 0x01;

/// Stable bit value of the `IN_ROOT` lookup flag.
pub const LOOKUP_IN_ROOT: u32 = 0x02;

/// Stable bit value of the `NO_XDEV` lookup flag.
pub const LOOKUP_NO_XDEV: u32 = 0x04;

/// Flags that modify path lookup when opening a file beneath a directory.
#[derive(Clone, Copy, Debug, PartialEq, Eq, Structural)]
pub struct LookupFlags {
    /// Fail with `ELOOP` if any component of the path is a symbolic link.
    pub no_symlinks: bool,
    /// Behave as if the process had `chroot()`ed to the root directory:
    /// absolute paths and `..` components that would climb out stay at the
    /// root instead of failing with `EXDEV`.
    pub in_root: bool,
    /// Fail with `EXDEV` if resolution would cross into a different mount.
    pub no_xdev: bool,
}

impl LookupFlags {
    /// No lookup flags set.
    pub fn empty() -> (r: LookupFlags)
        ensures
            !r.no_symlinks && !r.in_root && !r.no_xdev,
    {
        LookupFlags { no_symlinks: false, in_root: false, no_xdev: false }
    }

    /// Decodes the stable bit values.
    pub fn from_bits(bits: u32) -> (r: LookupFlags)
        ensures
            r.no_symlinks == ((bits & LOOKUP_NO_SYMLINKS) != 0),
            r.in_root == ((bits & LOOKUP_IN_ROOT) != 0),
            r.no_xdev == ((bits & LOOKUP_NO_XDEV) != 0),
    {
        LookupFlags {
            no_symlinks: (bits & LOOKUP_NO_SYMLINKS) != 0,
            in_root: (bits & LOOKUP_IN_ROOT) != 0,
            no_xdev: (bits & LOOKUP_NO_XDEV) != 0,
        }
    }

    /// Encodes back to the stable bit values.
    pub fn bits(&self) -> (r: u32)
        ensures
            r == (if self.no_symlinks { LOOKUP_NO_SYMLINKS } else { 0u32 })
                | (if self.in_root { LOOKUP_IN_ROOT } else { 0u32 })
                | (if self.no_xdev { LOOKUP_NO_XDEV } else { 0u32 }),
    {
        (if self.no_symlinks { LOOKUP_NO_SYMLINKS } else { 0u32 })
            | (if self.in_root { LOOKUP_IN_ROOT } else { 0u32 })
            | (if self.no_xdev { LOOKUP_NO_XDEV } else { 0u32 })
    }
}

} // verus!
