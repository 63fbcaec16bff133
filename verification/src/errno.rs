use vstd::prelude::*;

verus! {

/// The canonical error set of the resolver, named after the POSIX errno
/// values the library reports.
///
/// Meanings, as the resolver uses them:
/// - `EBADF`: the root descriptor is invalid or is the ambient-cwd sentinel.
/// - `ENOTDIR`: the root is not a directory, a non-final component is not a
///   directory, or a leaf had to be a directory but was not.
/// - `ENOENT`: the path was empty or the final component is missing.
/// - `EISDIR`: the leaf had to be a regular file but is a directory.
/// - `ELOOP`: symlinks were forbidden or the expansion budget ran out.
/// - `EXDEV`: resolution tried to leave the root without `IN_ROOT`, or
///   crossed a mount under `NO_XDEV`.
/// - `EAGAIN`: the filesystem mutated mid-walk; the caller may retry.
/// - `EINVAL`: a malformed argument, such as a path byte string with an
///   embedded NUL.
/// - `EMLINK`, `EFTYPE`: historical BSD spellings of "the leaf was a
///   symlink"; `canonical_open_errno` folds them into `ELOOP`.
/// - `Other`: any further kernel errno, carried verbatim.
#[derive(Clone, Copy, Debug, PartialEq, Eq, Structural)]
pub enum Errno {
    EBADF,
    ENOTDIR,
    ENOENT,
    EISDIR,
    ELOOP,
    EXDEV,
    EAGAIN,
    EEXIST,
    EACCES,
    EPERM,
    EINVAL,
    E2BIG,
    EMLINK,
    EFTYPE,
    ENOSYS,
    EOPNOTSUPP,
    EOVERFLOW,
    Other(i32),
}

/// What `canonical_open_errno` returns: the BSD spellings of
/// "the last component was a symbolic link" folded into `ELOOP`,
/// everything else unchanged.
pub open spec fn spec_canonical_open_errno(e: Errno) -> Errno {
    match e {
        Errno::EMLINK => Errno::ELOOP,
        Errno::EFTYPE => Errno::ELOOP,
        _ => e,
    }
}

/// Canonicalizes the error of a failed component open. Most systems report
/// a symlink leaf under `O_NOFOLLOW` as `ELOOP`; FreeBSD and DragonFly use
/// `EMLINK` and NetBSD uses `EFTYPE`, so those two map to `ELOOP`. All
/// other errors pass through unchanged.
pub fn canonical_open_errno(e: Errno) -> (r: Errno)
    ensures
        r == spec_canonical_open_errno(e),
{
    match e {
        Errno::EMLINK => Errno::ELOOP,
        Errno::EFTYPE => Errno::ELOOP,
        _ => e,
    }
}

} // verus!
