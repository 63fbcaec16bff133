use vstd::prelude::*;

use crate::errno::Errno;
use crate::flags::LookupFlags;
use crate::path::CompModel;
use crate::path::SLASH;
use crate::path::body_tokens;
use crate::path::queue_comp_view;
use crate::path::spec_strip_leading_slashes;
use crate::path::strip_leading_slashes;
use crate::path::tokenize_body;

verus! {

/// Resolution hint: block mount-point traversal.
pub const RESOLVE_NO_XDEV: u64 = 0x01;

/// Resolution hint: refuse magic links.
pub const RESOLVE_NO_MAGICLINKS: u64 = 0x02;

/// Resolution hint: refuse every symlink.
pub const RESOLVE_NO_SYMLINKS: u64 = 0x04;

/// Resolution hint: the path must stay beneath the starting directory.
pub const RESOLVE_BENEATH: u64 = 0x08;

/// Resolution hint: treat the starting directory as the root.
pub const RESOLVE_IN_ROOT: u64 = 0x10;

/// The argument block of the single-syscall resolver: open flags, file
/// mode, and resolution hints.
#[allow(non_camel_case_types)]
#[derive(Clone, Copy, Debug, PartialEq, Eq, Structural)]
pub struct open_how {
    pub flags: u64,
    pub mode: u64,
    pub resolve: u64,
}

/// The number of the single-syscall resolver on the host kernel.
pub const SYS_OPENAT2: i64 = 437;

/// The resolution hints a lookup-flag set maps to: magic links are
/// always refused; `IN_ROOT` maps to in-root and its absence to beneath;
/// the no-symlink and no-mount-crossing hints mirror their lookup flags.
pub open spec fn spec_resolve_flags(lookup: LookupFlags) -> u64 {
    RESOLVE_NO_MAGICLINKS | (if lookup.in_root {
        RESOLVE_IN_ROOT
    } else {
        RESOLVE_BENEATH
    }) | (if lookup.no_symlinks {
        RESOLVE_NO_SYMLINKS
    } else {
        0
    }) | (if lookup.no_xdev {
        RESOLVE_NO_XDEV
    } else {
        0
    })
}

/// Computes the resolution hints for a lookup-flag set.
pub fn resolve_flags(lookup: LookupFlags) -> (r: u64)
    ensures
        r == spec_resolve_flags(lookup),
{
    RESOLVE_NO_MAGICLINKS | (if lookup.in_root {
        RESOLVE_IN_ROOT
    } else {
        RESOLVE_BENEATH
    }) | (if lookup.no_symlinks {
        RESOLVE_NO_SYMLINKS
    } else {
        0
    }) | (if lookup.no_xdev {
        RESOLVE_NO_XDEV
    } else {
        0
    })
}

/// What the path hands to the single-syscall resolver: one trailing
/// separator is stripped — the kernel call does not take a trailing
/// slash the way the component walk does — and the directory
/// requirement is added instead.
pub open spec fn spec_openat2_path(p: Seq<u8>) -> (Seq<u8>, bool) {
    if p.len() >= 2 && p[p.len() - 1] == SLASH {
        (p.drop_last(), true)
    } else {
        (p, false)
    }
}

/// The prepared arguments of a fast-path attempt: the path to hand over,
/// whether the directory requirement must be added to the caller's
/// flags, and the resolution hints.
#[derive(Debug)]
pub struct Openat2Request {
    pub path: Vec<u8>,
    pub add_directory: bool,
    pub resolve: u64,
}

/// Prepares a fast-path attempt: the ambient-cwd sentinel is refused
/// with `EBADF`; otherwise the path is adjusted as `spec_openat2_path`
/// describes and the lookup flags become resolution hints.
pub fn openat2_request(root_is_sentinel: bool, path: &[u8], lookup: LookupFlags) -> (r: Result<
    Openat2Request,
    Errno,
>)
    ensures
        match r {
            Ok(req) => {
                &&& !root_is_sentinel
                &&& (req.path@, req.add_directory) == spec_openat2_path(path@)
                &&& req.resolve == spec_resolve_flags(lookup)
            },
            Err(e) => root_is_sentinel && e == Errno::EBADF,
        },
{
    if root_is_sentinel {
        return Err(Errno::EBADF);
    }
    let n = path.len();
    let strip = n >= 2 && path[n - 1] == SLASH;
    let end = if strip {
        n - 1
    } else {
        n
    };
    let mut out: Vec<u8> = Vec::new();
    let mut i: usize = 0;
    while i < end
        invariant
            i <= end <= path@.len(),
            out@ == path@.take(i as int),
        decreases end - i,
    {
        out.push(path[i]);
        i = i + 1;
        proof {
            assert(out@ =~= path@.take(i as int));
        }
    }
    proof {
        if strip {
            assert(out@ =~= path@.drop_last());
        } else {
            assert(out@ =~= path@);
        }
    }
    Ok(Openat2Request { path: out, add_directory: strip, resolve: resolve_flags(lookup) })
}

/// Whether a failed fast-path attempt falls back to the component walk:
/// `E2BIG` means the kernel does not know an extension that was asked
/// for, and `EAGAIN` means a rename raced the resolution; both demote
/// to the slow path. Every other error is the caller's answer.
pub fn openat2_fallback(e: &Errno) -> (r: bool)
    ensures
        r == (*e == Errno::E2BIG || *e == Errno::EAGAIN),
{
    matches!(*e, Errno::E2BIG | Errno::EAGAIN)
}

/// Whether the path contains a `..` component.
pub open spec fn spec_has_parent_component(p: Seq<u8>) -> bool {
    exists|i: int| 0 <= i < body_tokens(p).len() && body_tokens(p)[i] is Parent
}

/// Reports whether any component of the path is `..`.
pub fn has_parent_component(path: &[u8]) -> (r: bool)
    ensures
        r == spec_has_parent_component(path@),
{
    let toks = tokenize_body(path);
    let mut i: usize = 0;
    let n = toks.len();
    proof {
        assert(queue_comp_view(toks@).len() == n);
    }
    while i < n
        invariant
            i <= n,
            n == body_tokens(path@).len(),
            queue_comp_view(toks@) == body_tokens(path@),
            toks@.len() == n,
            forall|m: int| 0 <= m < i ==> !(body_tokens(path@)[m] is Parent),
        decreases n - i,
    {
        let hit = match &toks[i] {
            crate::path::Component::Parent => true,
            _ => false,
        };
        proof {
            assert(queue_comp_view(toks@)[i as int] == toks@[i as int]@);
            assert(hit == (body_tokens(path@)[i as int] is Parent));
        }
        if hit {
            return true;
        }
        i = i + 1;
    }
    false
}

/// The plan of the narrower fast path that some hosts offer: a single
/// open with a follow-no-symlink-anywhere flag.
#[derive(Debug)]
pub enum NfaPlan {
    /// The fast path does not apply; use the component walk.
    NotApplicable,
    /// The attempt is already decided: fail with this error.
    Fail(Errno),
    /// Open `.` on the root with the caller's flags.
    OpenDot,
    /// Open this adjusted path with the caller's flags plus the
    /// follow-nothing flag.
    Open(Vec<u8>),
}

/// The mathematical value of an `NfaPlan`.
pub enum NfaPlanModel {
    NotApplicable,
    Fail(Errno),
    OpenDot,
    Open(Seq<u8>),
}

impl View for NfaPlan {
    type V = NfaPlanModel;

    open spec fn view(&self) -> NfaPlanModel {
        match self {
            NfaPlan::NotApplicable => NfaPlanModel::NotApplicable,
            NfaPlan::Fail(e) => NfaPlanModel::Fail(*e),
            NfaPlan::OpenDot => NfaPlanModel::OpenDot,
            NfaPlan::Open(p) => NfaPlanModel::Open(p@),
        }
    }
}

/// What `nofollow_any_plan` decides.
///
/// The follow-nothing open can stand in for the component walk only
/// when the walk would refuse every symlink anyway — `NO_SYMLINKS` set,
/// `NO_XDEV` not set — and the path has no `..` component, which the
/// flag does not police. A leading separator is allowed only under
/// `IN_ROOT` (else `EXDEV`); the kernel does not treat leading
/// separators the way the walk does, so they are stripped, and a path
/// that was nothing but separators becomes a plain open of the root
/// itself.
pub open spec fn spec_nofollow_any_plan(lookup: LookupFlags, p: Seq<u8>) -> NfaPlanModel {
    if lookup.no_xdev || !lookup.no_symlinks {
        NfaPlanModel::NotApplicable
    } else if spec_has_parent_component(p) {
        NfaPlanModel::NotApplicable
    } else if p.len() > 0 && p[0] == SLASH {
        if !lookup.in_root {
            NfaPlanModel::Fail(Errno::EXDEV)
        } else {
            let rest = spec_strip_leading_slashes(p);
            if rest.len() == 0 {
                NfaPlanModel::OpenDot
            } else {
                NfaPlanModel::Open(rest)
            }
        }
    } else {
        NfaPlanModel::Open(p)
    }
}

/// Decides whether and how the follow-nothing fast path applies, exactly
/// as `spec_nofollow_any_plan` describes.
pub fn nofollow_any_plan(lookup: LookupFlags, path: &[u8]) -> (r: NfaPlan)
    ensures
        r@ == spec_nofollow_any_plan(lookup, path@),
{
    if lookup.no_xdev || !lookup.no_symlinks {
        return NfaPlan::NotApplicable;
    }
    if has_parent_component(path) {
        return NfaPlan::NotApplicable;
    }
    if path.len() > 0 && path[0] == SLASH {
        if !lookup.in_root {
            return NfaPlan::Fail(Errno::EXDEV);
        }
        let rest = strip_leading_slashes(path);
        if rest.len() == 0 {
            NfaPlan::OpenDot
        } else {
            NfaPlan::Open(rest)
        }
    } else {
        let mut whole: Vec<u8> = Vec::new();
        let mut i: usize = 0;
        while i < path.len()
            invariant
                i <= path@.len(),
                whole@ == path@.take(i as int),
            decreases path@.len() - i,
        {
            whole.push(path[i]);
            i = i + 1;
            proof {
                assert(whole@ =~= path@.take(i as int));
            }
        }
        proof {
            assert(whole@ =~= path@);
        }
        NfaPlan::Open(whole)
    }
}

} // verus!
