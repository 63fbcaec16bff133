use vstd::prelude::*;

use crate::errno::Errno;
use crate::flags::LookupFlags;
use crate::path::DOT;
use crate::path::SLASH;
use crate::path::spec_path_split;
use crate::path::spec_strip_leading_slashes;
use crate::path::path_split;
use crate::path::strip_leading_slashes;

verus! {

/// How an operation inside a directory — create, remove, link, rename —
/// splits its path: which subdirectory to resolve first, and the final
/// name to operate on inside it.
///
/// `parent: None` means the operation runs against the base directory
/// itself. `fname: None` means the path names a directory position
/// rather than an entry in one — the base itself, `.`, or a path ending
/// in `..` — and each operation decides what that means for it.
#[derive(Debug)]
pub struct InnerOpPlan {
    pub parent: Option<Vec<u8>>,
    pub fname: Option<Vec<u8>>,
}

/// What `plan_inner_operation` returns.
///
/// An absolute path is allowed only under `IN_ROOT` (else `EXDEV`) and
/// is taken relative to the base after its leading separators; an empty
/// path is `ENOENT`. A path whose final component is `..` cannot be
/// split into a directory and a name, so the whole path becomes the
/// subdirectory to resolve. A final component of `.` names the
/// subdirectory position itself.
pub open spec fn spec_plan_inner(
    p: Seq<u8>,
    lookup: LookupFlags,
) -> Result<(Option<Seq<u8>>, Option<Seq<u8>>), Errno> {
    if p.len() > 0 && p[0] == SLASH {
        if !lookup.in_root {
            Err(Errno::EXDEV)
        } else {
            let rest = spec_strip_leading_slashes(p);
            if rest.len() == 0 {
                Ok((None, None))
            } else {
                spec_plan_body(rest)
            }
        }
    } else if p.len() == 0 {
        Err(Errno::ENOENT)
    } else {
        spec_plan_body(p)
    }
}

/// The split of a nonempty relative path into subdirectory and final
/// name.
pub open spec fn spec_plan_body(p: Seq<u8>) -> Result<
    (Option<Seq<u8>>, Option<Seq<u8>>),
    Errno,
> {
    match spec_path_split(p) {
        Some((parent, fname)) => {
            if fname == seq![DOT] {
                Ok((parent, None))
            } else {
                Ok((parent, Some(fname)))
            }
        },
        None => Ok((Some(p), None)),
    }
}

/// The plan's mathematical value.
pub open spec fn plan_view(p: InnerOpPlan) -> (Option<Seq<u8>>, Option<Seq<u8>>) {
    (
        match p.parent {
            Some(v) => Some(v@),
            None => None,
        },
        match p.fname {
            Some(v) => Some(v@),
            None => None,
        },
    )
}

/// Splits the path of an inside-a-directory operation into the
/// subdirectory to resolve and the final name to operate on, exactly as
/// `spec_plan_inner` describes.
pub fn plan_inner_operation(path: &[u8], lookup: LookupFlags) -> (r: Result<InnerOpPlan, Errno>)
    ensures
        match r {
            Ok(plan) => spec_plan_inner(path@, lookup) == Ok::<
                (Option<Seq<u8>>, Option<Seq<u8>>),
                Errno,
            >(plan_view(plan)),
            Err(e) => spec_plan_inner(path@, lookup) == Err::<
                (Option<Seq<u8>>, Option<Seq<u8>>),
                Errno,
            >(e),
        },
{
    if path.len() > 0 && path[0] == SLASH {
        if !lookup.in_root {
            return Err(Errno::EXDEV);
        }
        let rest = strip_leading_slashes(path);
        if rest.len() == 0 {
            return Ok(InnerOpPlan { parent: None, fname: None });
        }
        plan_body(rest.as_slice())
    } else if path.len() == 0 {
        Err(Errno::ENOENT)
    } else {
        plan_body(path)
    }
}

/// Splits a nonempty relative path, exactly as `spec_plan_body`
/// describes.
fn plan_body(p: &[u8]) -> (r: Result<InnerOpPlan, Errno>)
    ensures
        match r {
            Ok(plan) => spec_plan_body(p@) == Ok::<(Option<Seq<u8>>, Option<Seq<u8>>), Errno>(
                plan_view(plan),
            ),
            Err(e) => spec_plan_body(p@) == Err::<(Option<Seq<u8>>, Option<Seq<u8>>), Errno>(e),
        },
{
    match path_split(p) {
        Some((parent, fname)) => {
            if fname.len() == 1 && fname[0] == DOT {
                proof {
                    assert(fname@ =~= seq![DOT]);
                }
                Ok(InnerOpPlan { parent, fname: None })
            } else {
                proof {
                    assert(fname@ != seq![DOT]);
                }
                Ok(InnerOpPlan { parent, fname: Some(fname) })
            }
        },
        None => {
            let mut whole: Vec<u8> = Vec::new();
            let mut i: usize = 0;
            while i < p.len()
                invariant
                    i <= p@.len(),
                    whole@ == p@.take(i as int),
                decreases p@.len() - i,
            {
                whole.push(p[i]);
                i = i + 1;
                proof {
                    assert(whole@ =~= p@.take(i as int));
                }
            }
            proof {
                assert(whole@ =~= p@);
            }
            Ok(InnerOpPlan { parent: Some(whole), fname: None })
        },
    }
}

} // verus!
