use vstd::prelude::*;

use crate::errno::Errno;
use crate::flags::OpenFlags;
use crate::meta::FileId;
use crate::meta::FileType;
use crate::meta::MountId;
use crate::path::CompModel;
use crate::path::lemma_prepend_root_only_front;
use crate::path::lemma_queue_of_path_root_only_front;
use crate::path::no_root;
use crate::path::root_only_front;
use crate::resolver::ActionModel;
use crate::resolver::EventModel;
use crate::resolver::FdSlot;
use crate::resolver::PathArgModel;
use crate::resolver::PhaseModel;
use crate::resolver::StateModel;
use crate::resolver::advance_model;
use crate::resolver::budget_exhausted;
use crate::resolver::init_model;
use crate::resolver::mount_check_model;
use crate::resolver::step_model;
use crate::resolver::tokenize_model;

verus! {

/// The fields of the state that consuming queue elements never touches:
/// everything but the queue, the walk position, and the phase. In
/// particular the symlink budget is untouched, and the queue never grows.
pub proof fn lemma_advance_fields(s: StateModel)
    ensures
        advance_model(s).0.lookup == s.lookup,
        advance_model(s).0.orig_flags == s.orig_flags,
        advance_model(s).0.mode == s.mode,
        advance_model(s).0.root_is_sentinel == s.root_is_sentinel,
        advance_model(s).0.path == s.path,
        advance_model(s).0.root_id == s.root_id,
        advance_model(s).0.dir_mnt == s.dir_mnt,
        advance_model(s).0.budget_max == s.budget_max,
        advance_model(s).0.budget_used == s.budget_used,
        advance_model(s).0.queue.len() <= s.queue.len(),
    decreases s.queue.len(),
{
    if s.queue.len() == 0 {
    } else {
        let e = s.queue[0];
        let s1 = StateModel { queue: s.queue.skip(1), ..s };
        match e.comp {
            CompModel::RootMark => {
                if s.lookup.in_root && s.at_root {
                    lemma_advance_fields(s1);
                }
            },
            CompModel::Parent => {
                if s.at_root && s.lookup.in_root {
                    lemma_advance_fields(StateModel { saw_parent: false, ..s1 });
                }
            },
            CompModel::Normal(_) => {},
        }
    }
}

/// The same fields are untouched by the mount-check gate.
pub proof fn lemma_mount_check_fields(s: StateModel)
    ensures
        mount_check_model(s).0.lookup == s.lookup,
        mount_check_model(s).0.root_id == s.root_id,
        mount_check_model(s).0.dir_mnt == s.dir_mnt,
        mount_check_model(s).0.budget_max == s.budget_max,
        mount_check_model(s).0.budget_used == s.budget_used,
        mount_check_model(s).0.queue.len() <= s.queue.len(),
{
    if !s.lookup.no_xdev {
        lemma_advance_fields(s);
    }
}

/// Tokenizing the stored path touches neither the budget nor the
/// captured identities.
pub proof fn lemma_tokenize_fields(s: StateModel)
    ensures
        tokenize_model(s).0.lookup == s.lookup,
        tokenize_model(s).0.root_id == s.root_id,
        tokenize_model(s).0.dir_mnt == s.dir_mnt,
        tokenize_model(s).0.budget_max == s.budget_max,
        tokenize_model(s).0.budget_used == s.budget_used,
{
    match crate::path::spec_split_path(s.path, s.orig_flags) {
        Ok(q) => {
            lemma_advance_fields(StateModel { queue: q, ..s });
        },
        Err(_) => {},
    }
}

/// The symlink budget never increments past its configured maximum, and
/// the maximum itself never changes: whatever event arrives, a step
/// keeps `used <= max`, never decreases `used`, and leaves `max` alone.
pub proof fn lemma_step_budget_bounded(s: StateModel, ev: EventModel)
    requires
        s.budget_used <= s.budget_max,
    ensures
        step_model(s, ev).0.budget_max == s.budget_max,
        step_model(s, ev).0.budget_used <= step_model(s, ev).0.budget_max,
        step_model(s, ev).0.budget_used >= s.budget_used,
{
    match s.phase {
        PhaseModel::Start => {},
        PhaseModel::RootStat => {
            match ev {
                EventModel::Stat { id, ftype } => {
                    if !s.root_is_sentinel && ftype == Some(FileType::Directory)
                        && !s.lookup.no_xdev {
                        lemma_tokenize_fields(StateModel { root_id: Some(id), ..s });
                    }
                },
                _ => {},
            }
        },
        PhaseModel::RootMount => {
            match ev {
                EventModel::Mount { id } => {
                    lemma_tokenize_fields(StateModel { dir_mnt: Some(id), ..s });
                },
                _ => {},
            }
        },
        PhaseModel::DotDotStat { .. } => {},
        PhaseModel::DotDotOpen => {
            match ev {
                EventModel::Opened => {
                    lemma_mount_check_fields(StateModel { saw_parent: true, ..s });
                },
                _ => {},
            }
        },
        PhaseModel::AfterDropCur => {
            match ev {
                EventModel::Ack => {
                    lemma_advance_fields(s);
                },
                _ => {},
            }
        },
        PhaseModel::ChildOpen { opath_check, .. } => {
            match ev {
                EventModel::Opened => {
                    if !opath_check {
                        lemma_mount_check_fields(StateModel { at_root: false, ..s });
                    }
                },
                _ => {},
            }
        },
        PhaseModel::ChildStat { .. } => {},
        PhaseModel::ChildAdopt => {
            match ev {
                EventModel::Ack => {
                    lemma_mount_check_fields(StateModel { at_root: false, ..s });
                },
                _ => {},
            }
        },
        PhaseModel::ReadLink { flags, by_fd, .. } => {
            match ev {
                EventModel::Link { target } => {
                    if !budget_exhausted(s) && !flags.nofollow {
                        let s2 = StateModel { budget_used: (s.budget_used + 1) as u16, ..s };
                        match crate::path::spec_prepend(target, flags, s2.queue) {
                            Ok(q) => {
                                if !by_fd {
                                    lemma_advance_fields(StateModel { queue: q, ..s2 });
                                }
                            },
                            Err(_) => {},
                        }
                    }
                },
                _ => {},
            }
        },
        PhaseModel::DropChildNext => {
            match ev {
                EventModel::Ack => {
                    lemma_advance_fields(s);
                },
                _ => {},
            }
        },
        PhaseModel::MountCheck => {
            match ev {
                EventModel::Mount { id } => {
                    if s.dir_mnt == Some(id) {
                        lemma_advance_fields(s);
                    }
                },
                _ => {},
            }
        },
        PhaseModel::RewindStat { .. } => {},
        PhaseModel::RewindOpen { .. } => {},
        PhaseModel::RewindDone { .. } => {},
        PhaseModel::FinalOpen => {},
        PhaseModel::Done => {},
    }
}

/// An expansion attempt against a spent budget yields `ELOOP`: when the
/// resolver awaits a symlink target and the budget is exhausted, the
/// target's arrival ends the resolution with `ELOOP`.
pub proof fn lemma_exhausted_expansion_fails(s: StateModel, target: Seq<u8>)
    requires
        s.phase is ReadLink,
        budget_exhausted(s),
    ensures
        step_model(s, EventModel::Link { target }).1 == (ActionModel::Fail {
            errno: Errno::ELOOP,
        }),
{
}

/// Under `NO_SYMLINKS` the budget starts, and by
/// `lemma_step_budget_bounded` stays, at zero.
pub proof fn lemma_no_symlinks_budget_zero(
    root_is_sentinel: bool,
    path: Seq<u8>,
    flags: OpenFlags,
    mode: u32,
    lookup: crate::flags::LookupFlags,
    symloop_max: Option<u16>,
)
    requires
        lookup.no_symlinks,
    ensures
        init_model(root_is_sentinel, path, flags, mode, lookup, symloop_max).budget_max == 0,
        init_model(root_is_sentinel, path, flags, mode, lookup, symloop_max).budget_used == 0,
{
}

/// Under `NO_SYMLINKS`, no symlink is ever expanded: any symlink target
/// handed to a resolver whose budget maximum is zero — which
/// `lemma_no_symlinks_budget_zero` shows it always is — fails with
/// `ELOOP` before anything is spliced into the queue.
pub proof fn lemma_no_symlinks_expansion_fails(s: StateModel, target: Seq<u8>)
    requires
        s.phase is ReadLink,
        s.lookup.no_symlinks,
        s.budget_max == 0,
    ensures
        step_model(s, EventModel::Link { target }).1 == (ActionModel::Fail {
            errno: Errno::ELOOP,
        }),
        step_model(s, EventModel::Link { target }).0.queue == s.queue,
{
}

/// Without `IN_ROOT`, an absolute path component ends the resolution
/// with `EXDEV` the moment it is consumed: nothing is opened for it.
pub proof fn lemma_absolute_escapes(s: StateModel)
    requires
        !s.lookup.in_root,
        s.queue.len() > 0,
        s.queue[0].comp is RootMark,
    ensures
        advance_model(s).1 == (ActionModel::Fail { errno: Errno::EXDEV }),
{
}

/// Without `IN_ROOT`, a `..` consumed while the walk stands at the root
/// ends the resolution with `EXDEV`.
pub proof fn lemma_parent_at_root_escapes(s: StateModel)
    requires
        !s.lookup.in_root,
        s.queue.len() > 0,
        s.queue[0].comp is Parent,
        s.at_root,
    ensures
        advance_model(s).1 == (ActionModel::Fail { errno: Errno::EXDEV }),
{
}

/// Without `IN_ROOT`, a `..` whose position turns out to carry the
/// root's own identity ends the resolution with `EXDEV` — the walk may
/// stand on the root without knowing it, and the stat answer settles it.
pub proof fn lemma_parent_reaching_root_escapes(
    s: StateModel,
    id: FileId,
    ftype: Option<FileType>,
)
    requires
        !s.lookup.in_root,
        s.phase is DotDotStat,
        s.root_id == Some(id),
    ensures
        step_model(s, EventModel::Stat { id, ftype }).1 == (ActionModel::Fail {
            errno: Errno::EXDEV,
        }),
{
}

/// Every open of a named component carries the do-not-follow bit:
/// consuming queue elements never asks for an open of a name without it,
/// so a symlink leaf always surfaces as an error the resolver
/// interprets, never as a silently followed link.
pub proof fn lemma_advance_opens_nofollow(s: StateModel)
    ensures
        (match advance_model(s).1 {
            ActionModel::Open { name: PathArgModel::Name(_), flags, .. } => flags.nofollow,
            _ => true,
        }),
    decreases s.queue.len(),
{
    if s.queue.len() == 0 {
    } else {
        let e = s.queue[0];
        let s1 = StateModel { queue: s.queue.skip(1), ..s };
        match e.comp {
            CompModel::RootMark => {
                if s.lookup.in_root && s.at_root {
                    lemma_advance_opens_nofollow(s1);
                }
            },
            CompModel::Parent => {
                if s.at_root && s.lookup.in_root {
                    lemma_advance_opens_nofollow(StateModel { saw_parent: false, ..s1 });
                }
            },
            CompModel::Normal(_) => {},
        }
    }
}

/// The same, lifted to a whole step: whatever the state and event, an
/// `Open` action naming an ordinary component has the do-not-follow bit
/// set.
pub proof fn lemma_step_opens_nofollow(s: StateModel, ev: EventModel)
    ensures
        (match step_model(s, ev).1 {
            ActionModel::Open { name: PathArgModel::Name(_), flags, .. } => flags.nofollow,
            _ => true,
        }),
{
    match s.phase {
        PhaseModel::RootStat => {
            match ev {
                EventModel::Stat { id, ftype } => {
                    if !s.root_is_sentinel && ftype == Some(FileType::Directory)
                        && !s.lookup.no_xdev {
                        lemma_tokenize_opens_nofollow(StateModel { root_id: Some(id), ..s });
                    }
                },
                _ => {},
            }
        },
        PhaseModel::RootMount => {
            match ev {
                EventModel::Mount { id } => {
                    lemma_tokenize_opens_nofollow(StateModel { dir_mnt: Some(id), ..s });
                },
                _ => {},
            }
        },
        PhaseModel::DotDotOpen => {
            match ev {
                EventModel::Opened => {
                    lemma_mount_check_opens_nofollow(StateModel { saw_parent: true, ..s });
                },
                _ => {},
            }
        },
        PhaseModel::AfterDropCur | PhaseModel::DropChildNext => {
            match ev {
                EventModel::Ack => {
                    lemma_advance_opens_nofollow(s);
                },
                _ => {},
            }
        },
        PhaseModel::ChildOpen { opath_check, .. } => {
            match ev {
                EventModel::Opened => {
                    if !opath_check {
                        lemma_mount_check_opens_nofollow(StateModel { at_root: false, ..s });
                    }
                },
                _ => {},
            }
        },
        PhaseModel::ChildAdopt => {
            match ev {
                EventModel::Ack => {
                    lemma_mount_check_opens_nofollow(StateModel { at_root: false, ..s });
                },
                _ => {},
            }
        },
        PhaseModel::ReadLink { flags, by_fd, .. } => {
            match ev {
                EventModel::Link { target } => {
                    if !budget_exhausted(s) && !flags.nofollow {
                        let s2 = StateModel { budget_used: (s.budget_used + 1) as u16, ..s };
                        match crate::path::spec_prepend(target, flags, s2.queue) {
                            Ok(q) => {
                                if !by_fd {
                                    lemma_advance_opens_nofollow(StateModel { queue: q, ..s2 });
                                }
                            },
                            Err(_) => {},
                        }
                    }
                },
                _ => {},
            }
        },
        PhaseModel::MountCheck => {
            match ev {
                EventModel::Mount { id } => {
                    if s.dir_mnt == Some(id) {
                        lemma_advance_opens_nofollow(s);
                    }
                },
                _ => {},
            }
        },
        _ => {},
    }
}

proof fn lemma_mount_check_opens_nofollow(s: StateModel)
    ensures
        (match mount_check_model(s).1 {
            ActionModel::Open { name: PathArgModel::Name(_), flags, .. } => flags.nofollow,
            _ => true,
        }),
{
    if !s.lookup.no_xdev {
        lemma_advance_opens_nofollow(s);
    }
}

proof fn lemma_tokenize_opens_nofollow(s: StateModel)
    ensures
        (match tokenize_model(s).1 {
            ActionModel::Open { name: PathArgModel::Name(_), flags, .. } => flags.nofollow,
            _ => true,
        }),
{
    match crate::path::spec_split_path(s.path, s.orig_flags) {
        Ok(q) => {
            lemma_advance_opens_nofollow(StateModel { queue: q, ..s });
        },
        Err(_) => {},
    }
}

/// Under `NO_XDEV`, every change of position is followed by a mount
/// probe before anything else happens: ascending through `..`, adopting
/// a stat-checked candidate, and adopting a directly opened component
/// all answer with `IdentifyMount` on the new position.
pub proof fn lemma_position_changes_probe_mount(s: StateModel, ev: EventModel)
    requires
        s.lookup.no_xdev,
    ensures
        s.phase is DotDotOpen && ev is Opened ==> step_model(s, ev).1
            == (ActionModel::IdentifyMount { slot: FdSlot::Cur }),
        s.phase is ChildAdopt && ev is Ack ==> step_model(s, ev).1
            == (ActionModel::IdentifyMount { slot: FdSlot::Cur }),
        (s.phase matches PhaseModel::ChildOpen { opath_check: false, .. }) && ev is Opened
            ==> step_model(s, ev).1 == (ActionModel::IdentifyMount { slot: FdSlot::Cur }),
{
}

/// Under `NO_XDEV`, a probed mount identity different from the root's
/// ends the resolution with `EXDEV`.
pub proof fn lemma_mount_mismatch_escapes(s: StateModel, id: MountId)
    requires
        s.phase is MountCheck,
        s.dir_mnt != Some(id),
    ensures
        step_model(s, EventModel::Mount { id }).1 == (ActionModel::Fail { errno: Errno::EXDEV }),
{
}

/// The walk-completion invariant: the final open of `.` is requested
/// only with the queue consumed and no ascent pending, and a rewind
/// verification with no deferred component — the kind that ends the
/// walk — runs only once the queue is consumed.
pub open spec fn inv_finish(s: StateModel) -> bool {
    &&& (s.phase is FinalOpen ==> s.queue.len() == 0 && !s.saw_parent)
    &&& ((s.phase matches PhaseModel::RewindStat { pending: None, .. }) ==> s.queue.len() == 0)
    &&& ((s.phase matches PhaseModel::RewindOpen { pending: None, .. }) ==> s.queue.len() == 0)
    &&& ((s.phase matches PhaseModel::RewindDone { pending: None }) ==> s.queue.len() == 0)
    &&& (s.phase is RewindDone ==> !s.saw_parent)
}

proof fn lemma_advance_finish(s: StateModel)
    ensures
        inv_finish(advance_model(s).0),
        advance_model(s).1 is Finish ==> advance_model(s).0.queue.len() == 0
            && !advance_model(s).0.saw_parent,
    decreases s.queue.len(),
{
    if s.queue.len() == 0 {
    } else {
        let e = s.queue[0];
        let s1 = StateModel { queue: s.queue.skip(1), ..s };
        match e.comp {
            CompModel::RootMark => {
                if s.lookup.in_root && s.at_root {
                    lemma_advance_finish(s1);
                }
            },
            CompModel::Parent => {
                if s.at_root && s.lookup.in_root {
                    lemma_advance_finish(StateModel { saw_parent: false, ..s1 });
                }
            },
            CompModel::Normal(_) => {},
        }
    }
}

proof fn lemma_mount_check_finish(s: StateModel)
    ensures
        inv_finish(mount_check_model(s).0),
        mount_check_model(s).1 is Finish ==> mount_check_model(s).0.queue.len() == 0
            && !mount_check_model(s).0.saw_parent,
{
    if !s.lookup.no_xdev {
        lemma_advance_finish(s);
    }
}

proof fn lemma_tokenize_finish(s: StateModel)
    ensures
        inv_finish(tokenize_model(s).0),
        tokenize_model(s).1 is Finish ==> tokenize_model(s).0.queue.len() == 0
            && !tokenize_model(s).0.saw_parent,
{
    match crate::path::spec_split_path(s.path, s.orig_flags) {
        Ok(q) => {
            lemma_advance_finish(StateModel { queue: q, ..s });
        },
        Err(_) => {},
    }
}

/// Nothing is handed to the caller before the whole path is consumed: a
/// step that answers `Finish` leaves an empty queue and no pending
/// ascent, and the completion invariant is preserved by every step.
pub proof fn lemma_finish_only_at_end(s: StateModel, ev: EventModel)
    requires
        inv_finish(s),
    ensures
        inv_finish(step_model(s, ev).0),
        step_model(s, ev).1 is Finish ==> step_model(s, ev).0.queue.len() == 0 && !step_model(
            s,
            ev,
        ).0.saw_parent,
{
    match s.phase {
        PhaseModel::RootStat => {
            match ev {
                EventModel::Stat { id, ftype } => {
                    if !s.root_is_sentinel && ftype == Some(FileType::Directory)
                        && !s.lookup.no_xdev {
                        lemma_tokenize_finish(StateModel { root_id: Some(id), ..s });
                    }
                },
                _ => {},
            }
        },
        PhaseModel::RootMount => {
            match ev {
                EventModel::Mount { id } => {
                    lemma_tokenize_finish(StateModel { dir_mnt: Some(id), ..s });
                },
                _ => {},
            }
        },
        PhaseModel::DotDotOpen => {
            match ev {
                EventModel::Opened => {
                    lemma_mount_check_finish(StateModel { saw_parent: true, ..s });
                },
                _ => {},
            }
        },
        PhaseModel::AfterDropCur | PhaseModel::DropChildNext => {
            match ev {
                EventModel::Ack => {
                    lemma_advance_finish(s);
                },
                _ => {},
            }
        },
        PhaseModel::ChildOpen { opath_check, .. } => {
            match ev {
                EventModel::Opened => {
                    if !opath_check {
                        lemma_mount_check_finish(StateModel { at_root: false, ..s });
                    }
                },
                _ => {},
            }
        },
        PhaseModel::ChildAdopt => {
            match ev {
                EventModel::Ack => {
                    lemma_mount_check_finish(StateModel { at_root: false, ..s });
                },
                _ => {},
            }
        },
        PhaseModel::ReadLink { flags, by_fd, .. } => {
            match ev {
                EventModel::Link { target } => {
                    if !budget_exhausted(s) && !flags.nofollow {
                        let s2 = StateModel { budget_used: (s.budget_used + 1) as u16, ..s };
                        match crate::path::spec_prepend(target, flags, s2.queue) {
                            Ok(q) => {
                                if !by_fd {
                                    lemma_advance_finish(StateModel { queue: q, ..s2 });
                                }
                            },
                            Err(_) => {},
                        }
                    }
                },
                _ => {},
            }
        },
        PhaseModel::MountCheck => {
            match ev {
                EventModel::Mount { id } => {
                    if s.dir_mnt == Some(id) {
                        lemma_advance_finish(s);
                    }
                },
                _ => {},
            }
        },
        PhaseModel::RewindDone { pending } => {
            match ev {
                EventModel::Ack => {
                    match pending {
                        Some(_) => {},
                        None => {},
                    }
                },
                _ => {},
            }
        },
        _ => {},
    }
}

/// The root-marker discipline: a root marker stands only at the front
/// of the queue, never anywhere else; while an ascent is pending, or
/// while a component is mid-open or mid-expansion, the queue holds none
/// at all; and before the path is tokenized the queue is empty.
///
/// The discipline is what makes an absolute symlink target safe: the
/// marker it splices in is consumed first, while nothing else is in
/// flight.
pub open spec fn inv_root_marks(s: StateModel) -> bool {
    &&& root_only_front(s.queue)
    &&& (s.saw_parent ==> no_root(s.queue))
    &&& ((s.phase is Start || s.phase is RootStat || s.phase is RootMount) ==> s.queue.len() == 0
        && !s.saw_parent)
    &&& ((s.phase is DotDotStat || s.phase is DotDotOpen) ==> no_root(s.queue))
    &&& ((s.phase is ChildOpen || s.phase is ChildStat || s.phase is ChildAdopt || s.phase
        is ReadLink) ==> no_root(s.queue) && !s.saw_parent)
    &&& ((s.phase is RewindStat || s.phase is RewindOpen || s.phase is RewindDone)
        ==> no_root(s.queue))
    &&& (s.phase is RewindDone ==> !s.saw_parent)
}

/// A fresh resolver satisfies every invariant of this module.
pub proof fn lemma_init_invariants(
    root_is_sentinel: bool,
    path: Seq<u8>,
    flags: OpenFlags,
    mode: u32,
    lookup: crate::flags::LookupFlags,
    symloop_max: Option<u16>,
)
    ensures
        ({
            let s = init_model(root_is_sentinel, path, flags, mode, lookup, symloop_max);
            &&& s.budget_used <= s.budget_max
            &&& inv_finish(s)
            &&& inv_root_marks(s)
        }),
{
}

proof fn lemma_advance_root_marks(s: StateModel)
    requires
        root_only_front(s.queue),
        s.saw_parent ==> no_root(s.queue),
    ensures
        inv_root_marks(advance_model(s).0),
    decreases s.queue.len(),
{
    if s.queue.len() == 0 {
    } else {
        let e = s.queue[0];
        let rest = s.queue.skip(1);
        let s1 = StateModel { queue: rest, ..s };
        assert(no_root(rest)) by {
            assert(forall|i: int| 0 <= i < rest.len() ==> rest[i] == s.queue[i + 1]);
        }
        match e.comp {
            CompModel::RootMark => {
                if s.lookup.in_root && s.at_root {
                    // The pending-ascent flag cannot be set here: with it
                    // set the queue would hold no root marker at all.
                    assert(!s.saw_parent);
                    lemma_advance_root_marks(s1);
                }
            },
            CompModel::Parent => {
                if s.at_root && s.lookup.in_root {
                    lemma_advance_root_marks(StateModel { saw_parent: false, ..s1 });
                }
            },
            CompModel::Normal(_) => {},
        }
    }
}

proof fn lemma_mount_check_root_marks(s: StateModel)
    requires
        root_only_front(s.queue),
        s.saw_parent ==> no_root(s.queue),
    ensures
        inv_root_marks(mount_check_model(s).0),
{
    if !s.lookup.no_xdev {
        lemma_advance_root_marks(s);
    }
}

proof fn lemma_tokenize_root_marks(s: StateModel)
    requires
        !s.saw_parent,
        s.queue.len() == 0,
    ensures
        inv_root_marks(tokenize_model(s).0),
{
    match crate::path::spec_split_path(s.path, s.orig_flags) {
        Ok(q) => {
            lemma_queue_of_path_root_only_front(s.path, s.orig_flags);
            lemma_advance_root_marks(StateModel { queue: q, ..s });
        },
        Err(_) => {},
    }
}

/// Every step keeps the root-marker discipline.
pub proof fn lemma_step_root_marks(s: StateModel, ev: EventModel)
    requires
        inv_root_marks(s),
    ensures
        inv_root_marks(step_model(s, ev).0),
{
    match s.phase {
        PhaseModel::Start => {},
        PhaseModel::RootStat => {
            match ev {
                EventModel::Stat { id, ftype } => {
                    if !s.root_is_sentinel && ftype == Some(FileType::Directory)
                        && !s.lookup.no_xdev {
                        lemma_tokenize_root_marks(StateModel { root_id: Some(id), ..s });
                    }
                },
                _ => {},
            }
        },
        PhaseModel::RootMount => {
            match ev {
                EventModel::Mount { id } => {
                    lemma_tokenize_root_marks(StateModel { dir_mnt: Some(id), ..s });
                },
                _ => {},
            }
        },
        PhaseModel::DotDotStat { .. } => {},
        PhaseModel::DotDotOpen => {
            match ev {
                EventModel::Opened => {
                    lemma_mount_check_root_marks(StateModel { saw_parent: true, ..s });
                },
                _ => {},
            }
        },
        PhaseModel::AfterDropCur | PhaseModel::DropChildNext => {
            match ev {
                EventModel::Ack => {
                    lemma_advance_root_marks(s);
                },
                _ => {},
            }
        },
        PhaseModel::ChildOpen { opath_check, .. } => {
            match ev {
                EventModel::Opened => {
                    if !opath_check {
                        lemma_mount_check_root_marks(StateModel { at_root: false, ..s });
                    }
                },
                _ => {},
            }
        },
        PhaseModel::ChildStat { .. } => {},
        PhaseModel::ChildAdopt => {
            match ev {
                EventModel::Ack => {
                    lemma_mount_check_root_marks(StateModel { at_root: false, ..s });
                },
                _ => {},
            }
        },
        PhaseModel::ReadLink { flags, by_fd, .. } => {
            match ev {
                EventModel::Link { target } => {
                    if !budget_exhausted(s) && !flags.nofollow {
                        let s2 = StateModel { budget_used: (s.budget_used + 1) as u16, ..s };
                        lemma_prepend_root_only_front(target, flags, s2.queue);
                        match crate::path::spec_prepend(target, flags, s2.queue) {
                            Ok(q) => {
                                if !by_fd {
                                    lemma_advance_root_marks(StateModel { queue: q, ..s2 });
                                }
                            },
                            Err(_) => {},
                        }
                    }
                },
                _ => {},
            }
        },
        PhaseModel::MountCheck => {
            match ev {
                EventModel::Mount { id } => {
                    if s.dir_mnt == Some(id) {
                        lemma_advance_root_marks(s);
                    }
                },
                _ => {},
            }
        },
        PhaseModel::RewindStat { .. } => {},
        PhaseModel::RewindOpen { .. } => {},
        PhaseModel::RewindDone { .. } => {},
        PhaseModel::FinalOpen => {},
        PhaseModel::Done => {},
    }
}

/// The consumed-root theorem: whenever a root marker stands at the
/// front of the queue, no ascent is pending — an absolute path or
/// spliced absolute target is never consumed with a `..` hanging
/// unverified.
pub proof fn lemma_no_root_after_parent(s: StateModel)
    requires
        inv_root_marks(s),
        s.queue.len() > 0,
        s.queue[0].comp is RootMark,
    ensures
        !s.saw_parent,
{
}

/// The caller's wishes reach the final open untouched: the last element
/// of a tokenized path carries exactly the caller's flags, with the
/// directory requirement added exactly when the path ends in `/` or
/// `/.`; every earlier element carries the directory-open flags.
pub proof fn lemma_final_component_flags(path: Seq<u8>, flags: OpenFlags)
    ensures
        ({
            let q = crate::path::queue_of_path(path, flags);
            &&& (q.len() > 0 ==> q[q.len() - 1].flags == crate::path::spec_last_flags(
                path,
                flags,
            ))
            &&& (forall|i: int|
                0 <= i < q.len() - 1 ==> (#[trigger] q[i]).flags
                    == crate::flags::spec_dir_open_flags())
        }),
{
}

/// A whole resolution as one value: the state after feeding every event
/// in order, and the actions handed back along the way.
pub open spec fn run_model(s: StateModel, evs: Seq<EventModel>) -> (StateModel, Seq<ActionModel>)
    decreases evs.len(),
{
    if evs.len() == 0 {
        (s, Seq::empty())
    } else {
        let first = step_model(s, evs[0]);
        let rest = run_model(first.0, evs.skip(1));
        (rest.0, seq![first.1] + rest.1)
    }
}

/// Every invariant of this module holds along every run: starting from
/// a state with a sound budget, the completion invariant and the
/// root-marker discipline, every state a run passes through keeps all
/// three, and the budget maximum never changes. With
/// `lemma_init_invariants` this covers every resolution from its first
/// step to its last.
pub proof fn lemma_run_invariants(s: StateModel, evs: Seq<EventModel>)
    requires
        s.budget_used <= s.budget_max,
        inv_finish(s),
        inv_root_marks(s),
    ensures
        ({
            let f = run_model(s, evs).0;
            &&& f.budget_used <= f.budget_max
            &&& f.budget_max == s.budget_max
            &&& inv_finish(f)
            &&& inv_root_marks(f)
        }),
    decreases evs.len(),
{
    if evs.len() > 0 {
        lemma_step_budget_bounded(s, evs[0]);
        lemma_finish_only_at_end(s, evs[0]);
        lemma_step_root_marks(s, evs[0]);
        lemma_run_invariants(step_model(s, evs[0]).0, evs.skip(1));
    }
}

/// Resolution is a function of the initial arguments and the kernel's
/// answers alone: two resolutions started alike and answered alike take
/// the same actions and end in the same state. All nondeterminism lives
/// in the kernel's answers — against an unchanged filesystem that
/// answers two identical walks identically, a second call therefore
/// resolves to the same file.
pub proof fn lemma_resolution_deterministic(
    s1: StateModel,
    s2: StateModel,
    evs1: Seq<EventModel>,
    evs2: Seq<EventModel>,
)
    requires
        s1 == s2,
        evs1 == evs2,
    ensures
        run_model(s1, evs1) == run_model(s2, evs2),
{
}

} // verus!
