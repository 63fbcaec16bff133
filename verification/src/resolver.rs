use vstd::prelude::*;

use std::collections::VecDeque;

use crate::budget::SymlinkCounter;
use crate::budget::DEFAULT_SYMLOOP_MAX;
use crate::errno::Errno;
use crate::errno::spec_canonical_open_errno;
use crate::errno::canonical_open_errno;
use crate::flags::LookupFlags;
use crate::flags::OpenFlags;
use crate::flags::spec_dir_open_flags;
use crate::flags::dir_open_flags;
use crate::meta::FileId;
use crate::meta::FileType;
use crate::meta::MountId;
use crate::path::CompModel;
use crate::path::Component;
use crate::path::EntryModel;
use crate::path::PathEntry;
use crate::path::queue_view;
use crate::path::spec_split_path;
use crate::path::spec_prepend;
use crate::path::split_path;
use crate::path::split_link_path_into;

verus! {

/// Which descriptor an action refers to. The driver holds one descriptor
/// per slot:
/// - `Root` is the caller's root descriptor;
/// - `Cur` is the walk's current position, or the root while the position
///   is the root itself;
/// - `Rewind` is the ancestor cursor of a rewind verification, or the
///   current position before the first ascent;
/// - `Child` is a freshly opened candidate not yet adopted as current.
#[derive(Clone, Copy, Debug, PartialEq, Eq, Structural)]
pub enum FdSlot {
    Root,
    Cur,
    Rewind,
    Child,
}

/// The name argument of an open the resolver requests.
#[derive(Debug)]
pub enum PathArg {
    /// Open `.`: the directory itself.
    Dot,
    /// Open `..`: the parent.
    DotDot,
    /// Open the named entry.
    Name(Vec<u8>),
}

/// The mathematical value of a `PathArg`.
pub enum PathArgModel {
    Dot,
    DotDot,
    Name(Seq<u8>),
}

impl View for PathArg {
    type V = PathArgModel;

    open spec fn view(&self) -> PathArgModel {
        match self {
            PathArg::Dot => PathArgModel::Dot,
            PathArg::DotDot => PathArgModel::DotDot,
            PathArg::Name(name) => PathArgModel::Name(name@),
        }
    }
}

/// What the resolver asks its driver to do next.
///
/// Every open is performed with close-on-exec and no-controlling-tty
/// added, relative to the descriptor in `dir`; on success the new
/// descriptor replaces whatever the `into` slot held. The driver answers
/// each action with the matching `Event` and calls `step` again;
/// `Finish` and `Fail` end the resolution.
#[derive(Debug)]
pub enum Action {
    /// `fstat` the descriptor in `slot`; answer `Stat` or `StatErr`.
    Fstat { slot: FdSlot },
    /// `openat` relative to `dir`; answer `Opened` or `OpenErr`.
    Open { dir: FdSlot, name: PathArg, flags: OpenFlags, mode: u32, into: FdSlot },
    /// `readlinkat` relative to `dir`; an empty name reads the link the
    /// descriptor itself refers to. Answer `Link` or `LinkErr`.
    ReadLinkAt { dir: FdSlot, name: Vec<u8> },
    /// Identify the mount holding the descriptor in `slot`; answer
    /// `Mount` or `MountErr`.
    IdentifyMount { slot: FdSlot },
    /// Close the current-position descriptor: the position returns to the
    /// root. Answer `Ack`.
    DropCur,
    /// Close the candidate descriptor. Answer `Ack`.
    DropChild,
    /// Adopt the candidate as the new current position: close the old
    /// current-position descriptor and move the candidate into its slot.
    /// Answer `Ack`.
    AdoptChild,
    /// Close the rewind cursor descriptor. Answer `Ack`.
    DropRewind,
    /// Resolution succeeded: the descriptor in `slot` is the result.
    Finish { slot: FdSlot },
    /// Resolution failed with this error.
    Fail { errno: Errno },
}

/// The mathematical value of an `Action`.
pub enum ActionModel {
    Fstat { slot: FdSlot },
    Open { dir: FdSlot, name: PathArgModel, flags: OpenFlags, mode: u32, into: FdSlot },
    ReadLinkAt { dir: FdSlot, name: Seq<u8> },
    IdentifyMount { slot: FdSlot },
    DropCur,
    DropChild,
    AdoptChild,
    DropRewind,
    Finish { slot: FdSlot },
    Fail { errno: Errno },
}

impl View for Action {
    type V = ActionModel;

    open spec fn view(&self) -> ActionModel {
        match self {
            Action::Fstat { slot } => ActionModel::Fstat { slot: *slot },
            Action::Open { dir, name, flags, mode, into } => ActionModel::Open {
                dir: *dir,
                name: name@,
                flags: *flags,
                mode: *mode,
                into: *into,
            },
            Action::ReadLinkAt { dir, name } => ActionModel::ReadLinkAt {
                dir: *dir,
                name: name@,
            },
            Action::IdentifyMount { slot } => ActionModel::IdentifyMount { slot: *slot },
            Action::DropCur => ActionModel::DropCur,
            Action::DropChild => ActionModel::DropChild,
            Action::AdoptChild => ActionModel::AdoptChild,
            Action::DropRewind => ActionModel::DropRewind,
            Action::Finish { slot } => ActionModel::Finish { slot: *slot },
            Action::Fail { errno } => ActionModel::Fail { errno: *errno },
        }
    }
}

/// What the driver reports back for the action it performed.
#[derive(Debug)]
pub enum Event {
    /// Start resolution; the answer to no action.
    Begin,
    /// The stat succeeded: the file's identity and its type, if known.
    Stat { id: FileId, ftype: Option<FileType> },
    /// The stat failed.
    StatErr { errno: Errno },
    /// The open succeeded; the descriptor now sits in the action's `into`
    /// slot.
    Opened,
    /// The open failed.
    OpenErr { errno: Errno },
    /// The link read succeeded with this target.
    Link { target: Vec<u8> },
    /// The link read failed.
    LinkErr { errno: Errno },
    /// The mount probe succeeded.
    Mount { id: MountId },
    /// The mount probe failed.
    MountErr { errno: Errno },
    /// A bookkeeping action (a drop) was performed.
    Ack,
}

/// The mathematical value of an `Event`.
pub enum EventModel {
    Begin,
    Stat { id: FileId, ftype: Option<FileType> },
    StatErr { errno: Errno },
    Opened,
    OpenErr { errno: Errno },
    Link { target: Seq<u8> },
    LinkErr { errno: Errno },
    Mount { id: MountId },
    MountErr { errno: Errno },
    Ack,
}

impl View for Event {
    type V = EventModel;

    open spec fn view(&self) -> EventModel {
        match self {
            Event::Begin => EventModel::Begin,
            Event::Stat { id, ftype } => EventModel::Stat { id: *id, ftype: *ftype },
            Event::StatErr { errno } => EventModel::StatErr { errno: *errno },
            Event::Opened => EventModel::Opened,
            Event::OpenErr { errno } => EventModel::OpenErr { errno: *errno },
            Event::Link { target } => EventModel::Link { target: target@ },
            Event::LinkErr { errno } => EventModel::LinkErr { errno: *errno },
            Event::Mount { id } => EventModel::Mount { id: *id },
            Event::MountErr { errno } => EventModel::MountErr { errno: *errno },
            Event::Ack => EventModel::Ack,
        }
    }
}

/// A normal component whose open waits for a rewind verification to
/// confirm the current position first.
#[derive(Debug)]
pub struct PendingOpen {
    pub name: Vec<u8>,
    pub flags: OpenFlags,
}

/// The mathematical value of a `PendingOpen`.
pub struct PendingModel {
    pub name: Seq<u8>,
    pub flags: OpenFlags,
}

impl View for PendingOpen {
    type V = PendingModel;

    open spec fn view(&self) -> PendingModel {
        PendingModel { name: self.name@, flags: self.flags }
    }
}

/// Which answer the resolver is waiting for.
#[derive(Debug)]
enum Phase {
    /// Waiting for `Begin`.
    Start,
    /// Waiting for the stat of the root.
    RootStat,
    /// Waiting for the mount identity of the root.
    RootMount,
    /// A `..` was popped; waiting for the stat of the current position to
    /// see whether it is the root.
    DotDotStat { flags: OpenFlags },
    /// Waiting for the open of `..` into the current slot.
    DotDotOpen,
    /// Waiting for the current-position descriptor to be dropped.
    AfterDropCur,
    /// Waiting for the open of a normal component.
    ChildOpen { name: Vec<u8>, flags: OpenFlags, opath_check: bool },
    /// The opened candidate may be a symlink opened through a path-only
    /// request; waiting for its stat.
    ChildStat { flags: OpenFlags },
    /// Waiting for the candidate to be adopted as the current position.
    ChildAdopt,
    /// Waiting for the symlink target. `eno` is the canonicalized error
    /// that suggested a symlink; `by_fd` says the link is read through
    /// the candidate descriptor itself.
    ReadLink { flags: OpenFlags, eno: Errno, by_fd: bool },
    /// Waiting for the candidate descriptor to be dropped after its
    /// target was spliced into the queue.
    DropChildNext,
    /// Waiting for the mount identity of the new current position.
    MountCheck,
    /// Rewind verification: waiting for the stat of the rewind cursor.
    RewindStat { prev: Option<FileId>, pending: Option<PendingOpen> },
    /// Rewind verification: waiting for the open of the next ancestor.
    RewindOpen { prev: FileId, pending: Option<PendingOpen> },
    /// Rewind verification succeeded; waiting for the cursor drop.
    RewindDone { pending: Option<PendingOpen> },
    /// Waiting for the final open of `.` on the root.
    FinalOpen,
    /// Resolution has ended.
    Done,
}

/// The mathematical value of a `Phase`.
pub enum PhaseModel {
    Start,
    RootStat,
    RootMount,
    DotDotStat { flags: OpenFlags },
    DotDotOpen,
    AfterDropCur,
    ChildOpen { name: Seq<u8>, flags: OpenFlags, opath_check: bool },
    ChildStat { flags: OpenFlags },
    ChildAdopt,
    ReadLink { flags: OpenFlags, eno: Errno, by_fd: bool },
    DropChildNext,
    MountCheck,
    RewindStat { prev: Option<FileId>, pending: Option<PendingModel> },
    RewindOpen { prev: FileId, pending: Option<PendingModel> },
    RewindDone { pending: Option<PendingModel> },
    FinalOpen,
    Done,
}

spec fn pending_view(p: Option<PendingOpen>) -> Option<PendingModel> {
    match p {
        Some(x) => Some(x@),
        None => None,
    }
}

spec fn phase_view(p: Phase) -> PhaseModel {
    match p {
        Phase::Start => PhaseModel::Start,
        Phase::RootStat => PhaseModel::RootStat,
        Phase::RootMount => PhaseModel::RootMount,
        Phase::DotDotStat { flags } => PhaseModel::DotDotStat { flags },
        Phase::DotDotOpen => PhaseModel::DotDotOpen,
        Phase::AfterDropCur => PhaseModel::AfterDropCur,
        Phase::ChildOpen { name, flags, opath_check } => PhaseModel::ChildOpen {
            name: name@,
            flags,
            opath_check,
        },
        Phase::ChildStat { flags } => PhaseModel::ChildStat { flags },
        Phase::ChildAdopt => PhaseModel::ChildAdopt,
        Phase::ReadLink { flags, eno, by_fd } => PhaseModel::ReadLink { flags, eno, by_fd },
        Phase::DropChildNext => PhaseModel::DropChildNext,
        Phase::MountCheck => PhaseModel::MountCheck,
        Phase::RewindStat { prev, pending } => PhaseModel::RewindStat {
            prev,
            pending: pending_view(pending),
        },
        Phase::RewindOpen { prev, pending } => PhaseModel::RewindOpen {
            prev,
            pending: pending_view(pending),
        },
        Phase::RewindDone { pending } => PhaseModel::RewindDone {
            pending: pending_view(pending),
        },
        Phase::FinalOpen => PhaseModel::FinalOpen,
        Phase::Done => PhaseModel::Done,
    }
}

/// The resolver's whole state, as mathematics: what `Resolver` refines.
#[verifier::ext_equal]
pub struct StateModel {
    pub lookup: LookupFlags,
    pub orig_flags: OpenFlags,
    pub mode: u32,
    pub root_is_sentinel: bool,
    pub path: Seq<u8>,
    pub root_id: Option<FileId>,
    pub dir_mnt: Option<MountId>,
    pub queue: Seq<EntryModel>,
    pub budget_max: u16,
    pub budget_used: u16,
    pub saw_parent: bool,
    pub at_root: bool,
    pub phase: PhaseModel,
}

/// The state a fresh resolver starts in.
pub open spec fn init_model(
    root_is_sentinel: bool,
    path: Seq<u8>,
    flags: OpenFlags,
    mode: u32,
    lookup: LookupFlags,
    symloop_max: Option<u16>,
) -> StateModel {
    StateModel {
        lookup,
        orig_flags: flags,
        mode,
        root_is_sentinel,
        path,
        root_id: None,
        dir_mnt: None,
        queue: Seq::empty(),
        budget_max: if lookup.no_symlinks {
            0
        } else {
            match symloop_max {
                Some(m) => m,
                None => DEFAULT_SYMLOOP_MAX,
            }
        },
        budget_used: 0,
        saw_parent: false,
        at_root: true,
        phase: PhaseModel::Start,
    }
}

/// Ends the resolution with an error.
pub open spec fn fail_model(s: StateModel, e: Errno) -> (StateModel, ActionModel) {
    (StateModel { phase: PhaseModel::Done, ..s }, ActionModel::Fail { errno: e })
}

/// Whether the symlink budget is used up.
pub open spec fn budget_exhausted(s: StateModel) -> bool {
    s.budget_used >= s.budget_max
}

/// Requests the open of a normal component: always with the do-not-follow
/// bit added, so a symlink leaf surfaces as an error the resolver can
/// interpret. When the caller asked for a path-only handle without the
/// nofollow or directory bits, the opened descriptor could itself refer
/// to a symlink, so the candidate goes to the `Child` slot for a stat
/// check first; otherwise it becomes the current position directly.
pub open spec fn child_open_model(
    s: StateModel,
    name: Seq<u8>,
    flags: OpenFlags,
) -> (StateModel, ActionModel) {
    let opath_check = flags.path_only && !flags.nofollow && !flags.directory;
    (
        StateModel { phase: PhaseModel::ChildOpen { name, flags, opath_check }, ..s },
        ActionModel::Open {
            dir: FdSlot::Cur,
            name: PathArgModel::Name(name),
            flags: OpenFlags { nofollow: true, ..flags },
            mode: s.mode,
            into: if opath_check {
                FdSlot::Child
            } else {
                FdSlot::Cur
            },
        },
    )
}

/// Ends a completed walk: back at the root, the result is a fresh open of
/// `.` on the root with the caller's original flags; otherwise the
/// current descriptor is the result.
pub open spec fn finalize_model(s: StateModel) -> (StateModel, ActionModel) {
    if s.at_root {
        (
            StateModel { phase: PhaseModel::FinalOpen, ..s },
            ActionModel::Open {
                dir: FdSlot::Root,
                name: PathArgModel::Dot,
                flags: s.orig_flags,
                mode: s.mode,
                into: FdSlot::Child,
            },
        )
    } else {
        (StateModel { phase: PhaseModel::Done, ..s }, ActionModel::Finish { slot: FdSlot::Cur })
    }
}

/// After the current position changed: under `NO_XDEV` its mount identity
/// must be probed and compared against the root's before the walk goes
/// on.
pub open spec fn mount_check_model(s: StateModel) -> (StateModel, ActionModel) {
    if s.lookup.no_xdev {
        (
            StateModel { phase: PhaseModel::MountCheck, ..s },
            ActionModel::IdentifyMount { slot: FdSlot::Cur },
        )
    } else {
        advance_model(s)
    }
}

/// Consumes queue elements until an action is needed.
///
/// - An empty queue ends the walk — after one last rewind verification if
///   the last consumed component was `..`.
/// - A root marker without `IN_ROOT` fails with `EXDEV`; with it, the
///   position returns to the root.
/// - A `..` at the root without `IN_ROOT` fails with `EXDEV`; with it,
///   the position stays at the root. Anywhere else, the position's stat
///   decides whether it stands at the root.
/// - A normal component is opened — but if a `..` was consumed since the
///   last open, the rewind verification must first prove the position
///   still lies beneath the root.
pub open spec fn advance_model(s: StateModel) -> (StateModel, ActionModel)
    decreases s.queue.len(),
{
    if s.queue.len() == 0 {
        if s.saw_parent {
            (
                StateModel {
                    phase: PhaseModel::RewindStat { prev: None, pending: None },
                    ..s
                },
                ActionModel::Fstat { slot: FdSlot::Rewind },
            )
        } else {
            finalize_model(s)
        }
    } else {
        let e = s.queue[0];
        let s1 = StateModel { queue: s.queue.skip(1), ..s };
        match e.comp {
            CompModel::RootMark => {
                if !s.lookup.in_root {
                    fail_model(s1, Errno::EXDEV)
                } else if s.at_root {
                    advance_model(s1)
                } else {
                    (
                        StateModel { phase: PhaseModel::AfterDropCur, at_root: true, ..s1 },
                        ActionModel::DropCur,
                    )
                }
            },
            CompModel::Parent => {
                if s.at_root {
                    if !s.lookup.in_root {
                        fail_model(s1, Errno::EXDEV)
                    } else {
                        advance_model(StateModel { saw_parent: false, ..s1 })
                    }
                } else {
                    (
                        StateModel { phase: PhaseModel::DotDotStat { flags: e.flags }, ..s1 },
                        ActionModel::Fstat { slot: FdSlot::Cur },
                    )
                }
            },
            CompModel::Normal(name) => {
                if s.saw_parent {
                    (
                        StateModel {
                            phase: PhaseModel::RewindStat {
                                prev: None,
                                pending: Some(PendingModel { name, flags: e.flags }),
                            },
                            ..s1
                        },
                        ActionModel::Fstat { slot: FdSlot::Rewind },
                    )
                } else {
                    child_open_model(s1, name, e.flags)
                }
            },
        }
    }
}

/// Tokenizes the stored path and starts consuming it.
pub open spec fn tokenize_model(s: StateModel) -> (StateModel, ActionModel) {
    match spec_split_path(s.path, s.orig_flags) {
        Ok(q) => advance_model(StateModel { queue: q, ..s }),
        Err(e) => fail_model(s, e),
    }
}

/// One transition of the resolver, waiting for `Begin`.
pub open spec fn step_start(s: StateModel, ev: EventModel) -> (StateModel, ActionModel) {
    match ev {
        EventModel::Begin => (
            StateModel { phase: PhaseModel::RootStat, ..s },
            ActionModel::Fstat { slot: FdSlot::Root },
        ),
        _ => fail_model(s, Errno::EINVAL),
    }
}

/// One transition of the resolver, waiting for the stat of the root:
/// the ambient-cwd sentinel fails with `EBADF`, a non-directory root
/// with `ENOTDIR`; otherwise the root's identity is captured and, under
/// `NO_XDEV`, its mount identity is probed before the path is tokenized.
pub open spec fn step_root_stat(s: StateModel, ev: EventModel) -> (StateModel, ActionModel) {
    match ev {
        EventModel::Stat { id, ftype } => {
            if s.root_is_sentinel {
                fail_model(s, Errno::EBADF)
            } else if ftype != Some(FileType::Directory) {
                fail_model(s, Errno::ENOTDIR)
            } else {
                let s2 = StateModel { root_id: Some(id), ..s };
                if s.lookup.no_xdev {
                    (
                        StateModel { phase: PhaseModel::RootMount, ..s2 },
                        ActionModel::IdentifyMount { slot: FdSlot::Root },
                    )
                } else {
                    tokenize_model(s2)
                }
            }
        },
        EventModel::StatErr { errno } => fail_model(s, errno),
        _ => fail_model(s, Errno::EINVAL),
    }
}

/// One transition of the resolver, waiting for the root's mount
/// identity.
pub open spec fn step_root_mount(s: StateModel, ev: EventModel) -> (StateModel, ActionModel) {
    match ev {
        EventModel::Mount { id } => tokenize_model(StateModel { dir_mnt: Some(id), ..s }),
        EventModel::MountErr { errno } => fail_model(s, errno),
        _ => fail_model(s, Errno::EINVAL),
    }
}

/// One transition of the resolver after a `..` was popped, waiting for
/// the stat of the current position. Standing at the root, `..` either
/// clamps (under `IN_ROOT`) or escapes with `EXDEV`; anywhere else, the
/// parent is opened with the component's flags.
pub open spec fn step_dotdot_stat(
    s: StateModel,
    flags: OpenFlags,
    ev: EventModel,
) -> (StateModel, ActionModel) {
    match ev {
        EventModel::Stat { id, ftype: _ } => {
            if s.root_id == Some(id) {
                if !s.lookup.in_root {
                    fail_model(s, Errno::EXDEV)
                } else {
                    (
                        StateModel {
                            phase: PhaseModel::AfterDropCur,
                            at_root: true,
                            saw_parent: false,
                            ..s
                        },
                        ActionModel::DropCur,
                    )
                }
            } else {
                (
                    StateModel { phase: PhaseModel::DotDotOpen, ..s },
                    ActionModel::Open {
                        dir: FdSlot::Cur,
                        name: PathArgModel::DotDot,
                        flags,
                        mode: s.mode,
                        into: FdSlot::Cur,
                    },
                )
            }
        },
        EventModel::StatErr { errno } => fail_model(s, errno),
        _ => fail_model(s, Errno::EINVAL),
    }
}

/// One transition of the resolver, waiting for the open of `..`: on
/// success the ascent is recorded, so a rewind verification must run
/// before the walk uses the new position.
pub open spec fn step_dotdot_open(s: StateModel, ev: EventModel) -> (StateModel, ActionModel) {
    match ev {
        EventModel::Opened => mount_check_model(StateModel { saw_parent: true, ..s }),
        EventModel::OpenErr { errno } => fail_model(s, errno),
        _ => fail_model(s, Errno::EINVAL),
    }
}

/// One transition of the resolver, waiting for a bookkeeping drop to be
/// acknowledged before consuming the next component.
pub open spec fn step_resume(s: StateModel, ev: EventModel) -> (StateModel, ActionModel) {
    match ev {
        EventModel::Ack => advance_model(s),
        _ => fail_model(s, Errno::EINVAL),
    }
}

/// One transition of the resolver, waiting for the open of a normal
/// component.
///
/// On success, a path-only candidate goes to a stat check; any other
/// descriptor is the new position. On failure, the error is
/// canonicalized; only "the leaf was a symlink" (`ELOOP`) and "not a
/// directory" (`ENOTDIR`, which a symlink leaf under a directory
/// requirement also produces) lead to the symlink expander, and a
/// definite symlink that may not be followed — the nofollow bit set, or
/// the budget already spent — fails at once.
pub open spec fn step_child_open(
    s: StateModel,
    name: Seq<u8>,
    flags: OpenFlags,
    opath_check: bool,
    ev: EventModel,
) -> (StateModel, ActionModel) {
    match ev {
        EventModel::Opened => {
            if opath_check {
                (
                    StateModel { phase: PhaseModel::ChildStat { flags }, ..s },
                    ActionModel::Fstat { slot: FdSlot::Child },
                )
            } else {
                mount_check_model(StateModel { at_root: false, ..s })
            }
        },
        EventModel::OpenErr { errno } => {
            let eno = spec_canonical_open_errno(errno);
            if eno != Errno::ELOOP && eno != Errno::ENOTDIR {
                fail_model(s, eno)
            } else if eno == Errno::ELOOP && (flags.nofollow || budget_exhausted(s)) {
                fail_model(
                    s,
                    if flags.directory && !budget_exhausted(s) {
                        Errno::ENOTDIR
                    } else {
                        Errno::ELOOP
                    },
                )
            } else {
                (
                    StateModel { phase: PhaseModel::ReadLink { flags, eno, by_fd: false }, ..s },
                    ActionModel::ReadLinkAt { dir: FdSlot::Cur, name },
                )
            }
        },
        _ => fail_model(s, Errno::EINVAL),
    }
}

/// One transition of the resolver, waiting for the stat of a path-only
/// candidate: a symlink goes to the expander, read through the candidate
/// descriptor itself; anything else is adopted as the new position.
pub open spec fn step_child_stat(
    s: StateModel,
    flags: OpenFlags,
    ev: EventModel,
) -> (StateModel, ActionModel) {
    match ev {
        EventModel::Stat { id: _, ftype } => {
            if ftype == Some(FileType::Symlink) {
                if budget_exhausted(s) {
                    fail_model(s, Errno::ELOOP)
                } else {
                    (
                        StateModel {
                            phase: PhaseModel::ReadLink { flags, eno: Errno::ELOOP, by_fd: true },
                            ..s
                        },
                        ActionModel::ReadLinkAt { dir: FdSlot::Child, name: Seq::empty() },
                    )
                }
            } else {
                (StateModel { phase: PhaseModel::ChildAdopt, ..s }, ActionModel::AdoptChild)
            }
        },
        EventModel::StatErr { errno } => fail_model(s, errno),
        _ => fail_model(s, Errno::EINVAL),
    }
}

/// One transition of the resolver, waiting for the candidate to be
/// adopted as the new position.
pub open spec fn step_child_adopt(s: StateModel, ev: EventModel) -> (StateModel, ActionModel) {
    match ev {
        EventModel::Ack => mount_check_model(StateModel { at_root: false, ..s }),
        _ => fail_model(s, Errno::EINVAL),
    }
}

/// One transition of the resolver, waiting for a symlink's target.
///
/// A target consumes one unit of budget — an exhausted budget fails with
/// `ELOOP`. A leaf that may not be followed fails (`ENOTDIR` when a
/// directory was demanded, else `ELOOP`). Otherwise the target is
/// spliced onto the front of the queue and the walk resumes. If the read
/// itself fails with `EINVAL`, the entry is no symlink: a plain
/// `ENOTDIR` diagnosis stands, and a definite-symlink diagnosis means
/// the entry mutated between the two calls — a race, surfaced as
/// `EAGAIN`.
pub open spec fn step_read_link(
    s: StateModel,
    flags: OpenFlags,
    eno: Errno,
    by_fd: bool,
    ev: EventModel,
) -> (StateModel, ActionModel) {
    match ev {
        EventModel::Link { target } => {
            if budget_exhausted(s) {
                fail_model(s, Errno::ELOOP)
            } else {
                let s2 = StateModel { budget_used: (s.budget_used + 1) as u16, ..s };
                if flags.nofollow {
                    fail_model(
                        s2,
                        if flags.directory {
                            Errno::ENOTDIR
                        } else {
                            Errno::ELOOP
                        },
                    )
                } else {
                    match spec_prepend(target, flags, s2.queue) {
                        Ok(q) => {
                            let s3 = StateModel { queue: q, ..s2 };
                            if by_fd {
                                (
                                    StateModel { phase: PhaseModel::DropChildNext, ..s3 },
                                    ActionModel::DropChild,
                                )
                            } else {
                                advance_model(s3)
                            }
                        },
                        Err(e) => fail_model(s2, e),
                    }
                }
            }
        },
        EventModel::LinkErr { errno } => {
            if errno == Errno::EINVAL {
                if eno == Errno::ENOTDIR {
                    fail_model(s, Errno::ENOTDIR)
                } else {
                    fail_model(s, Errno::EAGAIN)
                }
            } else {
                fail_model(s, errno)
            }
        },
        _ => fail_model(s, Errno::EINVAL),
    }
}

/// One transition of the resolver, waiting for the mount identity of the
/// new position: a mismatch with the root's fails with `EXDEV`.
pub open spec fn step_mount_check(s: StateModel, ev: EventModel) -> (StateModel, ActionModel) {
    match ev {
        EventModel::Mount { id } => {
            if s.dir_mnt == Some(id) {
                advance_model(s)
            } else {
                fail_model(s, Errno::EXDEV)
            }
        },
        EventModel::MountErr { errno } => fail_model(s, errno),
        _ => fail_model(s, Errno::EINVAL),
    }
}

/// One transition of the rewind verification, waiting for the stat of
/// the cursor: the root's identity confirms the position lies beneath;
/// an identity equal to the previous ancestor means `..` stood still at
/// the real filesystem root without ever passing the caller's root — a
/// race-induced escape, `EAGAIN`; anything else ascends further.
pub open spec fn step_rewind_stat(
    s: StateModel,
    prev: Option<FileId>,
    pending: Option<PendingModel>,
    ev: EventModel,
) -> (StateModel, ActionModel) {
    match ev {
        EventModel::Stat { id, ftype: _ } => {
            if s.root_id == Some(id) {
                (
                    StateModel {
                        phase: PhaseModel::RewindDone { pending },
                        saw_parent: false,
                        ..s
                    },
                    ActionModel::DropRewind,
                )
            } else if prev == Some(id) {
                fail_model(s, Errno::EAGAIN)
            } else {
                (
                    StateModel { phase: PhaseModel::RewindOpen { prev: id, pending }, ..s },
                    ActionModel::Open {
                        dir: FdSlot::Rewind,
                        name: PathArgModel::DotDot,
                        flags: spec_dir_open_flags(),
                        mode: 0,
                        into: FdSlot::Rewind,
                    },
                )
            }
        },
        EventModel::StatErr { errno } => fail_model(s, errno),
        _ => fail_model(s, Errno::EINVAL),
    }
}

/// One transition of the rewind verification, waiting for the open of
/// the next ancestor.
pub open spec fn step_rewind_open(
    s: StateModel,
    prev: FileId,
    pending: Option<PendingModel>,
    ev: EventModel,
) -> (StateModel, ActionModel) {
    match ev {
        EventModel::Opened => (
            StateModel { phase: PhaseModel::RewindStat { prev: Some(prev), pending }, ..s },
            ActionModel::Fstat { slot: FdSlot::Rewind },
        ),
        EventModel::OpenErr { errno } => fail_model(s, errno),
        _ => fail_model(s, Errno::EINVAL),
    }
}

/// One transition after a successful rewind verification: the deferred
/// component open proceeds, or, when the queue had already emptied, the
/// walk ends.
pub open spec fn step_rewind_done(
    s: StateModel,
    pending: Option<PendingModel>,
    ev: EventModel,
) -> (StateModel, ActionModel) {
    match ev {
        EventModel::Ack => match pending {
            Some(p) => child_open_model(s, p.name, p.flags),
            None => finalize_model(s),
        },
        _ => fail_model(s, Errno::EINVAL),
    }
}

/// One transition of the resolver, waiting for the final open of `.` on
/// the root.
pub open spec fn step_final_open(s: StateModel, ev: EventModel) -> (StateModel, ActionModel) {
    match ev {
        EventModel::Opened => (
            StateModel { phase: PhaseModel::Done, ..s },
            ActionModel::Finish { slot: FdSlot::Child },
        ),
        EventModel::OpenErr { errno } => fail_model(s, errno),
        _ => fail_model(s, Errno::EINVAL),
    }
}

/// The resolver's transition function: what `Resolver::step` does for
/// every state and event, by the phase the state waits in. An event that
/// answers no pending action, or any event after the resolution ended,
/// fails with `EINVAL`. No transition reads the phase of its result from
/// the incoming state: each writes the phase it moves to.
pub open spec fn step_model(s: StateModel, ev: EventModel) -> (StateModel, ActionModel) {
    match s.phase {
        PhaseModel::Start => step_start(s, ev),
        PhaseModel::RootStat => step_root_stat(s, ev),
        PhaseModel::RootMount => step_root_mount(s, ev),
        PhaseModel::DotDotStat { flags } => step_dotdot_stat(s, flags, ev),
        PhaseModel::DotDotOpen => step_dotdot_open(s, ev),
        PhaseModel::AfterDropCur => step_resume(s, ev),
        PhaseModel::ChildOpen { name, flags, opath_check } => step_child_open(
            s,
            name,
            flags,
            opath_check,
            ev,
        ),
        PhaseModel::ChildStat { flags } => step_child_stat(s, flags, ev),
        PhaseModel::ChildAdopt => step_child_adopt(s, ev),
        PhaseModel::ReadLink { flags, eno, by_fd } => step_read_link(s, flags, eno, by_fd, ev),
        PhaseModel::DropChildNext => step_resume(s, ev),
        PhaseModel::MountCheck => step_mount_check(s, ev),
        PhaseModel::RewindStat { prev, pending } => step_rewind_stat(s, prev, pending, ev),
        PhaseModel::RewindOpen { prev, pending } => step_rewind_open(s, prev, pending, ev),
        PhaseModel::RewindDone { pending } => step_rewind_done(s, pending, ev),
        PhaseModel::FinalOpen => step_final_open(s, ev),
        PhaseModel::Done => fail_model(s, Errno::EINVAL),
    }
}

/// The path-resolution state machine.
///
/// A `Resolver` makes every decision of a beneath-confined path walk; a
/// driver performs the system calls. The driver creates the resolver,
/// calls `step(Begin)`, performs the returned action, answers it with the
/// matching event, and repeats until `Finish` or `Fail` comes back.
/// `step` is proved to compute exactly `step_model` on the state's
/// mathematical value, so everything shown of the model holds of a run.
#[derive(Debug)]
pub struct Resolver {
    lookup: LookupFlags,
    orig_flags: OpenFlags,
    mode: u32,
    root_is_sentinel: bool,
    path: Vec<u8>,
    root_id: Option<FileId>,
    dir_mnt: Option<MountId>,
    queue: VecDeque<PathEntry>,
    budget: SymlinkCounter,
    saw_parent: bool,
    at_root: bool,
    phase: Phase,
}

impl View for Resolver {
    type V = StateModel;

    closed spec fn view(&self) -> StateModel {
        StateModel {
            lookup: self.lookup,
            orig_flags: self.orig_flags,
            mode: self.mode,
            root_is_sentinel: self.root_is_sentinel,
            path: self.path@,
            root_id: self.root_id,
            dir_mnt: self.dir_mnt,
            queue: queue_view(self.queue@),
            budget_max: self.budget.spec_max(),
            budget_used: self.budget.spec_used(),
            saw_parent: self.saw_parent,
            at_root: self.at_root,
            phase: phase_view(self.phase),
        }
    }
}

impl Resolver {
    /// A resolver for one walk: `root_is_sentinel` says the caller passed
    /// the ambient-cwd marker instead of a real descriptor, `path` is the
    /// caller's byte path, `flags` and `mode` are the caller's open
    /// arguments, and `symloop_max` is the system's symlink-loop limit if
    /// it reports one.
    pub fn new(
        root_is_sentinel: bool,
        path: Vec<u8>,
        flags: OpenFlags,
        mode: u32,
        lookup: LookupFlags,
        symloop_max: Option<u16>,
    ) -> (r: Resolver)
        ensures
            r@ == init_model(root_is_sentinel, path@, flags, mode, lookup, symloop_max),
    {
        let budget = if lookup.no_symlinks {
            SymlinkCounter::nolinks()
        } else {
            match symloop_max {
                Some(m) => SymlinkCounter::with_max(m),
                None => SymlinkCounter::new(),
            }
        };
        let r = Resolver {
            lookup,
            orig_flags: flags,
            mode,
            root_is_sentinel,
            path,
            root_id: None,
            dir_mnt: None,
            queue: VecDeque::new(),
            budget,
            saw_parent: false,
            at_root: true,
            phase: Phase::Start,
        };
        proof {
            assert(r@ =~= init_model(root_is_sentinel, r.path@, flags, mode, lookup, symloop_max));
        }
        r
    }

    /// Ends the resolution with an error.
    fn fail(&mut self, e: Errno) -> (r: Action)
        ensures
            final(self)@ == fail_model(old(self)@, e).0,
            r@ == fail_model(old(self)@, e).1,
    {
        self.phase = Phase::Done;
        Action::Fail { errno: e }
    }

    /// Requests the open of a normal component, as `child_open_model`
    /// describes.
    fn child_open(&mut self, name: Vec<u8>, flags: OpenFlags) -> (r: Action)
        ensures
            final(self)@ == child_open_model(old(self)@, name@, flags).0,
            r@ == child_open_model(old(self)@, name@, flags).1,
    {
        let opath_check = flags.path_only && !flags.nofollow && !flags.directory;
        let ghost gname = name@;
        let action_name = name.clone();
        self.phase = Phase::ChildOpen { name, flags, opath_check };
        proof {
            assert(action_name@ == gname);
        }
        Action::Open {
            dir: FdSlot::Cur,
            name: PathArg::Name(action_name),
            flags: flags.with_nofollow(),
            mode: self.mode,
            into: if opath_check {
                FdSlot::Child
            } else {
                FdSlot::Cur
            },
        }
    }

    /// Ends a completed walk, as `finalize_model` describes.
    fn finalize(&mut self) -> (r: Action)
        ensures
            final(self)@ == finalize_model(old(self)@).0,
            r@ == finalize_model(old(self)@).1,
    {
        if self.at_root {
            self.phase = Phase::FinalOpen;
            Action::Open {
                dir: FdSlot::Root,
                name: PathArg::Dot,
                flags: self.orig_flags,
                mode: self.mode,
                into: FdSlot::Child,
            }
        } else {
            self.phase = Phase::Done;
            Action::Finish { slot: FdSlot::Cur }
        }
    }

    /// Consumes queue elements until an action is needed, as
    /// `advance_model` describes.
    #[verifier::loop_isolation(false)]
    fn advance(&mut self) -> (r: Action)
        ensures
            final(self)@ == advance_model(old(self)@).0,
            r@ == advance_model(old(self)@).1,
    {
        let ghost orig = old(self)@;
        loop
            invariant
                advance_model(self@) == advance_model(orig),
            decreases self@.queue.len(),
        {
            let ghost s = self@;
            if self.queue.len() == 0 {
                if self.saw_parent {
                    self.phase = Phase::RewindStat { prev: None, pending: None };
                    proof {
                        assert(self@ =~= advance_model(s).0);
                    }
                    return Action::Fstat { slot: FdSlot::Rewind };
                } else {
                    let r = self.finalize();
                    return r;
                }
            }
            let entry = match self.queue.pop_front() {
                Some(e) => e,
                None => {
                    proof {
                        assert(false);
                    }
                    unreached()
                },
            };
            let ghost s1 = StateModel { queue: s.queue.skip(1), ..s };
            proof {
                assert(entry@ == s.queue[0]);
                assert(self@ =~= s1);
            }
            match entry.comp {
                Component::RootMark => {
                    if !self.lookup.in_root {
                        let r = self.fail(Errno::EXDEV);
                        return r;
                    } else if self.at_root {
                        // Already standing at the root: nothing to drop.
                    } else {
                        self.at_root = true;
                        self.phase = Phase::AfterDropCur;
                        proof {
                            assert(self@ =~= advance_model(s).0);
                        }
                        return Action::DropCur;
                    }
                },
                Component::Parent => {
                    if self.at_root {
                        if !self.lookup.in_root {
                            let r = self.fail(Errno::EXDEV);
                            return r;
                        } else {
                            // Clamp: `..` at the root stays at the root.
                            self.saw_parent = false;
                            proof {
                                assert(self@ =~= (StateModel { saw_parent: false, ..s1 }));
                            }
                        }
                    } else {
                        self.phase = Phase::DotDotStat { flags: entry.flags };
                        proof {
                            assert(self@ =~= advance_model(s).0);
                        }
                        return Action::Fstat { slot: FdSlot::Cur };
                    }
                },
                Component::Normal(name) => {
                    if self.saw_parent {
                        let ghost gname = name@;
                        self.phase = Phase::RewindStat {
                            prev: None,
                            pending: Some(PendingOpen { name, flags: entry.flags }),
                        };
                        proof {
                            assert(self@ =~= advance_model(s).0);
                        }
                        return Action::Fstat { slot: FdSlot::Rewind };
                    } else {
                        let r = self.child_open(name, entry.flags);
                        return r;
                    }
                },
            }
        }
    }

    /// After the current position changed: probes its mount identity
    /// first under `NO_XDEV`, as `mount_check_model` describes.
    fn mount_check(&mut self) -> (r: Action)
        ensures
            final(self)@ == mount_check_model(old(self)@).0,
            r@ == mount_check_model(old(self)@).1,
    {
        if self.lookup.no_xdev {
            self.phase = Phase::MountCheck;
            Action::IdentifyMount { slot: FdSlot::Cur }
        } else {
            let r = self.advance();
            r
        }
    }

    /// Tokenizes the stored path and starts consuming it, as
    /// `tokenize_model` describes.
    fn tokenize(&mut self) -> (r: Action)
        ensures
            final(self)@ == tokenize_model(old(self)@).0,
            r@ == tokenize_model(old(self)@).1,
    {
        let parsed = split_path(self.path.as_slice(), self.orig_flags);
        match parsed {
            Ok(q) => {
                self.queue = q;
                let r = self.advance();
                r
            },
            Err(e) => {
                let r = self.fail(e);
                r
            },
        }
    }

    /// Handles `Begin`, as `step_start` describes.
    fn on_start(&mut self, ev: &Event) -> (r: Action)
        requires
            old(self)@.phase is Start,
        ensures
            final(self)@ == step_model(old(self)@, ev@).0,
            r@ == step_model(old(self)@, ev@).1,
    {
        match ev {
            Event::Begin => {
                self.phase = Phase::RootStat;
                Action::Fstat { slot: FdSlot::Root }
            },
            _ => self.fail(Errno::EINVAL),
        }
    }

    /// Handles the stat of the root, as `step_root_stat` describes.
    fn on_root_stat(&mut self, ev: &Event) -> (r: Action)
        requires
            old(self)@.phase is RootStat,
        ensures
            final(self)@ == step_model(old(self)@, ev@).0,
            r@ == step_model(old(self)@, ev@).1,
    {
        match ev {
            Event::Stat { id, ftype } => {
                if self.root_is_sentinel {
                    self.fail(Errno::EBADF)
                } else if !matches!(*ftype, Some(FileType::Directory)) {
                    self.fail(Errno::ENOTDIR)
                } else {
                    self.root_id = Some(*id);
                    if self.lookup.no_xdev {
                        self.phase = Phase::RootMount;
                        Action::IdentifyMount { slot: FdSlot::Root }
                    } else {
                        let r = self.tokenize();
                        r
                    }
                }
            },
            Event::StatErr { errno } => self.fail(*errno),
            _ => self.fail(Errno::EINVAL),
        }
    }

    /// Handles the root's mount identity, as `step_root_mount` describes.
    fn on_root_mount(&mut self, ev: &Event) -> (r: Action)
        requires
            old(self)@.phase is RootMount,
        ensures
            final(self)@ == step_model(old(self)@, ev@).0,
            r@ == step_model(old(self)@, ev@).1,
    {
        match ev {
            Event::Mount { id } => {
                self.dir_mnt = Some(*id);
                let r = self.tokenize();
                r
            },
            Event::MountErr { errno } => self.fail(*errno),
            _ => self.fail(Errno::EINVAL),
        }
    }

    /// Handles the position stat after a `..`, as `step_dotdot_stat`
    /// describes.
    fn on_dotdot_stat(&mut self, ev: &Event) -> (r: Action)
        requires
            old(self)@.phase is DotDotStat,
        ensures
            final(self)@ == step_model(old(self)@, ev@).0,
            r@ == step_model(old(self)@, ev@).1,
    {
        let ghost s0 = old(self)@;
        let mut ph = Phase::Done;
        core::mem::swap(&mut ph, &mut self.phase);
        let flags = match ph {
            Phase::DotDotStat { flags } => flags,
            _ => {
                proof {
                    assert(false);
                }
                unreached()
            },
        };
        proof {
            assert(s0.phase == PhaseModel::DotDotStat { flags });
        }
        match ev {
            Event::Stat { id, ftype: _ } => {
                let at_root_now = match &self.root_id {
                    Some(rid) => rid.dev == id.dev && rid.ino == id.ino,
                    None => false,
                };
                proof {
                    assert(at_root_now == (s0.root_id == Some(*id)));
                }
                if at_root_now {
                    if !self.lookup.in_root {
                        self.fail(Errno::EXDEV)
                    } else {
                        self.at_root = true;
                        self.saw_parent = false;
                        self.phase = Phase::AfterDropCur;
                        Action::DropCur
                    }
                } else {
                    self.phase = Phase::DotDotOpen;
                    Action::Open {
                        dir: FdSlot::Cur,
                        name: PathArg::DotDot,
                        flags,
                        mode: self.mode,
                        into: FdSlot::Cur,
                    }
                }
            },
            Event::StatErr { errno } => self.fail(*errno),
            _ => self.fail(Errno::EINVAL),
        }
    }

    /// Handles the open of `..`, as `step_dotdot_open` describes.
    fn on_dotdot_open(&mut self, ev: &Event) -> (r: Action)
        requires
            old(self)@.phase is DotDotOpen,
        ensures
            final(self)@ == step_model(old(self)@, ev@).0,
            r@ == step_model(old(self)@, ev@).1,
    {
        match ev {
            Event::Opened => {
                self.saw_parent = true;
                let r = self.mount_check();
                r
            },
            Event::OpenErr { errno } => self.fail(*errno),
            _ => self.fail(Errno::EINVAL),
        }
    }

    /// Handles an acknowledged drop, as `step_resume` describes.
    fn on_resume(&mut self, ev: &Event) -> (r: Action)
        requires
            old(self)@.phase is AfterDropCur || old(self)@.phase is DropChildNext,
        ensures
            final(self)@ == step_model(old(self)@, ev@).0,
            r@ == step_model(old(self)@, ev@).1,
    {
        match ev {
            Event::Ack => {
                let r = self.advance();
                r
            },
            _ => self.fail(Errno::EINVAL),
        }
    }

    /// Handles the open of a normal component, as `step_child_open`
    /// describes.
    fn on_child_open(&mut self, ev: &Event) -> (r: Action)
        requires
            old(self)@.phase is ChildOpen,
        ensures
            final(self)@ == step_model(old(self)@, ev@).0,
            r@ == step_model(old(self)@, ev@).1,
    {
        let ghost s0 = old(self)@;
        let mut ph = Phase::Done;
        core::mem::swap(&mut ph, &mut self.phase);
        let (name, flags, opath_check) = match ph {
            Phase::ChildOpen { name, flags, opath_check } => (name, flags, opath_check),
            _ => {
                proof {
                    assert(false);
                }
                unreached()
            },
        };
        proof {
            assert(s0.phase == PhaseModel::ChildOpen { name: name@, flags, opath_check });
        }
        match ev {
            Event::Opened => {
                if opath_check {
                    self.phase = Phase::ChildStat { flags };
                    Action::Fstat { slot: FdSlot::Child }
                } else {
                    self.at_root = false;
                    self.phase = Phase::ChildOpen { name, flags, opath_check };
                    proof {
                        assert(self@ =~= (StateModel { at_root: false, ..s0 }));
                    }
                    let r = self.mount_check();
                    r
                }
            },
            Event::OpenErr { errno } => {
                let eno = canonical_open_errno(*errno);
                if eno != Errno::ELOOP && eno != Errno::ENOTDIR {
                    self.fail(eno)
                } else if eno == Errno::ELOOP && (flags.nofollow || self.budget.exhausted()) {
                    let e = if flags.directory && !self.budget.exhausted() {
                        Errno::ENOTDIR
                    } else {
                        Errno::ELOOP
                    };
                    self.fail(e)
                } else {
                    self.phase = Phase::ReadLink { flags, eno, by_fd: false };
                    Action::ReadLinkAt { dir: FdSlot::Cur, name }
                }
            },
            _ => self.fail(Errno::EINVAL),
        }
    }

    /// Handles the stat of a path-only candidate, as `step_child_stat`
    /// describes.
    fn on_child_stat(&mut self, ev: &Event) -> (r: Action)
        requires
            old(self)@.phase is ChildStat,
        ensures
            final(self)@ == step_model(old(self)@, ev@).0,
            r@ == step_model(old(self)@, ev@).1,
    {
        let ghost s0 = old(self)@;
        let mut ph = Phase::Done;
        core::mem::swap(&mut ph, &mut self.phase);
        let flags = match ph {
            Phase::ChildStat { flags } => flags,
            _ => {
                proof {
                    assert(false);
                }
                unreached()
            },
        };
        proof {
            assert(s0.phase == PhaseModel::ChildStat { flags });
        }
        match ev {
            Event::Stat { id: _, ftype } => {
                if matches!(*ftype, Some(FileType::Symlink)) {
                    if self.budget.exhausted() {
                        self.fail(Errno::ELOOP)
                    } else {
                        self.phase = Phase::ReadLink { flags, eno: Errno::ELOOP, by_fd: true };
                        let empty_name: Vec<u8> = Vec::new();
                        proof {
                            assert(empty_name@ =~= Seq::<u8>::empty());
                        }
                        Action::ReadLinkAt { dir: FdSlot::Child, name: empty_name }
                    }
                } else {
                    self.phase = Phase::ChildAdopt;
                    Action::AdoptChild
                }
            },
            Event::StatErr { errno } => self.fail(*errno),
            _ => self.fail(Errno::EINVAL),
        }
    }

    /// Handles the adoption of the candidate, as `step_child_adopt`
    /// describes.
    fn on_child_adopt(&mut self, ev: &Event) -> (r: Action)
        requires
            old(self)@.phase is ChildAdopt,
        ensures
            final(self)@ == step_model(old(self)@, ev@).0,
            r@ == step_model(old(self)@, ev@).1,
    {
        match ev {
            Event::Ack => {
                self.at_root = false;
                let r = self.mount_check();
                r
            },
            _ => self.fail(Errno::EINVAL),
        }
    }

    /// Handles the symlink target, as `step_read_link` describes.
    fn on_read_link(&mut self, ev: &Event) -> (r: Action)
        requires
            old(self)@.phase is ReadLink,
        ensures
            final(self)@ == step_model(old(self)@, ev@).0,
            r@ == step_model(old(self)@, ev@).1,
    {
        let ghost s0 = old(self)@;
        let mut ph = Phase::Done;
        core::mem::swap(&mut ph, &mut self.phase);
        let (flags, eno, by_fd) = match ph {
            Phase::ReadLink { flags, eno, by_fd } => (flags, eno, by_fd),
            _ => {
                proof {
                    assert(false);
                }
                unreached()
            },
        };
        proof {
            assert(s0.phase == PhaseModel::ReadLink { flags, eno, by_fd });
        }
        match ev {
            Event::Link { target } => {
                let ghost tgt = target@;
                match self.budget.advance() {
                    Err(e) => self.fail(e),
                    Ok(()) => {
                        if flags.nofollow {
                            let e = if flags.directory {
                                Errno::ENOTDIR
                            } else {
                                Errno::ELOOP
                            };
                            self.fail(e)
                        } else {
                            let spliced = split_link_path_into(
                                target.as_slice(),
                                flags,
                                &mut self.queue,
                            );
                            let ghost s2 = StateModel {
                                budget_used: (s0.budget_used + 1) as u16,
                                ..s0
                            };
                            match spliced {
                                Ok(()) => {
                                    self.phase = Phase::ReadLink { flags, eno, by_fd };
                                    let ghost s3 = StateModel {
                                        queue: queue_view(self.queue@),
                                        ..s2
                                    };
                                    proof {
                                        assert(spec_prepend(tgt, flags, s2.queue)
                                            == Ok::<Seq<EntryModel>, Errno>(s3.queue));
                                        assert(self@ =~= s3);
                                    }
                                    if by_fd {
                                        self.phase = Phase::DropChildNext;
                                        proof {
                                            assert(self@ =~= (StateModel {
                                                phase: PhaseModel::DropChildNext,
                                                ..s3
                                            }));
                                        }
                                        Action::DropChild
                                    } else {
                                        let r = self.advance();
                                        r
                                    }
                                },
                                Err(e) => self.fail(e),
                            }
                        }
                    },
                }
            },
            Event::LinkErr { errno } => {
                if matches!(*errno, Errno::EINVAL) {
                    if matches!(eno, Errno::ENOTDIR) {
                        self.fail(Errno::ENOTDIR)
                    } else {
                        self.fail(Errno::EAGAIN)
                    }
                } else {
                    self.fail(*errno)
                }
            },
            _ => self.fail(Errno::EINVAL),
        }
    }

    /// Handles the mount identity of the new position, as
    /// `step_mount_check` describes.
    fn on_mount_check(&mut self, ev: &Event) -> (r: Action)
        requires
            old(self)@.phase is MountCheck,
        ensures
            final(self)@ == step_model(old(self)@, ev@).0,
            r@ == step_model(old(self)@, ev@).1,
    {
        match ev {
            Event::Mount { id } => {
                let ghost s0 = old(self)@;
                let same = match &self.dir_mnt {
                    Some(dm) => dm.0 == id.0,
                    None => false,
                };
                proof {
                    assert(same == (s0.dir_mnt == Some(*id)));
                }
                if same {
                    let r = self.advance();
                    r
                } else {
                    self.fail(Errno::EXDEV)
                }
            },
            Event::MountErr { errno } => self.fail(*errno),
            _ => self.fail(Errno::EINVAL),
        }
    }

    /// Handles the stat of the rewind cursor, as `step_rewind_stat`
    /// describes.
    fn on_rewind_stat(&mut self, ev: &Event) -> (r: Action)
        requires
            old(self)@.phase is RewindStat,
        ensures
            final(self)@ == step_model(old(self)@, ev@).0,
            r@ == step_model(old(self)@, ev@).1,
    {
        let ghost s0 = old(self)@;
        let mut ph = Phase::Done;
        core::mem::swap(&mut ph, &mut self.phase);
        let (prev, pending) = match ph {
            Phase::RewindStat { prev, pending } => (prev, pending),
            _ => {
                proof {
                    assert(false);
                }
                unreached()
            },
        };
        proof {
            assert(s0.phase == PhaseModel::RewindStat { prev, pending: pending_view(pending) });
        }
        match ev {
            Event::Stat { id, ftype: _ } => {
                let at_root_now = match &self.root_id {
                    Some(rid) => rid.dev == id.dev && rid.ino == id.ino,
                    None => false,
                };
                proof {
                    assert(at_root_now == (s0.root_id == Some(*id)));
                }
                if at_root_now {
                    self.saw_parent = false;
                    self.phase = Phase::RewindDone { pending };
                    Action::DropRewind
                } else {
                    let stood_still = match &prev {
                        Some(p) => p.dev == id.dev && p.ino == id.ino,
                        None => false,
                    };
                    proof {
                        assert(stood_still == (prev == Some(*id)));
                    }
                    if stood_still {
                        self.fail(Errno::EAGAIN)
                    } else {
                        self.phase = Phase::RewindOpen { prev: *id, pending };
                        Action::Open {
                            dir: FdSlot::Rewind,
                            name: PathArg::DotDot,
                            flags: dir_open_flags(),
                            mode: 0,
                            into: FdSlot::Rewind,
                        }
                    }
                }
            },
            Event::StatErr { errno } => self.fail(*errno),
            _ => self.fail(Errno::EINVAL),
        }
    }

    /// Handles the open of the next ancestor, as `step_rewind_open`
    /// describes.
    fn on_rewind_open(&mut self, ev: &Event) -> (r: Action)
        requires
            old(self)@.phase is RewindOpen,
        ensures
            final(self)@ == step_model(old(self)@, ev@).0,
            r@ == step_model(old(self)@, ev@).1,
    {
        let ghost s0 = old(self)@;
        let mut ph = Phase::Done;
        core::mem::swap(&mut ph, &mut self.phase);
        let (prev, pending) = match ph {
            Phase::RewindOpen { prev, pending } => (prev, pending),
            _ => {
                proof {
                    assert(false);
                }
                unreached()
            },
        };
        proof {
            assert(s0.phase == PhaseModel::RewindOpen { prev, pending: pending_view(pending) });
        }
        match ev {
            Event::Opened => {
                self.phase = Phase::RewindStat { prev: Some(prev), pending };
                Action::Fstat { slot: FdSlot::Rewind }
            },
            Event::OpenErr { errno } => self.fail(*errno),
            _ => self.fail(Errno::EINVAL),
        }
    }

    /// Handles the end of a successful rewind verification, as
    /// `step_rewind_done` describes.
    fn on_rewind_done(&mut self, ev: &Event) -> (r: Action)
        requires
            old(self)@.phase is RewindDone,
        ensures
            final(self)@ == step_model(old(self)@, ev@).0,
            r@ == step_model(old(self)@, ev@).1,
    {
        let ghost s0 = old(self)@;
        let mut ph = Phase::Done;
        core::mem::swap(&mut ph, &mut self.phase);
        let pending = match ph {
            Phase::RewindDone { pending } => pending,
            _ => {
                proof {
                    assert(false);
                }
                unreached()
            },
        };
        proof {
            assert(s0.phase == PhaseModel::RewindDone { pending: pending_view(pending) });
        }
        match ev {
            Event::Ack => match pending {
                Some(p) => {
                    let r = self.child_open(p.name, p.flags);
                    r
                },
                None => {
                    let r = self.finalize();
                    r
                },
            },
            _ => self.fail(Errno::EINVAL),
        }
    }

    /// Handles the final open of `.` on the root, as `step_final_open`
    /// describes.
    fn on_final_open(&mut self, ev: &Event) -> (r: Action)
        requires
            old(self)@.phase is FinalOpen,
        ensures
            final(self)@ == step_model(old(self)@, ev@).0,
            r@ == step_model(old(self)@, ev@).1,
    {
        match ev {
            Event::Opened => {
                self.phase = Phase::Done;
                Action::Finish { slot: FdSlot::Child }
            },
            Event::OpenErr { errno } => self.fail(*errno),
            _ => self.fail(Errno::EINVAL),
        }
    }

    /// Feeds the resolver one event and takes back the next action: the
    /// exact computation of `step_model` on the state's mathematical
    /// value.
    pub fn step(&mut self, ev: Event) -> (r: Action)
        ensures
            final(self)@ == step_model(old(self)@, ev@).0,
            r@ == step_model(old(self)@, ev@).1,
    {
        match &self.phase {
            Phase::Start => self.on_start(&ev),
            Phase::RootStat => self.on_root_stat(&ev),
            Phase::RootMount => self.on_root_mount(&ev),
            Phase::DotDotStat { .. } => self.on_dotdot_stat(&ev),
            Phase::DotDotOpen => self.on_dotdot_open(&ev),
            Phase::AfterDropCur => self.on_resume(&ev),
            Phase::ChildOpen { .. } => self.on_child_open(&ev),
            Phase::ChildStat { .. } => self.on_child_stat(&ev),
            Phase::ChildAdopt => self.on_child_adopt(&ev),
            Phase::ReadLink { .. } => self.on_read_link(&ev),
            Phase::DropChildNext => self.on_resume(&ev),
            Phase::MountCheck => self.on_mount_check(&ev),
            Phase::RewindStat { .. } => self.on_rewind_stat(&ev),
            Phase::RewindOpen { .. } => self.on_rewind_open(&ev),
            Phase::RewindDone { .. } => self.on_rewind_done(&ev),
            Phase::FinalOpen => self.on_final_open(&ev),
            Phase::Done => self.fail(Errno::EINVAL),
        }
    }
}

} // verus!
