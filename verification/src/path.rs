use vstd::prelude::*;

use std::collections::VecDeque;

use crate::errno::Errno;
use crate::flags::OpenFlags;
use crate::flags::spec_dir_open_flags;
use crate::flags::dir_open_flags;

verus! {

/// The path separator byte, `/`.
pub const SLASH: u8 = 47;

/// The `.` byte.
pub const DOT: u8 = 46;

/// One token of a tokenized path.
///
/// A `Normal` name is never empty, never contains a separator or a NUL,
/// and is never `..`; the single name `.` occurs only as the synthetic
/// component a symlink that resolved to nothing leaves behind.
#[derive(Debug)]
pub enum Component {
    /// The leading `/` of an absolute path.
    RootMark,
    /// A `..` component.
    Parent,
    /// An ordinary file name.
    Normal(Vec<u8>),
}

/// The mathematical value of a `Component`.
pub enum CompModel {
    RootMark,
    Parent,
    Normal(Seq<u8>),
}

impl View for Component {
    type V = CompModel;

    open spec fn view(&self) -> CompModel {
        match self {
            Component::RootMark => CompModel::RootMark,
            Component::Parent => CompModel::Parent,
            Component::Normal(name) => CompModel::Normal(name@),
        }
    }
}

/// One element of the component queue: a token paired with the flags its
/// open will use. Every element carries the directory-open flags except
/// the final element of the original input, which carries the caller's
/// requested flags.
#[derive(Debug)]
pub struct PathEntry {
    pub comp: Component,
    pub flags: OpenFlags,
}

/// The mathematical value of a `PathEntry`.
pub struct EntryModel {
    pub comp: CompModel,
    pub flags: OpenFlags,
}

impl View for PathEntry {
    type V = EntryModel;

    open spec fn view(&self) -> EntryModel {
        EntryModel { comp: self.comp@, flags: self.flags }
    }
}

/// The mathematical value of a whole component queue, front first.
pub open spec fn queue_view(q: Seq<PathEntry>) -> Seq<EntryModel> {
    q.map_values(|e: PathEntry| e@)
}

/// Whether the byte string contains a NUL byte.
pub open spec fn has_nul(s: Seq<u8>) -> bool {
    exists|i: int| 0 <= i < s.len() && s[i] == 0
}

/// The length of the leading separator-free run of `s`.
pub open spec fn first_part_len(s: Seq<u8>) -> nat
    decreases s.len(),
{
    if s.len() == 0 || s[0] == SLASH {
        0
    } else {
        1 + first_part_len(s.drop_first())
    }
}

/// The leading separator-free run is never longer than the string, and is
/// nonempty exactly when the string starts with a non-separator.
pub proof fn lemma_first_part_len_le(s: Seq<u8>)
    ensures
        first_part_len(s) <= s.len(),
        s.len() > 0 && s[0] != SLASH ==> first_part_len(s) >= 1,
    decreases s.len(),
{
    if s.len() == 0 || s[0] == SLASH {
    } else {
        lemma_first_part_len_le(s.drop_first());
    }
}

/// The leading separator-free run is exactly the run of non-separator
/// bytes before the first separator.
pub proof fn lemma_first_part_len_is(s: Seq<u8>, n: int)
    requires
        0 <= n <= s.len(),
        forall|m: int| 0 <= m < n ==> s[m] != SLASH,
        n == s.len() || s[n] == SLASH,
    ensures
        first_part_len(s) == n,
    decreases n,
{
    if n == 0 {
    } else {
        assert(s[0] != SLASH);
        lemma_first_part_len_is(s.drop_first(), n - 1);
    }
}

#[via_fn]
proof fn body_tokens_decreases(s: Seq<u8>)
{
    if s.len() > 0 && s[0] != SLASH {
        lemma_first_part_len_le(s);
    }
}

/// The tokens of a path body: the maximal separator-free chunks, in
/// order, with empty chunks and `.` chunks dropped, `..` read as the
/// parent marker and anything else as an ordinary name. The leading root
/// marker of an absolute path is not part of the body; see `tokens_of`.
pub open spec fn body_tokens(s: Seq<u8>) -> Seq<CompModel>
    decreases s.len(),
    via body_tokens_decreases
{
    if s.len() == 0 {
        Seq::empty()
    } else if s[0] == SLASH {
        body_tokens(s.skip(1))
    } else {
        let n = first_part_len(s) as int;
        let p = s.take(n);
        let rest = body_tokens(s.skip(n));
        if p == seq![DOT] {
            rest
        } else if p == seq![DOT, DOT] {
            seq![CompModel::Parent] + rest
        } else {
            seq![CompModel::Normal(p)] + rest
        }
    }
}

/// The full token sequence of a path: a root marker first when the path
/// is absolute, then the body tokens.
pub open spec fn tokens_of(s: Seq<u8>) -> Seq<CompModel> {
    if s.len() > 0 && s[0] == SLASH {
        seq![CompModel::RootMark] + body_tokens(s)
    } else {
        body_tokens(s)
    }
}

/// Whether a path demands a directory: it ends in `/` or in `/.`.
pub open spec fn spec_needs_dir(s: Seq<u8>) -> bool {
    ||| (s.len() >= 1 && s[s.len() - 1] == SLASH)
    ||| (s.len() >= 2 && s[s.len() - 2] == SLASH && s[s.len() - 1] == DOT)
}

/// The per-element flags of a token sequence: the caller's (possibly
/// directory-augmented) flags on the final element, the directory-open
/// flags on every other.
pub open spec fn entries_of(toks: Seq<CompModel>, last_flags: OpenFlags) -> Seq<EntryModel> {
    Seq::new(
        toks.len(),
        |i: int|
            EntryModel {
                comp: toks[i],
                flags: if i == toks.len() - 1 {
                    last_flags
                } else {
                    spec_dir_open_flags()
                },
            },
    )
}

/// The flags the final element of `s` carries, given the caller's flags:
/// the caller's flags, with the directory requirement added when the path
/// ends in `/` or `/.`.
pub open spec fn spec_last_flags(s: Seq<u8>, flags: OpenFlags) -> OpenFlags {
    if spec_needs_dir(s) {
        OpenFlags { directory: true, ..flags }
    } else {
        flags
    }
}

/// The component queue a path tokenizes to.
pub open spec fn queue_of_path(s: Seq<u8>, flags: OpenFlags) -> Seq<EntryModel> {
    entries_of(tokens_of(s), spec_last_flags(s, flags))
}

/// What `split_path` returns: the queue of the path, or `ENOENT` for an
/// empty path, or `EINVAL` for a path with an embedded NUL.
pub open spec fn spec_split_path(s: Seq<u8>, flags: OpenFlags) -> Result<Seq<EntryModel>, Errno> {
    if s.len() == 0 {
        Err(Errno::ENOENT)
    } else if has_nul(s) {
        Err(Errno::EINVAL)
    } else {
        Ok(queue_of_path(s, flags))
    }
}

/// What `split_link_path_into` leaves in the queue: the target's tokens
/// spliced in front of the existing queue, the last spliced element
/// carrying the expanded component's flags. If that would leave the whole
/// queue empty — the link resolved to pure `.` and nothing followed it — a
/// single synthetic `.` component carrying those flags is emitted, so the
/// directory requirement is not lost.
pub open spec fn spec_prepend(
    target: Seq<u8>,
    flags: OpenFlags,
    q: Seq<EntryModel>,
) -> Result<Seq<EntryModel>, Errno> {
    if target.len() == 0 {
        Err(Errno::ENOENT)
    } else if has_nul(target) {
        Err(Errno::EINVAL)
    } else {
        let newq = queue_of_path(target, flags) + q;
        if newq.len() == 0 {
            Ok(
                seq![
                    EntryModel {
                        comp: CompModel::Normal(seq![DOT]),
                        flags: spec_last_flags(target, flags),
                    },
                ],
            )
        } else {
            Ok(newq)
        }
    }
}

/// Returns the index just past the end of the separator-free part of
/// `path` that starts at `start`, copying the part's bytes out.
fn collect_part(path: &[u8], start: usize) -> (r: (Vec<u8>, usize))
    requires
        start < path@.len(),
        path@[start as int] != SLASH,
    ensures
        start < r.1 <= path@.len(),
        r.0@ == path@.subrange(start as int, r.1 as int),
        forall|m: int| start <= m < r.1 ==> path@[m] != SLASH,
        r.1 == path@.len() || path@[r.1 as int] == SLASH,
{
    let mut part: Vec<u8> = Vec::new();
    let mut i: usize = start;
    while i < path.len() && path[i] != SLASH
        invariant
            start <= i <= path@.len(),
            part@ == path@.subrange(start as int, i as int),
            forall|m: int| start <= m < i ==> path@[m] != SLASH,
        decreases path@.len() - i,
    {
        part.push(path[i]);
        i = i + 1;
        proof {
            assert(part@ =~= path@.subrange(start as int, i as int));
        }
    }
    (part, i)
}

/// Tokenizes the body of `path`: its separator-free chunks in order,
/// dropping `.` chunks, reading `..` as the parent marker.
pub(crate) fn tokenize_body(path: &[u8]) -> (toks: Vec<Component>)
    ensures
        queue_comp_view(toks@) == body_tokens(path@),
{
    let mut toks: Vec<Component> = Vec::new();
    let mut i: usize = 0;
    proof {
        assert(path@.skip(0) =~= path@);
        assert(queue_comp_view(toks@) =~= Seq::<CompModel>::empty());
        assert(queue_comp_view(toks@) + body_tokens(path@) =~= body_tokens(path@));
    }
    while i < path.len()
        invariant
            i <= path@.len(),
            queue_comp_view(toks@) + body_tokens(path@.skip(i as int)) == body_tokens(path@),
        decreases path@.len() - i,
    {
        if path[i] == SLASH {
            proof {
                let rest = path@.skip(i as int);
                assert(rest[0] == SLASH);
                assert(body_tokens(rest) == body_tokens(rest.skip(1)));
                assert(rest.skip(1) =~= path@.skip(i as int + 1));
            }
            i = i + 1;
        } else {
            let ghost rest = path@.skip(i as int);
            let (part, end) = collect_part(path, i);
            proof {
                assert(rest[0] == path@[i as int]);
                assert(forall|m: int|
                    0 <= m < end - i ==> rest[m] == path@[i + m] && rest[m] != SLASH);
                assert(end - i == rest.len() || rest[end - i] == SLASH);
                lemma_first_part_len_is(rest, end - i);
                assert(rest.take(end - i) =~= part@);
                assert(rest.skip(end - i) =~= path@.skip(end as int));
            }
            let ghost pre = toks@;
            let ghost tail = body_tokens(path@.skip(end as int));
            if part.len() == 1 && part[0] == DOT {
                proof {
                    assert(part@ =~= seq![DOT]);
                    assert(body_tokens(rest) == tail);
                }
            } else if part.len() == 2 && part[0] == DOT && part[1] == DOT {
                proof {
                    assert(part@ =~= seq![DOT, DOT]);
                    assert(part@ != seq![DOT]);
                    assert(body_tokens(rest) == seq![CompModel::Parent] + tail);
                }
                toks.push(Component::Parent);
                proof {
                    assert(queue_comp_view(toks@) =~= queue_comp_view(pre) + seq![
                        CompModel::Parent,
                    ]);
                    assert((queue_comp_view(pre) + seq![CompModel::Parent]) + tail
                        =~= queue_comp_view(pre) + (seq![CompModel::Parent] + tail));
                }
            } else {
                proof {
                    assert(part@ != seq![DOT]);
                    assert(part@ != seq![DOT, DOT]);
                    assert(body_tokens(rest) == seq![CompModel::Normal(part@)] + tail);
                }
                let ghost p = part@;
                toks.push(Component::Normal(part));
                proof {
                    assert(queue_comp_view(toks@) =~= queue_comp_view(pre) + seq![
                        CompModel::Normal(p),
                    ]);
                    assert((queue_comp_view(pre) + seq![CompModel::Normal(p)]) + tail
                        =~= queue_comp_view(pre) + (seq![CompModel::Normal(p)] + tail));
                }
            }
            i = end;
        }
    }
    proof {
        assert(path@.skip(i as int) =~= Seq::<u8>::empty());
        assert(queue_comp_view(toks@) + body_tokens(path@.skip(i as int)) =~= queue_comp_view(
            toks@,
        ));
    }
    toks
}

/// The mathematical values of a token vector.
pub open spec fn queue_comp_view(toks: Seq<Component>) -> Seq<CompModel> {
    toks.map_values(|c: Component| c@)
}

/// Whether the byte string holds a NUL byte.
fn scan_nul(path: &[u8]) -> (r: bool)
    ensures
        r == has_nul(path@),
{
    let mut i: usize = 0;
    while i < path.len()
        invariant
            i <= path@.len(),
            forall|m: int| 0 <= m < i ==> path@[m] != 0,
        decreases path@.len() - i,
    {
        if path[i] == 0 {
            return true;
        }
        i = i + 1;
    }
    false
}

/// Whether the path ends in `/` or `/.`, demanding a directory.
fn needs_dir(path: &[u8]) -> (r: bool)
    ensures
        r == spec_needs_dir(path@),
{
    let n = path.len();
    (n >= 1 && path[n - 1] == SLASH) || (n >= 2 && path[n - 2] == SLASH && path[n - 1] == DOT)
}

/// Splits a caller path into its component queue.
///
/// An empty path fails with `ENOENT`; a path holding a NUL byte fails with
/// `EINVAL`. Otherwise the queue holds the path's tokens in order: a root
/// marker first when the path is absolute, then every `/`-separated name,
/// with `.` names dropped and `..` read as the parent marker. Every
/// element carries the directory-open flags except the last, which
/// carries the caller's flags — augmented with the directory requirement
/// when the path ends in `/` or `/.`.
pub fn split_path(path: &[u8], flags: OpenFlags) -> (r: Result<VecDeque<PathEntry>, Errno>)
    ensures
        match r {
            Ok(q) => spec_split_path(path@, flags) == Ok::<Seq<EntryModel>, Errno>(
                queue_view(q@),
            ),
            Err(e) => spec_split_path(path@, flags) == Err::<Seq<EntryModel>, Errno>(e),
        },
{
    if path.len() == 0 {
        return Err(Errno::ENOENT);
    }
    if scan_nul(path) {
        return Err(Errno::EINVAL);
    }

    let last_flags = if needs_dir(path) { flags.with_directory() } else { flags };
    let is_abs = path[0] == SLASH;
    let toks = tokenize_body(path);

    let ghost full = queue_of_path(path@, flags);
    let n = toks.len();
    proof {
        assert(queue_comp_view(toks@).len() == n);
        assert(full.len() == tokens_of(path@).len());
        if is_abs {
            assert(tokens_of(path@) == seq![CompModel::RootMark] + body_tokens(path@));
        }
    }
    let mut q: VecDeque<PathEntry> = VecDeque::new();
    let off: usize = if is_abs {
        let root_flags = if n == 0 { last_flags } else { dir_open_flags() };
        q.push_back(PathEntry { comp: Component::RootMark, flags: root_flags });
        proof {
            assert(tokens_of(path@)[0] == CompModel::RootMark);
            assert(full[0] == EntryModel { comp: CompModel::RootMark, flags: root_flags });
            assert(queue_view(q@) =~= full.take(1));
        }
        1
    } else {
        proof {
            assert(queue_view(q@) =~= full.take(0));
        }
        0
    };

    let mut toks_iter = toks;
    let mut k: usize = 0;
    // Move the tokens into queue entries, front to back.
    while k < n
        invariant
            k <= n,
            n + off == full.len(),
            toks_iter@.len() == n - k,
            queue_comp_view(toks_iter@) == body_tokens(path@).skip(k as int),
            queue_view(q@) == full.take(off + k),
            full == queue_of_path(path@, flags),
            off == (if path@.len() > 0 && path@[0] == SLASH { 1int } else { 0int }),
            spec_last_flags(path@, flags) == last_flags,
            n == body_tokens(path@).len(),
        decreases n - k,
    {
        let entry_flags = if k == n - 1 { last_flags } else { dir_open_flags() };
        let ghost pre_ti = toks_iter@;
        let ghost pre_q = q@;
        let comp = toks_iter.remove(0);
        let ghost ecomp = comp@;
        proof {
            assert(queue_comp_view(pre_ti)[0] == ecomp);
            assert(ecomp == body_tokens(path@)[k as int]);
            assert(toks_iter@ =~= pre_ti.skip(1));
            assert forall|ii: int| 0 <= ii < toks_iter@.len() implies queue_comp_view(
                toks_iter@,
            )[ii] == body_tokens(path@).skip(k as int + 1)[ii] by {
                assert(toks_iter@[ii] == pre_ti[ii + 1]);
                assert(queue_comp_view(pre_ti)[ii + 1] == pre_ti[ii + 1]@);
                assert(body_tokens(path@).skip(k as int)[ii + 1] == body_tokens(path@)[k + 1
                    + ii]);
            }
            assert(queue_comp_view(toks_iter@) =~= body_tokens(path@).skip(k as int + 1));
        }
        q.push_back(PathEntry { comp, flags: entry_flags });
        k = k + 1;
        proof {
            let j = off + k - 1;
            if is_abs {
                assert(tokens_of(path@)[j] == body_tokens(path@)[k - 1]);
            }
            assert(full[j] == EntryModel { comp: ecomp, flags: entry_flags });
            assert(queue_view(q@) =~= queue_view(pre_q).push(
                EntryModel { comp: ecomp, flags: entry_flags },
            ));
            assert(queue_view(q@) =~= full.take(off + k));
        }
    }
    proof {
        assert(queue_view(q@) =~= full);
    }
    Ok(q)
}

/// Splices a symlink target's component queue onto the front of an
/// existing queue, as `spec_prepend` describes: the target's tokens go in
/// front, the last of them carrying the expanded component's flags (with
/// the directory requirement added when the target ends in `/` or `/.`),
/// and a queue left empty gets the single synthetic `.` component. An
/// empty target fails with `ENOENT` and a target holding a NUL byte fails
/// with `EINVAL`; the queue is unchanged on failure.
pub fn split_link_path_into(
    target: &[u8],
    flags: OpenFlags,
    q: &mut VecDeque<PathEntry>,
) -> (r: Result<(), Errno>)
    ensures
        match r {
            Ok(()) => spec_prepend(target@, flags, queue_view(old(q)@)) == Ok::<
                Seq<EntryModel>,
                Errno,
            >(queue_view(final(q)@)),
            Err(e) => {
                &&& spec_prepend(target@, flags, queue_view(old(q)@)) == Err::<
                    Seq<EntryModel>,
                    Errno,
                >(e)
                &&& final(q)@ == old(q)@
            },
        },
{
    if target.len() == 0 {
        return Err(Errno::ENOENT);
    }
    if scan_nul(target) {
        return Err(Errno::EINVAL);
    }

    let last_flags = if needs_dir(target) { flags.with_directory() } else { flags };
    let is_abs = target[0] == SLASH;
    let mut toks = tokenize_body(target);

    let ghost spliced = queue_of_path(target@, flags);
    let ghost old_view = queue_view(q@);

    // Push the target's tokens onto the front, last token first.
    let n = toks.len();
    let ghost aoff: int = if is_abs { 1int } else { 0int };
    proof {
        assert(queue_comp_view(toks@).len() == n);
        if is_abs {
            assert(tokens_of(target@) == seq![CompModel::RootMark] + body_tokens(target@));
        }
        assert(spliced.len() == n + aoff);
        assert(spliced.skip(n + aoff) =~= Seq::<EntryModel>::empty());
        assert(spliced.skip(n + aoff) + old_view =~= old_view);
        assert(queue_comp_view(toks@) =~= body_tokens(target@).take(n as int));
    }
    let mut k: usize = n;
    while k > 0
        invariant
            k <= n,
            toks@.len() == k,
            queue_comp_view(toks@) == body_tokens(target@).take(k as int),
            queue_view(q@) == spliced.skip(k + aoff) + old_view,
            spliced == queue_of_path(target@, flags),
            is_abs == (target@.len() > 0 && target@[0] == SLASH),
            aoff == (if is_abs { 1int } else { 0int }),
            spec_last_flags(target@, flags) == last_flags,
            n == body_tokens(target@).len(),
            n + aoff == spliced.len(),
        decreases k,
    {
        let entry_flags = if k == n { last_flags } else { dir_open_flags() };
        let ghost pre_t = toks@;
        let ghost pre_q = q@;
        let comp = match toks.pop() {
            Some(c) => c,
            None => {
                proof {
                    assert(false);
                }
                Component::Parent
            },
        };
        let ghost ecomp = comp@;
        k = k - 1;
        proof {
            assert(queue_comp_view(pre_t)[k as int] == ecomp);
            assert(body_tokens(target@).take(k as int + 1)[k as int] == body_tokens(
                target@,
            )[k as int]);
            assert(ecomp == body_tokens(target@)[k as int]);
            assert(toks@ =~= pre_t.take(k as int));
            assert(queue_comp_view(toks@) =~= body_tokens(target@).take(k as int));
        }
        q.push_front(PathEntry { comp, flags: entry_flags });
        proof {
            let j = k + aoff;
            if is_abs {
                assert(tokens_of(target@)[j] == body_tokens(target@)[k as int]);
            }
            assert(spliced[j] == EntryModel { comp: ecomp, flags: entry_flags });
            assert(queue_view(q@) =~= seq![EntryModel { comp: ecomp, flags: entry_flags }]
                + queue_view(pre_q));
            assert(queue_view(q@) =~= spliced.skip(j) + old_view);
        }
    }
    if is_abs {
        let root_flags = if n == 0 { last_flags } else { dir_open_flags() };
        let ghost pre_q = q@;
        q.push_front(PathEntry { comp: Component::RootMark, flags: root_flags });
        proof {
            assert(tokens_of(target@)[0] == CompModel::RootMark);
            assert(spliced[0] == EntryModel { comp: CompModel::RootMark, flags: root_flags });
            assert(queue_view(q@) =~= seq![
                EntryModel { comp: CompModel::RootMark, flags: root_flags },
            ] + queue_view(pre_q));
            assert(queue_view(q@) =~= spliced + old_view);
        }
    } else {
        proof {
            assert(spliced.skip(0) =~= spliced);
            assert(queue_view(q@) =~= spliced + old_view);
        }
    }

    if q.len() == 0 {
        // Every component of the target was `.` and nothing followed, so
        // nothing was spliced; emit the synthetic `.` so the component's
        // flags are still honored.
        let mut dot: Vec<u8> = Vec::new();
        dot.push(DOT);
        proof {
            assert(dot@ =~= seq![DOT]);
        }
        q.push_front(PathEntry { comp: Component::Normal(dot), flags: last_flags });
        proof {
            assert(queue_view(q@) =~= seq![
                EntryModel {
                    comp: CompModel::Normal(seq![DOT]),
                    flags: spec_last_flags(target@, flags),
                },
            ]);
        }
    }
    Ok(())
}

/// Whether a queue holds a root marker only at its front, if anywhere:
/// the shape every queue of this library has.
pub open spec fn root_only_front(q: Seq<EntryModel>) -> bool {
    forall|i: int| 1 <= i < q.len() ==> !(#[trigger] q[i].comp is RootMark)
}

/// Whether a queue holds no root marker at all.
pub open spec fn no_root(q: Seq<EntryModel>) -> bool {
    forall|i: int| 0 <= i < q.len() ==> !(#[trigger] q[i].comp is RootMark)
}

/// The body of a path never tokenizes to a root marker: only the
/// leading separator of an absolute path produces one.
pub proof fn lemma_body_tokens_no_root(s: Seq<u8>)
    ensures
        forall|i: int|
            0 <= i < body_tokens(s).len() ==> !(#[trigger] body_tokens(s)[i] is RootMark),
    decreases s.len(),
{
    if s.len() == 0 {
    } else if s[0] == SLASH {
        lemma_body_tokens_no_root(s.skip(1));
    } else {
        lemma_first_part_len_le(s);
        let n = first_part_len(s) as int;
        lemma_body_tokens_no_root(s.skip(n));
    }
}

/// Every queue a path tokenizes to has its root marker, if any, at the
/// front.
pub proof fn lemma_queue_of_path_root_only_front(s: Seq<u8>, flags: OpenFlags)
    ensures
        root_only_front(queue_of_path(s, flags)),
{
    lemma_body_tokens_no_root(s);
    let toks = tokens_of(s);
    assert forall|i: int| 1 <= i < queue_of_path(s, flags).len() implies !(#[trigger] queue_of_path(
        s,
        flags,
    )[i].comp is RootMark) by {
        if s.len() > 0 && s[0] == SLASH {
            assert(toks[i] == body_tokens(s)[i - 1]);
        } else {
            assert(toks[i] == body_tokens(s)[i]);
        }
    }
}

/// Splicing a symlink target onto a queue free of root markers keeps
/// any root marker at the front.
pub proof fn lemma_prepend_root_only_front(target: Seq<u8>, flags: OpenFlags, q: Seq<EntryModel>)
    requires
        no_root(q),
    ensures
        spec_prepend(target, flags, q) matches Ok(newq) ==> root_only_front(newq),
{
    if target.len() > 0 && !has_nul(target) {
        let spliced = queue_of_path(target, flags);
        lemma_queue_of_path_root_only_front(target, flags);
        let newq = spliced + q;
        if newq.len() == 0 {
        } else {
            assert forall|i: int| 1 <= i < newq.len() implies !(#[trigger] newq[i].comp
                is RootMark) by {
                if i < spliced.len() {
                    assert(newq[i] == spliced[i]);
                } else {
                    assert(newq[i] == q[i - spliced.len()]);
                }
            }
        }
    }
}

/// What `strip_trailing_slashes` returns: the string with every trailing
/// separator removed.
pub open spec fn spec_strip_trailing_slashes(s: Seq<u8>) -> Seq<u8>
    decreases s.len(),
{
    if s.len() > 0 && s[s.len() - 1] == SLASH {
        spec_strip_trailing_slashes(s.drop_last())
    } else {
        s
    }
}

proof fn lemma_strip_trailing_is_prefix(s: Seq<u8>, k: int)
    requires
        0 <= k <= s.len(),
        forall|m: int| k <= m < s.len() ==> s[m] == SLASH,
        k == 0 || s[k - 1] != SLASH,
    ensures
        spec_strip_trailing_slashes(s) == s.take(k),
    decreases s.len(),
{
    if s.len() > 0 && s[s.len() - 1] == SLASH {
        lemma_strip_trailing_is_prefix(s.drop_last(), k);
        assert(s.drop_last().take(k) =~= s.take(k));
    } else {
        assert(k == s.len());
        assert(s.take(k) =~= s);
    }
}

/// Copies `p` with every trailing `/` removed.
pub fn strip_trailing_slashes(p: &[u8]) -> (r: Vec<u8>)
    ensures
        r@ == spec_strip_trailing_slashes(p@),
{
    let mut k: usize = p.len();
    while k > 0 && p[k - 1] == SLASH
        invariant
            k <= p@.len(),
            forall|m: int| k <= m < p@.len() ==> p@[m] == SLASH,
        decreases k,
    {
        k = k - 1;
    }
    proof {
        lemma_strip_trailing_is_prefix(p@, k as int);
    }
    let mut r: Vec<u8> = Vec::new();
    let mut i: usize = 0;
    while i < k
        invariant
            i <= k <= p@.len(),
            r@ == p@.take(i as int),
        decreases k - i,
    {
        r.push(p[i]);
        i = i + 1;
        proof {
            assert(r@ =~= p@.take(i as int));
        }
    }
    r
}

/// What `strip_leading_slashes` returns: the string with every leading
/// separator removed.
pub open spec fn spec_strip_leading_slashes(s: Seq<u8>) -> Seq<u8>
    decreases s.len(),
{
    if s.len() > 0 && s[0] == SLASH {
        spec_strip_leading_slashes(s.skip(1))
    } else {
        s
    }
}

proof fn lemma_strip_leading_is_suffix(s: Seq<u8>, k: int)
    requires
        0 <= k <= s.len(),
        forall|m: int| 0 <= m < k ==> s[m] == SLASH,
        k == s.len() || s[k] != SLASH,
    ensures
        spec_strip_leading_slashes(s) == s.skip(k),
    decreases k,
{
    if k == 0 {
        assert(s.skip(0) =~= s);
    } else {
        assert(s[0] == SLASH);
        lemma_strip_leading_is_suffix(s.skip(1), k - 1);
        assert(s.skip(1).skip(k - 1) =~= s.skip(k));
    }
}

/// Copies `p` with every leading `/` removed.
pub fn strip_leading_slashes(p: &[u8]) -> (r: Vec<u8>)
    ensures
        r@ == spec_strip_leading_slashes(p@),
{
    let mut k: usize = 0;
    while k < p.len() && p[k] == SLASH
        invariant
            k <= p@.len(),
            forall|m: int| 0 <= m < k ==> p@[m] == SLASH,
        decreases p@.len() - k,
    {
        k = k + 1;
    }
    proof {
        lemma_strip_leading_is_suffix(p@, k as int);
    }
    let mut r: Vec<u8> = Vec::new();
    let mut i: usize = k;
    while i < p.len()
        invariant
            k <= i <= p@.len(),
            r@ == p@.subrange(k as int, i as int),
        decreases p@.len() - i,
    {
        r.push(p[i]);
        i = i + 1;
        proof {
            assert(r@ =~= p@.subrange(k as int, i as int));
        }
    }
    proof {
        assert(r@ =~= p@.skip(k as int));
    }
    r
}

/// The index of the last separator of `s`, or -1 if there is none.
pub open spec fn spec_last_sep(s: Seq<u8>) -> int
    decreases s.len(),
{
    if s.len() == 0 {
        -1
    } else if s[s.len() - 1] == SLASH {
        s.len() - 1
    } else {
        spec_last_sep(s.drop_last())
    }
}

proof fn lemma_last_sep_is(s: Seq<u8>, k: int)
    requires
        -1 <= k < s.len(),
        k >= 0 ==> s[k] == SLASH,
        forall|m: int| k < m < s.len() ==> s[m] != SLASH,
    ensures
        spec_last_sep(s) == k,
    decreases s.len(),
{
    if s.len() == 0 {
    } else if s[s.len() - 1] == SLASH {
    } else {
        lemma_last_sep_is(s.drop_last(), k);
    }
}

/// What `path_split` returns. The path is first stripped of trailing
/// separators. `None` when nothing remains (the path was `/` or empty) or
/// when the final component is `..` — such a path has no containing
/// directory to name. Otherwise the final component, and, when a
/// separator precedes it, everything up to and including that separator.
pub open spec fn spec_path_split(s: Seq<u8>) -> Option<(Option<Seq<u8>>, Seq<u8>)> {
    let b = spec_strip_trailing_slashes(s);
    if b.len() == 0 {
        None
    } else {
        let k = spec_last_sep(b);
        let fname = b.skip(k + 1);
        if fname == seq![DOT, DOT] {
            None
        } else if k < 0 {
            Some((None, b))
        } else {
            Some((Some(b.take(k + 1)), fname))
        }
    }
}

/// Splits a path into the name of its final component and the leading
/// part that names the directory holding it, as `spec_path_split`
/// describes.
pub fn path_split(p: &[u8]) -> (r: Option<(Option<Vec<u8>>, Vec<u8>)>)
    ensures
        match r {
            Some((Some(parent), fname)) => spec_path_split(p@) == Some(
                (Some(parent@), fname@),
            ),
            Some((None::<Vec<u8>>, fname)) => spec_path_split(p@) == Some(
                (None::<Seq<u8>>, fname@),
            ),
            None => spec_path_split(p@) is None,
        },
{
    let b = strip_trailing_slashes(p);
    if b.len() == 0 {
        return None;
    }

    // Find the last separator of the stripped path.
    let mut k: usize = b.len();
    let mut found: bool = false;
    while k > 0 && !found
        invariant
            k <= b@.len(),
            !found ==> forall|m: int| k <= m < b@.len() ==> b@[m] != SLASH,
            found ==> k < b@.len() && b@[k as int] == SLASH && forall|m: int|
                k < m < b@.len() ==> b@[m] != SLASH,
        decreases k,
    {
        if b[k - 1] == SLASH {
            k = k - 1;
            found = true;
        } else {
            k = k - 1;
        }
    }
    proof {
        if found {
            lemma_last_sep_is(b@, k as int);
        } else {
            assert(k == 0);
            lemma_last_sep_is(b@, -1);
        }
    }

    let fname_start = if found { k + 1 } else { 0 };
    let mut fname: Vec<u8> = Vec::new();
    let mut i: usize = fname_start;
    while i < b.len()
        invariant
            fname_start <= i <= b@.len(),
            fname@ == b@.subrange(fname_start as int, i as int),
        decreases b@.len() - i,
    {
        fname.push(b[i]);
        i = i + 1;
        proof {
            assert(fname@ =~= b@.subrange(fname_start as int, i as int));
        }
    }
    proof {
        assert(fname@ =~= b@.skip(spec_last_sep(b@) + 1));
    }

    if fname.len() == 2 && fname[0] == DOT && fname[1] == DOT {
        proof {
            assert(fname@ =~= seq![DOT, DOT]);
        }
        return None;
    }
    proof {
        assert(fname@ != seq![DOT, DOT]);
    }

    if found {
        let parent_len = k + 1;
        let mut parent: Vec<u8> = Vec::new();
        let mut j: usize = 0;
        while j < parent_len
            invariant
                j <= parent_len <= b@.len(),
                parent@ == b@.take(j as int),
            decreases parent_len - j,
        {
            parent.push(b[j]);
            j = j + 1;
            proof {
                assert(parent@ =~= b@.take(j as int));
            }
        }
        Some((Some(parent), fname))
    } else {
        proof {
            assert(fname@ =~= b@);
        }
        Some((None, fname))
    }
}

} // verus!
