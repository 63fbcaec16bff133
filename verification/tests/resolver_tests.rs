//! Drives the resolver against a small in-memory filesystem model and
//! checks the end-to-end outcomes the resolver promises: containment,
//! symlink discipline, mount confinement, and the canonical errors.

use obnth::flags::OpenFlags;
use obnth::resolver::{Action, Event, FdSlot, PathArg, Resolver};
use obnth::{AccessMode, Errno, FileId, FileType, LookupFlags, MountId};

#[derive(Clone)]
enum Node {
    Dir(Vec<(Vec<u8>, usize)>),
    File,
    Symlink(Vec<u8>),
}

struct Fs {
    nodes: Vec<Node>,
    devs: Vec<u64>,
    parents: Vec<usize>,
}

impl Fs {
    fn new() -> Fs {
        // Node 0 is the real filesystem root; its parent is itself.
        Fs {
            nodes: vec![Node::Dir(Vec::new())],
            devs: vec![1],
            parents: vec![0],
        }
    }

    fn add_dir(&mut self, parent: usize, name: &str) -> usize {
        self.add_dir_dev(parent, name, self.devs[parent])
    }

    fn add_dir_dev(&mut self, parent: usize, name: &str, dev: u64) -> usize {
        let id = self.nodes.len();
        self.nodes.push(Node::Dir(Vec::new()));
        self.devs.push(dev);
        self.parents.push(parent);
        self.link(parent, name, id);
        id
    }

    fn add_file(&mut self, parent: usize, name: &str) -> usize {
        let id = self.nodes.len();
        self.nodes.push(Node::File);
        self.devs.push(self.devs[parent]);
        self.parents.push(parent);
        self.link(parent, name, id);
        id
    }

    fn add_symlink(&mut self, parent: usize, name: &str, target: &str) -> usize {
        let id = self.nodes.len();
        self.nodes.push(Node::Symlink(target.as_bytes().to_vec()));
        self.devs.push(self.devs[parent]);
        self.parents.push(parent);
        self.link(parent, name, id);
        id
    }

    fn link(&mut self, parent: usize, name: &str, id: usize) {
        match &mut self.nodes[parent] {
            Node::Dir(entries) => entries.push((name.as_bytes().to_vec(), id)),
            _ => panic!("parent is not a directory"),
        }
    }

    fn id(&self, n: usize) -> FileId {
        FileId {
            dev: self.devs[n],
            ino: n as u64 + 1,
        }
    }

    fn ftype(&self, n: usize) -> FileType {
        match &self.nodes[n] {
            Node::Dir(_) => FileType::Directory,
            Node::File => FileType::File,
            Node::Symlink(_) => FileType::Symlink,
        }
    }

    fn lookup(&self, dir: usize, name: &[u8]) -> Option<usize> {
        if name == b"." {
            return Some(dir);
        }
        match &self.nodes[dir] {
            Node::Dir(entries) => entries
                .iter()
                .find(|(n, _)| n.as_slice() == name)
                .map(|(_, id)| *id),
            _ => None,
        }
    }

    fn openat(
        &mut self,
        dir: usize,
        name: &PathArg,
        flags: &OpenFlags,
        _mode: u32,
    ) -> Result<usize, Errno> {
        let name_bytes: &[u8] = match name {
            PathArg::Dot => b".",
            PathArg::DotDot => return Ok(self.parents[dir]),
            PathArg::Name(n) => n.as_slice(),
        };
        if !matches!(self.nodes[dir], Node::Dir(_)) {
            return Err(Errno::ENOTDIR);
        }
        // The resolver never asks to follow the final component.
        if matches!(name, PathArg::Name(_)) {
            assert!(flags.nofollow, "component open without the nofollow bit");
        }
        match self.lookup(dir, name_bytes) {
            None => {
                if flags.create {
                    let id = self.nodes.len();
                    self.nodes.push(Node::File);
                    self.devs.push(self.devs[dir]);
                    self.parents.push(dir);
                    match &mut self.nodes[dir] {
                        Node::Dir(entries) => entries.push((name_bytes.to_vec(), id)),
                        _ => unreachable!(),
                    }
                    Ok(id)
                } else {
                    Err(Errno::ENOENT)
                }
            }
            Some(target) => match self.nodes[target].clone() {
                Node::Symlink(_) => {
                    // `nofollow` holds here. A path-only request without a
                    // directory requirement hands back the link itself, as
                    // the host kernel does; otherwise the open fails.
                    if flags.path_only && !flags.directory {
                        Ok(target)
                    } else if flags.directory {
                        Err(Errno::ENOTDIR)
                    } else {
                        Err(Errno::ELOOP)
                    }
                }
                Node::File => {
                    if flags.directory {
                        Err(Errno::ENOTDIR)
                    } else if flags.create && flags.create_excl {
                        Err(Errno::EEXIST)
                    } else {
                        Ok(target)
                    }
                }
                Node::Dir(_) => {
                    if flags.create && flags.create_excl {
                        Err(Errno::EEXIST)
                    } else if matches!(flags.access, AccessMode::WriteOnly | AccessMode::ReadWrite)
                    {
                        Err(Errno::EISDIR)
                    } else {
                        Ok(target)
                    }
                }
            },
        }
    }

    fn readlinkat(&self, dir: usize, name: &[u8]) -> Result<Vec<u8>, Errno> {
        let node = if name.is_empty() {
            dir
        } else {
            match self.lookup(dir, name) {
                Some(n) => n,
                None => return Err(Errno::ENOENT),
            }
        };
        match &self.nodes[node] {
            Node::Symlink(target) => Ok(target.clone()),
            _ => Err(Errno::EINVAL),
        }
    }
}

struct Slots {
    root: usize,
    cur: Option<usize>,
    rewind: Option<usize>,
    child: Option<usize>,
}

impl Slots {
    fn resolve(&self, slot: FdSlot) -> usize {
        match slot {
            FdSlot::Root => self.root,
            FdSlot::Cur => self.cur.unwrap_or(self.root),
            FdSlot::Rewind => self.rewind.unwrap_or_else(|| self.cur.unwrap_or(self.root)),
            FdSlot::Child => self.child.expect("no candidate descriptor"),
        }
    }
}

fn resolve(
    fs: &mut Fs,
    root: usize,
    path: &[u8],
    flags: OpenFlags,
    lookup: LookupFlags,
) -> Result<usize, Errno> {
    let mut r = Resolver::new(false, path.to_vec(), flags, 0o666, lookup, None);
    let mut slots = Slots {
        root,
        cur: None,
        rewind: None,
        child: None,
    };
    let mut ev = Event::Begin;
    let mut steps = 0u32;
    loop {
        steps += 1;
        assert!(steps < 10_000, "resolution does not terminate");
        let act = r.step(ev);
        ev = match act {
            Action::Fstat { slot } => {
                let n = slots.resolve(slot);
                Event::Stat {
                    id: fs.id(n),
                    ftype: Some(fs.ftype(n)),
                }
            }
            Action::Open {
                dir,
                name,
                flags,
                mode,
                into,
            } => {
                let d = slots.resolve(dir);
                match fs.openat(d, &name, &flags, mode) {
                    Ok(n) => {
                        match into {
                            FdSlot::Cur => slots.cur = Some(n),
                            FdSlot::Rewind => slots.rewind = Some(n),
                            FdSlot::Child => slots.child = Some(n),
                            FdSlot::Root => panic!("open into the root slot"),
                        }
                        Event::Opened
                    }
                    Err(e) => Event::OpenErr { errno: e },
                }
            }
            Action::ReadLinkAt { dir, name } => {
                let d = slots.resolve(dir);
                match fs.readlinkat(d, &name) {
                    Ok(target) => Event::Link { target },
                    Err(e) => Event::LinkErr { errno: e },
                }
            }
            Action::IdentifyMount { slot } => {
                let n = slots.resolve(slot);
                Event::Mount {
                    id: MountId(fs.devs[n]),
                }
            }
            Action::DropCur => {
                slots.cur = None;
                Event::Ack
            }
            Action::DropChild => {
                slots.child = None;
                Event::Ack
            }
            Action::AdoptChild => {
                slots.cur = slots.child.take();
                Event::Ack
            }
            Action::DropRewind => {
                slots.rewind = None;
                Event::Ack
            }
            Action::Finish { slot } => return Ok(slots.resolve(slot)),
            Action::Fail { errno } => return Err(errno),
        };
    }
}

/// The directory layout of the end-to-end scenarios: a fresh tree `t`
/// holding a subdirectory, a file, and a spread of symlinks.
struct World {
    fs: Fs,
    t: usize,
    a: usize,
    b: usize,
    sub: usize,
}

fn world() -> World {
    let mut fs = Fs::new();
    let t = fs.add_dir(0, "t");
    let a = fs.add_dir(t, "a");
    let b = fs.add_file(a, "b");
    let sub = fs.add_dir(a, "sub");
    fs.add_symlink(t, "c", "a/b");
    fs.add_symlink(t, "d", "/a/b");
    fs.add_symlink(t, "e", "a/");
    fs.add_symlink(t, "f", "/");
    fs.add_symlink(a, "g", "./b");
    fs.add_symlink(a, "h", ".");
    fs.add_symlink(a, "i", "/escape");
    fs.add_symlink(t, "loop", "loop");
    fs.add_dir(0, "escape");
    World { fs, t, a, b, sub }
}

fn rdonly() -> OpenFlags {
    OpenFlags::read_only()
}

fn wronly() -> OpenFlags {
    OpenFlags {
        access: AccessMode::WriteOnly,
        ..OpenFlags::read_only()
    }
}

fn in_root() -> LookupFlags {
    LookupFlags {
        no_symlinks: false,
        in_root: true,
        no_xdev: false,
    }
}

#[test]
fn test_beneath_plain_walk() {
    let mut w = world();
    let t = w.t;
    assert_eq!(
        resolve(&mut w.fs, t, b"a/b", rdonly(), LookupFlags::empty()),
        Ok(w.b)
    );
}

#[test]
fn test_beneath_dotdot_contained() {
    let mut w = world();
    let t = w.t;
    assert_eq!(
        resolve(&mut w.fs, t, b"a/../a/b", rdonly(), LookupFlags::empty()),
        Ok(w.b)
    );
}

#[test]
fn test_beneath_symlink_followed() {
    let mut w = world();
    let t = w.t;
    assert_eq!(
        resolve(&mut w.fs, t, b"c", wronly(), LookupFlags::empty()),
        Ok(w.b)
    );
}

#[test]
fn test_beneath_absolute_target_escapes() {
    let mut w = world();
    let t = w.t;
    assert_eq!(
        resolve(&mut w.fs, t, b"d", wronly(), LookupFlags::empty()),
        Err(Errno::EXDEV)
    );
}

#[test]
fn test_beneath_absolute_target_in_root() {
    let mut w = world();
    let t = w.t;
    assert_eq!(resolve(&mut w.fs, t, b"d", wronly(), in_root()), Ok(w.b));
}

#[test]
fn test_beneath_root_link_opens_root() {
    let mut w = world();
    let t = w.t;
    assert_eq!(resolve(&mut w.fs, t, b"f", rdonly(), in_root()), Ok(t));
}

#[test]
fn test_beneath_symlink_loop() {
    let mut w = world();
    let t = w.t;
    assert_eq!(
        resolve(&mut w.fs, t, b"loop", rdonly(), LookupFlags::empty()),
        Err(Errno::ELOOP)
    );
}

#[test]
fn test_beneath_create_does_not_escape() {
    let mut w = world();
    let t = w.t;
    let mut flags = wronly();
    flags.create = true;
    assert_eq!(
        resolve(&mut w.fs, t, b"a/i", flags, LookupFlags::empty()),
        Err(Errno::EXDEV)
    );
    // Nothing named "escape" was created anywhere new: the only entry
    // is the preexisting one under the real root.
    assert!(w.fs.lookup(w.a, b"escape").is_none());
}

#[test]
fn test_beneath_overwalk_escapes() {
    let mut w = world();
    let t = w.t;
    assert_eq!(
        resolve(
            &mut w.fs,
            t,
            b"a/sub/../../..",
            rdonly(),
            LookupFlags::empty()
        ),
        Err(Errno::EXDEV)
    );
}

#[test]
fn test_beneath_overwalk_clamps_in_root() {
    let mut w = world();
    let t = w.t;
    assert_eq!(
        resolve(&mut w.fs, t, b"a/sub/../../..", rdonly(), in_root()),
        Ok(t)
    );
}

#[test]
fn test_beneath_empty_path() {
    let mut w = world();
    let t = w.t;
    assert_eq!(
        resolve(&mut w.fs, t, b"", rdonly(), LookupFlags::empty()),
        Err(Errno::ENOENT)
    );
}

#[test]
fn test_beneath_cwd_sentinel_rejected() {
    // The ambient-cwd marker is not a real descriptor: EBADF.
    let mut r = Resolver::new(
        true,
        b".".to_vec(),
        rdonly(),
        0,
        LookupFlags::empty(),
        None,
    );
    let act = r.step(Event::Begin);
    assert!(matches!(act, Action::Fstat { slot: FdSlot::Root }));
    let act = r.step(Event::Stat {
        id: FileId { dev: 1, ino: 1 },
        ftype: Some(FileType::Directory),
    });
    assert!(matches!(act, Action::Fail { errno: Errno::EBADF }));
}

#[test]
fn test_beneath_root_not_directory() {
    let mut w = world();
    let b = w.b;
    assert_eq!(
        resolve(&mut w.fs, b, b"x", rdonly(), LookupFlags::empty()),
        Err(Errno::ENOTDIR)
    );
}

#[test]
fn test_relative_symlinks_followed() {
    let mut w = world();
    let t = w.t;
    assert_eq!(
        resolve(&mut w.fs, t, b"a/g", rdonly(), LookupFlags::empty()),
        Ok(w.b)
    );
    assert_eq!(
        resolve(&mut w.fs, t, b"e", rdonly(), LookupFlags::empty()),
        Ok(w.a)
    );
    assert_eq!(
        resolve(&mut w.fs, t, b"a/h", rdonly(), LookupFlags::empty()),
        Ok(w.a)
    );
}

#[test]
fn test_trailing_slash_demands_directory() {
    let mut w = world();
    let t = w.t;
    assert_eq!(
        resolve(&mut w.fs, t, b"a/b/", rdonly(), LookupFlags::empty()),
        Err(Errno::ENOTDIR)
    );
    assert_eq!(
        resolve(&mut w.fs, t, b"a/sub/", rdonly(), LookupFlags::empty()),
        Ok(w.sub)
    );
}

#[test]
fn test_no_symlinks_refuses_links() {
    let mut w = world();
    let t = w.t;
    let ns = LookupFlags {
        no_symlinks: true,
        in_root: false,
        no_xdev: false,
    };
    // A symlink component fails with ELOOP under NO_SYMLINKS...
    assert_eq!(resolve(&mut w.fs, t, b"c", rdonly(), ns), Err(Errno::ELOOP));
    // ... while a link-free path is untouched by the flag.
    assert_eq!(resolve(&mut w.fs, t, b"a/b", rdonly(), ns), Ok(w.b));
}

#[test]
fn test_no_xdev_blocks_mount_crossing() {
    let mut w = world();
    let t = w.t;
    let other = w.fs.add_dir_dev(t, "mnt", 2);
    let inner = w.fs.add_file(other, "x");
    let nx = LookupFlags {
        no_symlinks: false,
        in_root: false,
        no_xdev: true,
    };
    assert_eq!(
        resolve(&mut w.fs, t, b"mnt/x", rdonly(), nx),
        Err(Errno::EXDEV)
    );
    // The same walk without the flag crosses freely.
    assert_eq!(
        resolve(&mut w.fs, t, b"mnt/x", rdonly(), LookupFlags::empty()),
        Ok(inner)
    );
    // A walk that stays on the root's mount is untouched by the flag.
    assert_eq!(resolve(&mut w.fs, t, b"a/b", rdonly(), nx), Ok(w.b));
}

#[test]
fn test_resolution_idempotent() {
    // Against an unchanged tree, a second identical call lands on the
    // identity-equal file.
    let mut w = world();
    let t = w.t;
    let first = resolve(&mut w.fs, t, b"a/../a/b", rdonly(), LookupFlags::empty()).unwrap();
    let second = resolve(&mut w.fs, t, b"a/../a/b", rdonly(), LookupFlags::empty()).unwrap();
    assert_eq!(w.fs.id(first), w.fs.id(second));
}

#[test]
fn test_budget_spent_gives_eloop() {
    // A chain longer than the default budget of forty expansions fails
    // with ELOOP even though every link is well-formed.
    let mut fs = Fs::new();
    let t = fs.add_dir(0, "t");
    fs.add_file(t, "end");
    fs.add_symlink(t, "s0", "end");
    for i in 1..=41u32 {
        let name = format!("s{}", i);
        let target = format!("s{}", i - 1);
        fs.add_symlink(t, &name, &target);
    }
    // Forty expansions exactly fit the budget...
    let ok = resolve(&mut fs, t, b"s39", rdonly(), LookupFlags::empty());
    assert!(ok.is_ok());
    // ... and one more is refused.
    assert_eq!(
        resolve(&mut fs, t, b"s40", rdonly(), LookupFlags::empty()),
        Err(Errno::ELOOP)
    );
}

#[test]
fn test_race_escape() {
    // A rewind verification that walks `..` to a fixed point without
    // ever meeting the root means the walk escaped through a rename
    // race: the resolver reports EAGAIN. Kernel answers are scripted
    // here, since the race cannot be reproduced deterministically.
    let root_id = FileId { dev: 1, ino: 1 };
    let stranger = FileId { dev: 1, ino: 50 };
    let real_root = FileId { dev: 1, ino: 99 };
    let dir = Some(FileType::Directory);

    let mut r = Resolver::new(
        false,
        b"a/../b".to_vec(),
        rdonly(),
        0,
        LookupFlags::empty(),
        None,
    );
    assert!(matches!(r.step(Event::Begin), Action::Fstat { slot: FdSlot::Root }));
    // Root is a directory; the walk starts with "a".
    let act = r.step(Event::Stat {
        id: root_id,
        ftype: dir,
    });
    assert!(matches!(
        act,
        Action::Open {
            name: PathArg::Name(_),
            ..
        }
    ));
    // "a" opened; ".." comes next: the resolver stats the position.
    let act = r.step(Event::Opened);
    assert!(matches!(act, Action::Fstat { slot: FdSlot::Cur }));
    // The position is not the root, so ".." is opened.
    let act = r.step(Event::Stat {
        id: FileId { dev: 1, ino: 2 },
        ftype: dir,
    });
    assert!(matches!(
        act,
        Action::Open {
            name: PathArg::DotDot,
            into: FdSlot::Cur,
            ..
        }
    ));
    // Now "b" is due, but the ascent must be verified first.
    let act = r.step(Event::Opened);
    assert!(matches!(act, Action::Fstat { slot: FdSlot::Rewind }));
    // The rewind cursor sees a stranger, not the root: ascend.
    let act = r.step(Event::Stat {
        id: stranger,
        ftype: dir,
    });
    assert!(matches!(
        act,
        Action::Open {
            name: PathArg::DotDot,
            into: FdSlot::Rewind,
            ..
        }
    ));
    let act = r.step(Event::Opened);
    assert!(matches!(act, Action::Fstat { slot: FdSlot::Rewind }));
    // The next ancestor is the real filesystem root...
    let act = r.step(Event::Stat {
        id: real_root,
        ftype: dir,
    });
    assert!(matches!(act, Action::Open { .. }));
    let act = r.step(Event::Opened);
    assert!(matches!(act, Action::Fstat { slot: FdSlot::Rewind }));
    // ... whose parent is itself: the chain stood still without ever
    // passing the caller's root. Escape detected.
    let act = r.step(Event::Stat {
        id: real_root,
        ftype: dir,
    });
    assert!(matches!(act, Action::Fail { errno: Errno::EAGAIN }));
}

#[test]
fn test_symlink_swapped_midwalk_gives_eagain() {
    // The open reported a definite symlink, the follow-up read found
    // none: the entry mutated between the calls. EAGAIN.
    let mut r = Resolver::new(
        false,
        b"x".to_vec(),
        rdonly(),
        0,
        LookupFlags::empty(),
        None,
    );
    assert!(matches!(r.step(Event::Begin), Action::Fstat { .. }));
    let act = r.step(Event::Stat {
        id: FileId { dev: 1, ino: 1 },
        ftype: Some(FileType::Directory),
    });
    assert!(matches!(act, Action::Open { .. }));
    let act = r.step(Event::OpenErr {
        errno: Errno::ELOOP,
    });
    assert!(matches!(act, Action::ReadLinkAt { .. }));
    let act = r.step(Event::LinkErr {
        errno: Errno::EINVAL,
    });
    assert!(matches!(act, Action::Fail { errno: Errno::EAGAIN }));
}

#[test]
fn test_bsd_symlink_errno_canonicalized() {
    // A historical EMLINK from the component open is treated as "the
    // leaf was a symlink" and leads to the link read.
    let mut r = Resolver::new(
        false,
        b"x".to_vec(),
        rdonly(),
        0,
        LookupFlags::empty(),
        None,
    );
    assert!(matches!(r.step(Event::Begin), Action::Fstat { .. }));
    let act = r.step(Event::Stat {
        id: FileId { dev: 1, ino: 1 },
        ftype: Some(FileType::Directory),
    });
    assert!(matches!(act, Action::Open { .. }));
    let act = r.step(Event::OpenErr {
        errno: Errno::EMLINK,
    });
    assert!(matches!(act, Action::ReadLinkAt { .. }));
}

#[test]
fn test_path_only_symlink_check() {
    // A path-only request without nofollow or directory can hand back a
    // descriptor to the symlink itself; the resolver stats the result
    // and expands the link instead of returning it.
    let mut w = world();
    let t = w.t;
    let path_only = OpenFlags {
        path_only: true,
        ..OpenFlags::read_only()
    };
    assert_eq!(
        resolve(&mut w.fs, t, b"c", path_only, LookupFlags::empty()),
        Ok(w.b)
    );
}

#[test]
fn test_mode_passed_through() {
    // The creation mode rides along on component opens.
    let mut r = Resolver::new(
        false,
        b"x".to_vec(),
        rdonly(),
        0o640,
        LookupFlags::empty(),
        None,
    );
    assert!(matches!(r.step(Event::Begin), Action::Fstat { .. }));
    let act = r.step(Event::Stat {
        id: FileId { dev: 1, ino: 1 },
        ftype: Some(FileType::Directory),
    });
    match act {
        Action::Open { mode, .. } => assert_eq!(mode, 0o640),
        other => panic!("unexpected action: {:?}", other),
    }
}

#[test]
fn test_write_to_directory_is_eisdir() {
    let mut w = world();
    let t = w.t;
    assert_eq!(
        resolve(&mut w.fs, t, b"a", wronly(), LookupFlags::empty()),
        Err(Errno::EISDIR)
    );
}

#[test]
fn test_create_new_existing_is_eexist() {
    let mut w = world();
    let t = w.t;
    let mut flags = wronly();
    flags.create = true;
    flags.create_excl = true;
    assert_eq!(
        resolve(&mut w.fs, t, b"a/b", flags, LookupFlags::empty()),
        Err(Errno::EEXIST)
    );
}

#[test]
fn test_unknown_errno_passes_through() {
    // An errno outside the canonical set comes back verbatim.
    let mut r = Resolver::new(
        false,
        b"x".to_vec(),
        rdonly(),
        0,
        LookupFlags::empty(),
        None,
    );
    assert!(matches!(r.step(Event::Begin), Action::Fstat { .. }));
    let act = r.step(Event::Stat {
        id: FileId { dev: 1, ino: 1 },
        ftype: Some(FileType::Directory),
    });
    assert!(matches!(act, Action::Open { .. }));
    let act = r.step(Event::OpenErr {
        errno: Errno::Other(5),
    });
    assert!(matches!(act, Action::Fail { errno: Errno::Other(5) }));
}
