use obnth::budget::SymlinkCounter;
use obnth::dirplan::plan_inner_operation;
use obnth::errno::canonical_open_errno;
use obnth::fastpath::{
    nofollow_any_plan, openat2_fallback, openat2_request, NfaPlan, RESOLVE_BENEATH,
    RESOLVE_IN_ROOT, RESOLVE_NO_MAGICLINKS, RESOLVE_NO_SYMLINKS, RESOLVE_NO_XDEV,
};
use obnth::flags::{
    dir_open_flags, has_o_search, LOOKUP_IN_ROOT, LOOKUP_NO_SYMLINKS, LOOKUP_NO_XDEV,
};
use obnth::meta::{
    file_type_from_dirent, file_type_from_mode, identify_mount, samestat, DT_DIR, DT_LNK, DT_REG,
    S_IFDIR, S_IFLNK, S_IFREG,
};
use obnth::mntid::{classify_handle_probe, fdinfo_mnt_id, is_procfs_magic};
use obnth::openopts::OpenOptions;
use obnth::{AccessMode, Errno, FileId, FileType, LookupFlags, MountId, OpenFlags};

#[test]
fn test_symlink_counter() {
    let mut links = SymlinkCounter::nolinks();
    assert!(links.exhausted());
    assert_eq!(links.advance().unwrap_err(), Errno::ELOOP);

    links = SymlinkCounter::new();
    assert!(links.max() > 0);
    for _ in 0..links.max() {
        assert!(!links.exhausted());
        links.advance().unwrap();
    }

    assert!(links.exhausted());
    assert_eq!(links.advance().unwrap_err(), Errno::ELOOP);
}

#[test]
fn test_symlink_counter_with_max() {
    // The budget never counts past its configured maximum: one more
    // expansion attempt yields ELOOP and leaves the count unchanged.
    let mut links = SymlinkCounter::with_max(2);
    assert!(!links.exhausted());
    links.advance().unwrap();
    links.advance().unwrap();
    assert!(links.exhausted());
    assert_eq!(links.used(), 2);
    assert_eq!(links.advance().unwrap_err(), Errno::ELOOP);
    assert_eq!(links.used(), 2);
}

#[test]
fn test_canonical_open_errno() {
    assert_eq!(canonical_open_errno(Errno::EMLINK), Errno::ELOOP);
    assert_eq!(canonical_open_errno(Errno::EFTYPE), Errno::ELOOP);
    assert_eq!(canonical_open_errno(Errno::ELOOP), Errno::ELOOP);
    assert_eq!(canonical_open_errno(Errno::ENOTDIR), Errno::ENOTDIR);
    assert_eq!(canonical_open_errno(Errno::Other(123)), Errno::Other(123));
}

#[test]
fn test_lookup_flag_bits() {
    assert_eq!(LOOKUP_NO_SYMLINKS, 0x01);
    assert_eq!(LOOKUP_IN_ROOT, 0x02);
    assert_eq!(LOOKUP_NO_XDEV, 0x04);

    let f = LookupFlags::from_bits(0x07);
    assert!(f.no_symlinks && f.in_root && f.no_xdev);
    assert_eq!(f.bits(), 0x07);

    let f = LookupFlags::from_bits(0x02);
    assert!(!f.no_symlinks && f.in_root && !f.no_xdev);
    assert_eq!(f.bits(), 0x02);

    assert_eq!(LookupFlags::empty().bits(), 0);
}

#[test]
fn test_file_types() {
    assert_eq!(file_type_from_mode(S_IFREG | 0o644), Some(FileType::File));
    assert_eq!(
        file_type_from_mode(S_IFDIR | 0o755),
        Some(FileType::Directory)
    );
    assert_eq!(
        file_type_from_mode(S_IFLNK | 0o777),
        Some(FileType::Symlink)
    );
    assert_eq!(file_type_from_mode(0), None);

    assert_eq!(file_type_from_dirent(DT_REG), Some(FileType::File));
    assert_eq!(file_type_from_dirent(DT_DIR), Some(FileType::Directory));
    assert_eq!(file_type_from_dirent(DT_LNK), Some(FileType::Symlink));
    assert_eq!(file_type_from_dirent(0), None);
}

#[test]
fn test_samestat() {
    let a = FileId { dev: 1, ino: 2 };
    let b = FileId { dev: 1, ino: 2 };
    let c = FileId { dev: 1, ino: 3 };
    let d = FileId { dev: 2, ino: 2 };
    assert!(samestat(&a, &b));
    assert!(!samestat(&a, &c));
    assert!(!samestat(&a, &d));
}

#[test]
fn test_identify_mount() {
    assert_eq!(identify_mount(7), MountId(7));
    assert_ne!(identify_mount(7), identify_mount(8));
}

#[test]
fn test_dir_open_flags() {
    let d = dir_open_flags();
    assert!(d.path_only && d.directory && !d.nofollow);
    assert!(has_o_search());
}

#[test]
fn test_basic_flags() {
    let opts = OpenOptions::new();

    let f = opts.read(true).flags().unwrap();
    assert_eq!(f.access, AccessMode::ReadOnly);
    assert!(!f.create && !f.create_excl && !f.truncate && !f.append);

    let f = opts.write(true).flags().unwrap();
    assert_eq!(f.access, AccessMode::WriteOnly);

    let f = opts.read(true).write(true).flags().unwrap();
    assert_eq!(f.access, AccessMode::ReadWrite);

    let f = opts.append(true).flags().unwrap();
    assert_eq!(f.access, AccessMode::WriteOnly);
    assert!(f.append);

    let f = opts.read(true).append(true).flags().unwrap();
    assert_eq!(f.access, AccessMode::ReadWrite);
    assert!(f.append);

    let f = opts.write(true).create_new(true).flags().unwrap();
    assert!(f.create && f.create_excl && !f.truncate);

    let f = opts.read(true).write(true).create_new(true).flags().unwrap();
    assert_eq!(f.access, AccessMode::ReadWrite);
    assert!(f.create && f.create_excl);

    let f = opts.write(true).create(true).flags().unwrap();
    assert!(f.create && !f.create_excl);

    let f = opts.write(true).truncate(true).flags().unwrap();
    assert!(f.truncate && !f.create);

    let f = opts.write(true).create(true).truncate(true).flags().unwrap();
    assert!(f.create && f.truncate);

    assert_eq!(opts.flags().unwrap_err(), Errno::EINVAL);
    assert_eq!(
        opts.read(true).create(true).flags().unwrap_err(),
        Errno::EINVAL
    );
    assert_eq!(
        opts.read(true).create_new(true).flags().unwrap_err(),
        Errno::EINVAL
    );
    assert_eq!(
        opts.read(true).truncate(true).flags().unwrap_err(),
        Errno::EINVAL
    );
}

#[test]
fn test_custom_flags() {
    let opts = OpenOptions::new();
    let mut custom = OpenFlags::read_only();
    custom.nofollow = true;
    // The custom access mode is ignored; the custom nofollow bit is kept.
    custom.access = AccessMode::ReadWrite;
    let f = opts.read(true).custom_flags(custom).flags().unwrap();
    assert_eq!(f.access, AccessMode::ReadOnly);
    assert!(f.nofollow);
}

#[test]
fn test_openat2_request() {
    assert_eq!(
        openat2_request(true, b"a/b", LookupFlags::empty()).unwrap_err(),
        Errno::EBADF
    );

    let r = openat2_request(false, b"a/b", LookupFlags::empty()).unwrap();
    assert_eq!(r.path, b"a/b".to_vec());
    assert!(!r.add_directory);
    assert_eq!(r.resolve, RESOLVE_NO_MAGICLINKS | RESOLVE_BENEATH);

    let r = openat2_request(false, b"a/b/", LookupFlags::empty()).unwrap();
    assert_eq!(r.path, b"a/b".to_vec());
    assert!(r.add_directory);

    // A lone slash is not stripped.
    let r = openat2_request(false, b"/", LookupFlags::empty()).unwrap();
    assert_eq!(r.path, b"/".to_vec());
    assert!(!r.add_directory);

    let all = LookupFlags {
        no_symlinks: true,
        in_root: true,
        no_xdev: true,
    };
    let r = openat2_request(false, b"x", all).unwrap();
    assert_eq!(
        r.resolve,
        RESOLVE_NO_MAGICLINKS | RESOLVE_IN_ROOT | RESOLVE_NO_SYMLINKS | RESOLVE_NO_XDEV
    );

    assert!(openat2_fallback(&Errno::E2BIG));
    assert!(openat2_fallback(&Errno::EAGAIN));
    assert!(!openat2_fallback(&Errno::EACCES));
}

#[test]
fn test_nofollow_any_plan() {
    let ns = LookupFlags {
        no_symlinks: true,
        in_root: false,
        no_xdev: false,
    };
    let ns_root = LookupFlags {
        no_symlinks: true,
        in_root: true,
        no_xdev: false,
    };

    assert!(matches!(
        nofollow_any_plan(LookupFlags::empty(), b"a"),
        NfaPlan::NotApplicable
    ));
    assert!(matches!(
        nofollow_any_plan(ns, b"a/../b"),
        NfaPlan::NotApplicable
    ));
    match nofollow_any_plan(ns, b"a/b") {
        NfaPlan::Open(p) => assert_eq!(p, b"a/b".to_vec()),
        other => panic!("unexpected plan: {:?}", other),
    }
    assert!(matches!(
        nofollow_any_plan(ns, b"/a"),
        NfaPlan::Fail(Errno::EXDEV)
    ));
    match nofollow_any_plan(ns_root, b"//a/b") {
        NfaPlan::Open(p) => assert_eq!(p, b"a/b".to_vec()),
        other => panic!("unexpected plan: {:?}", other),
    }
    assert!(matches!(nofollow_any_plan(ns_root, b"///"), NfaPlan::OpenDot));
}

#[test]
fn test_handle_probe() {
    assert_eq!(
        classify_handle_probe(false, Errno::EOVERFLOW, 42),
        Ok(Some(42))
    );
    assert_eq!(classify_handle_probe(true, Errno::EOVERFLOW, 42), Ok(None));
    assert_eq!(classify_handle_probe(false, Errno::ENOSYS, -1), Ok(None));
    assert_eq!(classify_handle_probe(false, Errno::EPERM, -1), Ok(None));
    assert_eq!(classify_handle_probe(false, Errno::EOPNOTSUPP, -1), Ok(None));
    assert_eq!(
        classify_handle_probe(false, Errno::EBADF, -1),
        Err(Errno::EBADF)
    );
}

#[test]
fn test_procfs_magic() {
    assert!(is_procfs_magic(0x9fa0));
    assert!(!is_procfs_magic(0x1234));
}

#[test]
fn test_fdinfo_mnt_id() {
    let text = b"pos:\t0\nflags:\t02000000\nmnt_id:\t29\nino:\t2\n";
    assert_eq!(fdinfo_mnt_id(text), Some(29));

    // The first matching line wins.
    let text = b"mnt_id: 7\nmnt_id: 8\n";
    assert_eq!(fdinfo_mnt_id(text), Some(7));

    // No line, no id; an unparsable field is also no id.
    assert_eq!(fdinfo_mnt_id(b"pos: 0\n"), None);
    assert_eq!(fdinfo_mnt_id(b"mnt_id: zzz\n"), None);
    assert_eq!(fdinfo_mnt_id(b"mnt_id:\n"), None);
    assert_eq!(fdinfo_mnt_id(b"mnt_id: 99999999999\n"), None);

    // A final line without a newline still counts.
    assert_eq!(fdinfo_mnt_id(b"a: b\nmnt_id: 13"), Some(13));
    // An explicit plus sign parses, as the standard number parser takes it.
    assert_eq!(fdinfo_mnt_id(b"mnt_id: +5\n"), Some(5));
}

#[test]
fn test_prepare_inner_operation() {
    let in_root = LookupFlags {
        no_symlinks: false,
        in_root: true,
        no_xdev: false,
    };
    let empty = LookupFlags::empty();

    let check = |path: &str, lookup: LookupFlags, parent: Option<&str>, fname: Option<&str>| {
        let plan = plan_inner_operation(path.as_bytes(), lookup).unwrap();
        assert_eq!(
            plan.parent.as_deref(),
            parent.map(|s| s.as_bytes()),
            "parent for {:?}",
            path
        );
        assert_eq!(
            plan.fname.as_deref(),
            fname.map(|s| s.as_bytes()),
            "fname for {:?}",
            path
        );
    };

    check("/", in_root, None, None);
    check(".", empty, None, None);
    check("a", empty, None, Some("a"));
    check("a/", empty, None, Some("a"));
    check("a/.", empty, Some("a/"), None);
    check("a/b", empty, Some("a/"), Some("b"));
    check("a/b/.", empty, Some("a/b/"), None);
    check("a/b/c", empty, Some("a/b/"), Some("c"));
    check("a/..", empty, Some("a/.."), None);
    check("/..", in_root, Some(".."), None);

    assert_eq!(
        plan_inner_operation(b"/", empty).unwrap_err(),
        Errno::EXDEV
    );
    assert_eq!(plan_inner_operation(b"", empty).unwrap_err(), Errno::ENOENT);
}
