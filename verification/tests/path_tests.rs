use obnth::flags::{dir_open_flags, OpenFlags};
use obnth::path::{
    path_split, split_link_path_into, split_path, strip_trailing_slashes, Component, PathEntry,
};
use obnth::Errno;
use std::collections::VecDeque;

fn rdonly() -> OpenFlags {
    OpenFlags::read_only()
}

fn entry_name(e: &PathEntry) -> Option<Vec<u8>> {
    match &e.comp {
        Component::Normal(n) => Some(n.clone()),
        _ => None,
    }
}

fn check_queue(q: &VecDeque<PathEntry>, expected: &[(&str, OpenFlags)]) {
    assert_eq!(q.len(), expected.len());
    for (e, (name, flags)) in q.iter().zip(expected.iter()) {
        match *name {
            "/" => assert!(matches!(e.comp, Component::RootMark)),
            ".." => assert!(matches!(e.comp, Component::Parent)),
            n => assert_eq!(entry_name(e).unwrap(), n.as_bytes().to_vec()),
        }
        assert_eq!(e.flags, *flags);
    }
}

#[test]
fn test_split_path() {
    let q = split_path(b"abc", rdonly()).unwrap();
    check_queue(&q, &[("abc", rdonly())]);

    let q = split_path(b"abc/def", rdonly()).unwrap();
    check_queue(&q, &[("abc", dir_open_flags()), ("def", rdonly())]);

    let q = split_path(b"/abc/./../def", rdonly()).unwrap();
    check_queue(
        &q,
        &[
            ("/", dir_open_flags()),
            ("abc", dir_open_flags()),
            ("..", dir_open_flags()),
            ("def", rdonly()),
        ],
    );

    let q = split_path(b"./abc/./../def/", rdonly()).unwrap();
    check_queue(
        &q,
        &[
            ("abc", dir_open_flags()),
            ("..", dir_open_flags()),
            ("def", rdonly().with_directory()),
        ],
    );

    assert_eq!(split_path(b"", rdonly()).unwrap_err(), Errno::ENOENT);
}

#[test]
fn test_split_path_nul() {
    assert_eq!(split_path(b"a\0b", rdonly()).unwrap_err(), Errno::EINVAL);
}

#[test]
fn test_split_path_trailing_dot() {
    // A trailing `/.` also demands a directory.
    let q = split_path(b"x/.", rdonly()).unwrap();
    check_queue(&q, &[("x", rdonly().with_directory())]);
}

#[test]
fn test_split_link_path_into() {
    let mut parts: VecDeque<PathEntry> = VecDeque::new();

    parts.push_back(PathEntry {
        comp: Component::Normal(b"END".to_vec()),
        flags: rdonly(),
    });
    split_link_path_into(b"abc/def", rdonly(), &mut parts).unwrap();
    check_queue(
        &parts,
        &[("abc", dir_open_flags()), ("def", rdonly()), ("END", rdonly())],
    );
    parts.clear();

    parts.push_back(PathEntry {
        comp: Component::Normal(b"END".to_vec()),
        flags: rdonly(),
    });
    split_link_path_into(b"/abc/./../def", rdonly(), &mut parts).unwrap();
    check_queue(
        &parts,
        &[
            ("/", dir_open_flags()),
            ("abc", dir_open_flags()),
            ("..", dir_open_flags()),
            ("def", rdonly()),
            ("END", rdonly()),
        ],
    );
    parts.clear();

    assert_eq!(
        split_link_path_into(b"", rdonly(), &mut parts).unwrap_err(),
        Errno::ENOENT
    );
    assert!(parts.is_empty());

    parts.push_back(PathEntry {
        comp: Component::Normal(b"END".to_vec()),
        flags: rdonly(),
    });
    split_link_path_into(b"./abc/./def/.", rdonly(), &mut parts).unwrap();
    check_queue(
        &parts,
        &[
            ("abc", dir_open_flags()),
            ("def", rdonly().with_directory()),
            ("END", rdonly()),
        ],
    );
    parts.clear();
}

#[test]
fn test_split_link_path_into_synthetic_dot() {
    // A link that resolves to pure `.` at the end of the queue leaves a
    // synthetic `.` carrying the component's flags.
    let mut parts: VecDeque<PathEntry> = VecDeque::new();
    split_link_path_into(b".", rdonly().with_directory(), &mut parts).unwrap();
    check_queue(&parts, &[(".", rdonly().with_directory())]);

    // With something after it in the queue, nothing is spliced.
    let mut parts: VecDeque<PathEntry> = VecDeque::new();
    parts.push_back(PathEntry {
        comp: Component::Normal(b"x".to_vec()),
        flags: rdonly(),
    });
    split_link_path_into(b"./", rdonly(), &mut parts).unwrap();
    check_queue(&parts, &[("x", rdonly())]);
}

#[test]
fn test_path_split() {
    for path in ["/", "//", "..", "a/.."].iter() {
        assert!(path_split(path.as_bytes()).is_none());
    }

    let same = |p: &str, parent: Option<&str>, fname: &str| {
        let (d, f) = path_split(p.as_bytes()).unwrap();
        assert_eq!(d.as_deref(), parent.map(|s| s.as_bytes()));
        assert_eq!(f, fname.as_bytes().to_vec());
    };

    same("a", None, "a");
    same("a/", None, "a");
    same("a//", None, "a");
    same("a/b", Some("a/"), "b");
    same("a/b/", Some("a/"), "b");
    same("a/b//", Some("a/"), "b");
    same("/a//b//", Some("/a//"), "b");
    same("/a", Some("/"), "a");
    same("/a/.", Some("/a/"), ".");
    same("/a/b/./", Some("/a/b/"), ".");
    same("a/b/c", Some("a/b/"), "c");
    same("a/b/c//", Some("a/b/"), "c");
}

#[test]
fn test_strip_trailing_slashes() {
    let strip = |p: &str| strip_trailing_slashes(p.as_bytes());
    assert_eq!(strip(""), b"".to_vec());
    assert_eq!(strip("/"), b"".to_vec());
    assert_eq!(strip("//"), b"".to_vec());
    assert_eq!(strip("a"), b"a".to_vec());
    assert_eq!(strip("a/"), b"a".to_vec());
    assert_eq!(strip("a//"), b"a".to_vec());
    assert_eq!(strip("/a/b"), b"/a/b".to_vec());
    assert_eq!(strip("/a/b/"), b"/a/b".to_vec());
    assert_eq!(strip("/a/b//"), b"/a/b".to_vec());
}
