use ferry::dst_path::DstPath;
use ferry::file_info::EntryKind;
use ferry::manager::{Dispatch, JobKind, TransferManager};
use ferry::paths::{copy_name, fresh_random_copy_name, keep_entry, label, parent_and_current, random_copy_name};
use ferry::performance::Performance;
use ferry::traversal::WalkEntry;
use std::path::PathBuf;

fn join(root: &str, comps: &[String]) -> PathBuf {
    let mut p = PathBuf::from(root);
    for c in comps {
        p.push(c);
    }
    p
}

#[test]
fn dst_path_test() {
    let mut dst_path = DstPath::new("../testing/dst_path".to_string()).unwrap();
    for entry in walkdir::WalkDir::new("../testing/") {
        match entry {
            Ok(entry) => {
                let name = entry.file_name().to_string_lossy().to_string();
                let comps = dst_path.build_dst(entry.depth(), name);
                println!("{} -> {}", entry.path().display(), join(dst_path.root(), &comps).display());
            }
            Err(err) => println!("{:?}", err),
        }
    }
}

fn entry(path: &str, name: &str, depth: usize, kind: EntryKind, size: u64) -> WalkEntry {
    WalkEntry { path: path.to_string(), name: name.to_string(), depth, kind, size }
}

#[test]
fn traversal_and_builder() {
    let mut m = TransferManager::new("src/a".to_string(), "dst".to_string(), Performance::Fast, false)
        .ok()
        .unwrap();
    let walk = vec![
        entry("src/a", "a", 0, EntryKind::Dir, 0),
        entry("src/a/b.txt", "b.txt", 1, EntryKind::File, 10),
        entry("src/a/c", "c", 1, EntryKind::Dir, 0),
        entry("src/a/c/d.txt", "d.txt", 2, EntryKind::File, 20),
    ];
    let mut dirs = Vec::new();
    let mut files = Vec::new();
    for e in walk {
        assert!(m.wants_worker());
        match m.dispatch(Some(Ok(e))) {
            Dispatch::CreateDir(c) => dirs.push(join("dst", &c)),
            Dispatch::Spawn(job) => {
                assert_eq!(job.kind, JobKind::Copy);
                files.push(join("dst", &job.dst));
            }
            _ => panic!("unexpected dispatch"),
        }
    }
    assert_eq!(dirs, vec![PathBuf::from("dst/a"), PathBuf::from("dst/a/c")]);
    assert_eq!(files, vec![PathBuf::from("dst/a/b.txt"), PathBuf::from("dst/a/c/d.txt")]);
}

#[test]
fn builder_goes_back_up() {
    let mut b = DstPath::new("out".to_string()).unwrap();
    assert_eq!(b.build_dst(0, "r".to_string()), vec!["r".to_string()]);
    assert_eq!(b.build_dst(1, "x".to_string()), vec!["r", "x"]);
    assert_eq!(b.build_dst(2, "y".to_string()), vec!["r", "x", "y"]);
    assert_eq!(b.build_dst(3, "z".to_string()), vec!["r", "x", "y", "z"]);
    assert_eq!(b.build_dst(1, "w".to_string()), vec!["r", "w"]);
    assert_eq!(b.build_dst(1, "v".to_string()), vec!["r", "v"]);
    assert_eq!(b.components(), vec!["r", "v"]);
}

#[test]
fn labels() {
    assert_eq!(parent_and_current("/home/user/file.txt"), Some("user/file.txt".to_string()));
    assert_eq!(parent_and_current("file.txt"), Some("file.txt".to_string()));
    assert_eq!(parent_and_current("/"), Some("/home".to_string()));
    assert_eq!(label("/a/b/"), "a/b");
    assert!(keep_entry("notes"));
    assert!(!keep_entry(".git"));
}

#[test]
fn copy_names() {
    assert_eq!(copy_name("file.txt", 0), "file_copy.txt");
    assert_eq!(copy_name("file.tar.gz", 3), "file_copy 3.tar.gz");
    assert_eq!(copy_name("README", 12), "README_copy 12");
    assert_eq!(random_copy_name("a.b", "XyZ12345"), "a_copy_XyZ12345.b");
    let r = fresh_random_copy_name("photo.jpg");
    assert_eq!(r.len(), "photo_copy_".len() + 8 + ".jpg".len());
    assert!(r.starts_with("photo_copy_") && r.ends_with(".jpg"));
    assert!(r["photo_copy_".len()..r.len() - 4].chars().all(|c| c.is_ascii_alphanumeric()));
}

#[test]
fn destinations_of_a_walk() {
    let walk = vec![
        (0usize, "a".to_string()),
        (1, "b.txt".to_string()),
        (1, "c".to_string()),
        (2, "d.txt".to_string()),
        (1, "e".to_string()),
    ];
    let d = ferry::dst_path::destinations("dst".to_string(), &walk);
    let joined: Vec<PathBuf> = d.iter().map(|c| join("dst", c)).collect();
    assert_eq!(
        joined,
        vec![
            PathBuf::from("dst/a"),
            PathBuf::from("dst/a/b.txt"),
            PathBuf::from("dst/a/c"),
            PathBuf::from("dst/a/c/d.txt"),
            PathBuf::from("dst/a/e"),
        ]
    );
}
