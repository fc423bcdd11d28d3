use ferry::file_info::EntryKind;
use ferry::manager::{Dispatch, JobKind, TransferManager};
use ferry::dir_info::DirInfo;
use ferry::performance::Performance;
use ferry::traversal::{WalkEntry, WalkFailure};
use ferry::errors::IoErrorKind;

fn file(path: &str, name: &str, depth: usize, size: u64) -> WalkEntry {
    WalkEntry { path: path.to_string(), name: name.to_string(), depth, kind: EntryKind::File, size }
}

#[test]
fn scheduling_bound_and_completion() {
    let mut m = TransferManager::new("s".to_string(), "d".to_string(), Performance::Slow, true)
        .ok()
        .unwrap();
    assert!(!m.is_complete(false));
    let root = WalkEntry { path: "s".to_string(), name: "s".to_string(), depth: 0, kind: EntryKind::Dir, size: 0 };
    assert!(matches!(m.dispatch(Some(Ok(root))), Dispatch::CreateDir(_)));
    let mut ids = Vec::new();
    match m.dispatch(Some(Ok(file("s/big", "big", 1, 1 << 20)))) {
        Dispatch::Spawn(job) => {
            assert_eq!(job.kind, JobKind::Split);
            ids.push(job.id);
        }
        _ => panic!(),
    }
    match m.dispatch(Some(Ok(file("s/small", "small", 1, 100)))) {
        Dispatch::Spawn(job) => {
            assert_eq!(job.kind, JobKind::Copy);
            ids.push(job.id);
        }
        _ => panic!(),
    }
    assert_eq!(ids, vec![0, 1]);
    // two workers at the slow setting: no room for a third
    assert!(!m.wants_worker());
    m.completed_worker(0);
    assert!(m.wants_worker());
    let failure = WalkFailure { loop_ancestor: None, kind: Some(IoErrorKind::PermissionDenied), path: Some("/s/x".to_string()) };
    assert!(matches!(m.dispatch(Some(Err(failure))), Dispatch::Skipped));
    assert_eq!(m.notifications().len(), 1);
    let n = m.notifications().get(0);
    assert_eq!(n.title(), "title_read_perm_err");
    assert_eq!(n.body(), "read_perm_err");
    assert_eq!(*n.action(), ferry::notifications::NotificationAction::NoAction);
    assert!(matches!(m.dispatch(None), Dispatch::Finished));
    m.mut_traversal().finish_count(Some(DirInfo::new(3, 0)), false);
    assert!(!m.is_complete(true));
    m.completed_worker(1);
    assert!(m.is_complete(true));
    assert_eq!(m.update_progress(5), None);
}
