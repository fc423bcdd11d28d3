use ferry::dir_info::{CountOutcome, DirInfo, DirStatus};
use ferry::errno::{Errno, ErrnoParams};
use ferry::errors::{IoErrorKind, PropErrno, PropErrnoParams};
use ferry::copier::{CopyStep, FileCopier};
use ferry::notifications::{
    Decision, DecisionEntry, Notification, NotificationKind, NotificationManager, UserDecision,
};
use ferry::progress::{Progress, ProgressKind};
use ferry::traversal::{DirTraversal, WalkFailure};
use ferry::worker::{Behold, TwoWayStream, WorkAction};

#[test]
fn dir_info_monoid() {
    let a = DirInfo::new(1, 10);
    let b = DirInfo::new(2, 20);
    let c = DirInfo::new(3, 30);
    assert_eq!(a.add(b), b.add(a));
    assert_eq!(a.add(b).add(c), a.add(b.add(c)));
    assert_eq!(a.add(DirInfo::new(0, 0)), a);
    assert_eq!(*a.add(b).items(), 3);
    assert_eq!(*a.add(b).size(), 30);
    let big = DirInfo::new(u128::MAX, u128::MAX - 1);
    assert_eq!(big.add(c), DirInfo::new(u128::MAX, u128::MAX));
    let mut d = a;
    d.add_assign(c);
    assert_eq!(d, DirInfo::new(4, 40));
}

#[test]
fn dir_status_machine() {
    let mut s = DirStatus::Idle;
    s.start();
    assert!(s.is_calculating());
    assert!(!s.is_done(false));
    assert!(s.is_done(true));
    s.calculate(CountOutcome::Finished(DirInfo::new(4, 5)));
    assert_eq!(s.get_info(), Some(&DirInfo::new(4, 5)));
    s.calculate(CountOutcome::Failed);
    assert_eq!(s, DirStatus::Done(DirInfo::new(4, 5)));
    let mut t = DirStatus::Calculating;
    t.calculate(CountOutcome::Cancelled);
    assert_eq!(t, DirStatus::Aborted);
    let mut u = DirStatus::Calculating;
    u.cancel();
    assert_eq!(u, DirStatus::Idle);
}

#[test]
fn traversal_counts() {
    let mut t = DirTraversal::new();
    assert!(!t.is_complete(false));
    let r = t.get_next(Some(Err(WalkFailure {
        loop_ancestor: Some("/x/y".to_string()),
        kind: None,
        path: None,
    })));
    assert!(matches!(r, Some(Err(PropErrno::LoopVal(ref s))) if s == "x/y"));
    assert_eq!(t.get_count(), 0);
    t.finish_count(Some(DirInfo::new(0, 0)), false);
    assert_eq!(t.remaining(), Some(0));
    assert!(t.is_complete(false));
    assert!(t.get_next(None).is_none());
    assert!(t.is_exhausted());
}

#[test]
fn progress_percentages() {
    let mut p = Progress::new(200);
    assert_eq!(p.update(0), None);
    assert_eq!(p.update(1), None);
    assert_eq!(p.update(1), Some(1));
    assert_eq!(p.update(1), None);
    assert_eq!(p.update(97), Some(50));
    assert_eq!(p.update(1000), Some(100));
    assert_eq!(p.update(5), None);
    assert_eq!(p.current(), 1105);
    let mut q = Progress::new_no_total();
    assert_eq!(q.update(10), None);
    assert_eq!(q.current(), 10);
    q.set_total(20);
    assert_eq!(q.update(1), Some(55));
    let mut r = Progress::new(u128::MAX);
    assert_eq!(r.update(u64::MAX), None);
    let mut last = 0u8;
    let mut s = Progress::new(12_345);
    for _ in 0..200 {
        let cur = s.current();
        if let Some(pct) = s.update(97) {
            assert!(pct > last);
            last = pct;
        }
        assert!(s.current() >= cur);
    }
    assert_eq!(last, 100);
    let _ = ProgressKind::Deterministic;
}

#[test]
fn io_errors() {
    let e = PropErrno::from_io_error(IoErrorKind::NotFound, Some("/a/b/c.txt"));
    assert_eq!(e, PropErrno::PathNotFoundVal("b/c.txt".to_string()));
    assert_eq!(PropErrno::from_io_error(IoErrorKind::NotFound, None), PropErrno::PathNotFound);
    assert_eq!(
        PropErrno::from_io_error(IoErrorKind::UnexpectedEof, Some("/x/y")),
        PropErrno::CorruptedFileVal("x/y".to_string())
    );
    assert_eq!(PropErrno::from_io_error(IoErrorKind::InvalidData, None), PropErrno::CorruptedFile);
    assert_eq!(PropErrno::from_io_error(IoErrorKind::PermissionDenied, None), PropErrno::ReadPerm);
    assert_eq!(
        PropErrno::from_io_error(IoErrorKind::AlreadyExists, None),
        PropErrno::EntityCreation("[unknown_path]".to_string())
    );
    assert_eq!(PropErrno::from_io_error(IoErrorKind::WriteZero, Some("/p")), PropErrno::Write);
    assert_eq!(PropErrno::from_io_error(IoErrorKind::WouldBlock, None), PropErrno::Interrupted);
    assert_eq!(PropErrno::from_io_error(IoErrorKind::Interrupted, None), PropErrno::Interrupted);
    assert_eq!(
        PropErrno::from_io_error(IoErrorKind::Unsupported, None),
        PropErrno::PlatformNotSupported
    );
    assert_eq!(
        PropErrno::from_io_error(IoErrorKind::TimedOut, Some("/q/r")),
        PropErrno::TimedOutVal("q/r".to_string())
    );
    assert_eq!(PropErrno::from_io_error(IoErrorKind::OutOfMemory, None), PropErrno::NoMem);
    assert_eq!(PropErrno::from_io_error(IoErrorKind::Other, None), PropErrno::Unknown);
    assert_eq!(PropErrno::default(), PropErrno::Unknown);
}

#[test]
fn user_errors() {
    let mut params = PropErrnoParams::new_with_src_and_dst("a/src".to_string(), "b/dst".to_string());
    let e = Errno::from_prop_errno(PropErrno::Copy, &mut params);
    assert_eq!(e.code(), "copy_err");
    assert!(!e.is_fixable());
    assert_eq!(e.params(), ErrnoParams::FromTo("a/src".to_string(), "b/dst".to_string()));
    let e = Errno::from_prop_errno(PropErrno::Write, &mut params);
    assert_eq!(e.params(), ErrnoParams::Base("[unknown_path]".to_string()));
    let mut params = PropErrnoParams::new();
    params.set_src("s".to_string()).set_dst("d".to_string());
    let e = Errno::from_prop_errno(PropErrno::ExpectedDstDir, &mut params);
    assert_eq!(e.code(), "expected_dir_err");
    assert!(e.is_fixable());
    assert_eq!(e.params(), ErrnoParams::Base("d".to_string()));
    assert_eq!(params.src(), "s");
    let e = Errno::from_prop_errno(PropErrno::PasswordLengthVal("k".to_string(), 4, 9), &mut params);
    assert_eq!(e.params(), ErrnoParams::PasswordLength("k".to_string(), 4, 9));
    let e = Errno::from_prop_errno(PropErrno::TimedOut, &mut params);
    assert_eq!(e.code(), "unknown_err");
    let e = Errno::from_prop_errno(PropErrno::NoStorage, &mut params);
    assert_eq!(e.code(), "store_err");
    assert_eq!(Errno::default().code(), "unknown_err");
    assert_eq!(Errno::from_io(None).code(), "unknown_err");
    let copier = FileCopier::new("/in/a/f.bin".to_string(), "/out/b/f.bin".to_string());
    let e = copier.error_for(CopyStep::CreateDestination, IoErrorKind::NotFound);
    assert_eq!(e.code(), "path_not_found_err");
    assert_eq!(e.params(), ErrnoParams::Base("b/f.bin".to_string()));
    let e = copier.error_for(CopyStep::Stream, IoErrorKind::WriteZero);
    assert_eq!(e.params(), ErrnoParams::Base("b/f.bin".to_string()));
}

#[test]
fn notification_queue() {
    let mut m = NotificationManager::new();
    for i in 0..30u8 {
        let mut n = Notification::new(format!("t{}", i), "b".to_string(), NotificationKind::Info);
        n.set_id(i);
        m.push(n);
    }
    assert_eq!(m.len(), 25);
    assert_eq!(*m.get(0).id(), Some(5));
    assert_eq!(*m.get(24).id(), Some(29));
    let n = Notification::new_from_properrno(PropErrno::Read, "/a/b/c", "/d/e");
    assert_eq!(n.title(), "title_read_err");
    assert_eq!(n.body(), "read_err");
    assert_eq!(*n.kind(), NotificationKind::Error);
    m.clear();
    assert_eq!(m.len(), 0);
}

#[test]
fn decisions() {
    let mut m = NotificationManager::new();
    assert!(!m.has_user_decision());
    assert!(m.add_duplicate_decision_entry("x".to_string()).is_none());
    assert!(m.has_user_decision());
    // a second conflict while one waits comes back undecided
    assert!(m.add_modified_decision_entry("y".to_string()).is_some());
    match m.update_decision(UserDecision::SkipAll) {
        Some(DecisionEntry::Duplicate(p, d)) => {
            assert_eq!(p, "x");
            assert_eq!(d, Decision::Skip);
        }
        _ => panic!("expected the waiting entry"),
    }
    assert!(!m.has_user_decision());
    // later conflicts are decided without asking
    match m.add_modified_decision_entry("z".to_string()) {
        Some(DecisionEntry::Modified(p, d)) => {
            assert_eq!(p, "z");
            assert_eq!(d, Decision::Skip);
        }
        _ => panic!("expected a decided entry"),
    }
    assert!(m.update_decision(UserDecision::Replace).is_none());
    let e = DecisionEntry::Modified("q".to_string(), Decision::NeedInput);
    match e.update_decision(UserDecision::ReplaceAll) {
        DecisionEntry::Modified(_, d) => assert_eq!(d, Decision::Replace),
        _ => panic!(),
    }
}

#[test]
fn control_channel() {
    let mut ch: TwoWayStream<WorkAction> = TwoWayStream::new();
    assert_eq!(ch.capacity(), 3);
    assert!(ch.send(true, WorkAction::Abort(1)));
    assert!(ch.send(false, WorkAction::Abort(2)));
    assert!(ch.send(true, WorkAction::Abort(3)));
    assert!(!ch.send(true, WorkAction::Abort(4)));
    assert_eq!(ch.remaining(), 0);
    assert_eq!(ch.take(false), Some(WorkAction::Abort(1)));
    assert_eq!(ch.take(true), Some(WorkAction::Abort(2)));
    assert_eq!(ch.take(true), None);
    assert_eq!(ch.take(false), Some(WorkAction::Abort(3)));
    assert_eq!(ch.remaining(), 3);
    ch.finish();
    assert!(ch.is_finished());
    let mut b = Behold::new();
    assert!(!b.wake());
    assert!(!b.poll());
    assert!(b.wake());
    assert!(b.woken());
    assert!(b.poll());
}
