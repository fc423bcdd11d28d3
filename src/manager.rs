use vstd::prelude::*;
use crate::dst_path::{step_stack, DstPath};
use crate::errors::PropErrno;
use crate::file_info::EntryKind;
use crate::notifications::{Notification, NotificationManager};
use crate::parting::MIN_SPLIT_SIZE;
use crate::paths::{label, spec_label, UNKNOWN_LOCATION};
use crate::performance::{spec_max_workers, Performance};
use crate::progress::{spec_update, Progress};
use crate::traversal::{walk_errno_matches, DirTraversal, WalkEntry, WalkFailure};

verus! {

/// How a file is transferred.
#[derive(Debug, Clone, Copy, PartialEq, Eq, Structural)]
pub enum JobKind {
    /// Copied whole.
    Copy,
    /// Split into compressed parts.
    Split,
}

/// Whether a file of `size` bytes is split: it must reach the split size, and
/// compression must be on.
pub open spec fn spec_job_kind(size: u64, compression: bool) -> JobKind {
    if size >= MIN_SPLIT_SIZE && compression {
        JobKind::Split
    } else {
        JobKind::Copy
    }
}

/// A transfer handed to a worker.
pub struct Job {
    /// The worker slot that runs it.
    pub id: u8,
    pub kind: JobKind,
    pub src: String,
    /// The destination's components below the destination root.
    pub dst: Vec<String>,
    pub size: u64,
}

/// What the manager does with the walk's next step.
pub enum Dispatch {
    /// The walk is over.
    Finished,
    /// The step failed; a notification was queued.
    Skipped,
    /// A directory: its destination (components below the root) is to be
    /// created.
    CreateDir(Vec<String>),
    /// A file: a worker is to run the job.
    Spawn(Job),
}

/// Owns the walk, the destination builder, the progress and the worker
/// slots, and decides what each entry of the walk becomes.
pub struct TransferManager {
    dst: DstPath,
    progress: Progress,
    slots: Vec<bool>,
    traversal: DirTraversal,
    notifications: NotificationManager,
    src: String,
    perf: Performance,
    compression: bool,
}

impl TransferManager {
    pub closed spec fn spec_slots(&self) -> Seq<bool> {
        self.slots@
    }

    pub closed spec fn spec_perf(&self) -> Performance {
        self.perf
    }

    pub closed spec fn spec_compression(&self) -> bool {
        self.compression
    }

    pub closed spec fn spec_src(&self) -> Seq<char> {
        self.src@
    }

    pub closed spec fn spec_dst(&self) -> DstPath {
        self.dst
    }

    pub closed spec fn spec_progress(&self) -> Progress {
        self.progress
    }

    pub closed spec fn spec_traversal(&self) -> DirTraversal {
        self.traversal
    }

    pub closed spec fn spec_notifications(&self) -> NotificationManager {
        self.notifications
    }

    /// One slot per worker allowed in flight.
    pub open spec fn wf(&self) -> bool {
        &&& self.spec_slots().len() == spec_max_workers(self.spec_perf())
        &&& self.spec_notifications().wf()
    }

    pub open spec fn has_free_slot(&self) -> bool {
        exists|i: int| 0 <= i < self.spec_slots().len() && !self.spec_slots()[i]
    }

    pub open spec fn is_idle(&self) -> bool {
        forall|i: int| 0 <= i < self.spec_slots().len() ==> !self.spec_slots()[i]
    }

    /// A manager for copying `src` into the destination root `dst`, with no
    /// worker in flight and a progress whose total is not known.
    pub fn new(src: String, dst: String, perf: Performance, compression: bool) -> (r: Result<
        TransferManager,
        PropErrno,
    >)
        ensures
            r matches Ok(m) && m.wf() && m.is_idle() && m.spec_src() == src@
                && m.spec_dst().spec_root() == dst@ && m.spec_dst().spec_components()
                == Seq::<Seq<char>>::empty() && m.spec_perf() == perf && m.spec_compression()
                == compression && m.spec_progress().spec_total() is None
                && m.spec_progress().spec_current() == 0,
    {
        let builder = match DstPath::new(dst) {
            Some(b) => b,
            None => {
                return Err(PropErrno::PathNormalizeVal(label(src.as_str())));
            },
        };
        let mut slots: Vec<bool> = Vec::new();
        let n = perf.max_workers();
        let mut i: usize = 0;
        while i < n
            invariant
                i <= n,
                slots@.len() == i,
                forall|j: int| 0 <= j < i ==> !slots@[j],
            decreases n - i,
        {
            slots.push(false);
            i = i + 1;
        }
        Ok(TransferManager {
            dst: builder,
            progress: Progress::new_no_total(),
            slots,
            traversal: DirTraversal::new(),
            notifications: NotificationManager::new(),
            src,
            perf,
            compression,
        })
    }

    pub fn traversal(&self) -> (r: &DirTraversal)
        ensures
            *r == self.spec_traversal(),
    {
        &self.traversal
    }

    pub fn mut_traversal(&mut self) -> (r: &mut DirTraversal)
        ensures
            *r == old(self).spec_traversal(),
            final(self).spec_traversal() == *final(r),
            final(self).spec_slots() == old(self).spec_slots(),
            final(self).spec_perf() == old(self).spec_perf(),
            final(self).spec_notifications() == old(self).spec_notifications(),
            final(self).spec_dst() == old(self).spec_dst(),
            final(self).spec_progress() == old(self).spec_progress(),
            final(self).spec_compression() == old(self).spec_compression(),
    {
        &mut self.traversal
    }

    pub fn notifications(&self) -> (r: &NotificationManager)
        ensures
            *r == self.spec_notifications(),
    {
        &self.notifications
    }

    /// Queues a notification for the user.
    pub fn notify(&mut self, n: Notification)
        requires
            old(self).wf(),
        ensures
            final(self).wf(),
            final(self).spec_notifications().spec_notifications() == (if old(self).spec_notifications().spec_notifications().len() >= 25 {
                old(self).spec_notifications().spec_notifications().drop_first()
            } else {
                old(self).spec_notifications().spec_notifications()
            }).push(n),
            final(self).spec_slots() == old(self).spec_slots(),
            final(self).spec_traversal() == old(self).spec_traversal(),
            final(self).spec_dst() == old(self).spec_dst(),
            final(self).spec_perf() == old(self).spec_perf(),
    {
        self.notifications.push(n);
    }

    /// Whether a worker slot is free.
    pub fn wants_worker(&self) -> (r: bool)
        ensures
            r == self.has_free_slot(),
    {
        self.free_slot().is_some()
    }

    fn free_slot(&self) -> (r: Option<usize>)
        ensures
            match r {
                Some(i) => i < self.spec_slots().len() && !self.spec_slots()[i as int],
                None => !self.has_free_slot(),
            },
    {
        let mut i: usize = 0;
        while i < self.slots.len()
            invariant
                i <= self.slots@.len(),
                forall|j: int| 0 <= j < i ==> self.slots@[j],
            decreases self.slots@.len() - i,
        {
            if !self.slots[i] {
                return Some(i);
            }
            i = i + 1;
        }
        None
    }

    /// Adds processed bytes to the progress; gives the new percentage to show
    /// where it changed.
    pub fn update_progress(&mut self, processed: u64) -> (r: Option<u8>)
        ensures
            spec_update(old(self).spec_progress(), processed, final(self).spec_progress(), r),
            final(self).spec_slots() == old(self).spec_slots(),
            final(self).spec_perf() == old(self).spec_perf(),
            final(self).spec_traversal() == old(self).spec_traversal(),
            final(self).spec_notifications() == old(self).spec_notifications(),
            final(self).spec_dst() == old(self).spec_dst(),
            final(self).spec_compression() == old(self).spec_compression(),
    {
        self.progress.update(processed)
    }

    /// Takes the walk's next step: the end of the walk finishes dispatch; a
    /// failed step is reported and skipped; a directory gets its destination
    /// (to be created); a file gets its destination and a free worker slot,
    /// and is split or copied by its size and the compression setting.
    pub fn dispatch(&mut self, step: Option<Result<WalkEntry, WalkFailure>>) -> (r: Dispatch)
        requires
            old(self).wf(),
            old(self).has_free_slot(),
        ensures
            final(self).wf(),
            final(self).spec_perf() == old(self).spec_perf(),
            final(self).spec_compression() == old(self).spec_compression(),
            match step {
                None => r is Finished && final(self).spec_slots() == old(self).spec_slots()
                    && final(self).spec_dst() == old(self).spec_dst(),
                Some(Err(f)) => {
                    &&& r is Skipped
                    &&& final(self).spec_slots() == old(self).spec_slots()
                    &&& final(self).spec_dst() == old(self).spec_dst()
                    &&& final(self).spec_notifications().spec_decision_entry() == old(self).spec_notifications().spec_decision_entry()
                    &&& exists|e: PropErrno, n: Notification|
                        walk_errno_matches(f, e) && n.is_error_report(
                            e,
                            spec_label("[unknown_path]"@),
                            spec_label("[unknown_path]"@),
                        ) && final(self).spec_notifications().spec_notifications() == (if old(self).spec_notifications().spec_notifications().len() >= 25 {
                            old(self).spec_notifications().spec_notifications().drop_first()
                        } else {
                            old(self).spec_notifications().spec_notifications()
                        }).push(n)
                },
                Some(Ok(e)) => {
                    &&& final(self).spec_dst().spec_components() == step_stack(
                        old(self).spec_dst().spec_components(),
                        old(self).spec_dst().spec_current_depth(),
                        e.depth as nat,
                        e.name@,
                    )
                    &&& final(self).spec_dst().spec_root() == old(self).spec_dst().spec_root()
                    &&& if e.kind == EntryKind::Dir {
                        &&& final(self).spec_slots() == old(self).spec_slots()
                        &&& r matches Dispatch::CreateDir(c) && c@.len()
                            == final(self).spec_dst().spec_components().len() && forall|i: int|
                            0 <= i < c@.len() ==> #[trigger] c@[i]@ == final(self).spec_dst().spec_components()[i]
                    } else {
                        r matches Dispatch::Spawn(job) && {
                            &&& job.id < old(self).spec_slots().len()
                            &&& !old(self).spec_slots()[job.id as int]
                            &&& final(self).spec_slots() == old(self).spec_slots().update(
                                job.id as int,
                                true,
                            )
                            &&& job.kind == spec_job_kind(e.size, old(self).spec_compression())
                            &&& job.src == e.path
                            &&& job.size == e.size
                            &&& job.dst@.len() == final(self).spec_dst().spec_components().len()
                            &&& forall|i: int|
                                0 <= i < job.dst@.len() ==> #[trigger] job.dst@[i]@ == final(self).spec_dst().spec_components()[i]
                        }
                    }
                },
            },
    {
        match self.traversal.get_next(step) {
            None => Dispatch::Finished,
            Some(Err(e)) => {
                let ghost g = e;
                let n = Notification::new_from_properrno(e, UNKNOWN_LOCATION, UNKNOWN_LOCATION);
                let ghost gn = n;
                proof {
                    reveal_strlit("[unknown_path]");
                }
                self.notifications.push(n);
                assert(gn.is_error_report(g, spec_label("[unknown_path]"@), spec_label("[unknown_path]"@)));
                Dispatch::Skipped
            },
            Some(Ok(entry)) => {
                let comps = self.dst.build_dst(entry.depth, entry.name);
                if let EntryKind::Dir = entry.kind {
                    return Dispatch::CreateDir(comps);
                }
                let id = match self.free_slot() {
                    Some(i) => i,
                    None => {
                        return Dispatch::Finished;
                    },
                };
                self.slots.set(id, true);
                let kind = if entry.size >= MIN_SPLIT_SIZE as u64 && self.compression {
                    JobKind::Split
                } else {
                    JobKind::Copy
                };
                Dispatch::Spawn(Job { id: id as u8, kind, src: entry.path, dst: comps, size: entry.size })
            },
        }
    }

    /// A worker finished: its slot is free again.
    pub fn completed_worker(&mut self, id: u8)
        requires
            old(self).wf(),
        ensures
            final(self).wf(),
            final(self).spec_slots() == if (id as int) < old(self).spec_slots().len() {
                old(self).spec_slots().update(id as int, false)
            } else {
                old(self).spec_slots()
            },
            final(self).spec_traversal() == old(self).spec_traversal(),
            final(self).spec_dst() == old(self).spec_dst(),
            final(self).spec_perf() == old(self).spec_perf(),
    {
        if (id as usize) < self.slots.len() {
            self.slots.set(id as usize, false);
        }
    }

    /// The transfer is complete when the walk is complete and no worker is in
    /// flight.
    pub fn is_complete(&self, count_task_finished: bool) -> (r: bool)
        ensures
            r == (self.spec_traversal().spec_is_complete(count_task_finished) && self.is_idle()),
    {
        if !self.traversal.is_complete(count_task_finished) {
            return false;
        }
        let mut i: usize = 0;
        while i < self.slots.len()
            invariant
                i <= self.slots@.len(),
                forall|j: int| 0 <= j < i ==> !self.slots@[j],
            decreases self.slots@.len() - i,
        {
            if self.slots[i] {
                assert(self.spec_slots()[i as int]);
                return false;
            }
            i = i + 1;
        }
        true
    }
}

} // verus!
