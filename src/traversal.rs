use vstd::prelude::*;
use crate::dir_info::{DirInfo, DirStatus};
use crate::errors::{io_errno_matches, opt_string_view, IoErrorKind, PropErrno};
use crate::file_info::EntryKind;
use crate::paths::spec_label;

verus! {

/// An entry found by a walk of the source tree.
pub struct WalkEntry {
    pub path: String,
    pub name: String,
    pub depth: usize,
    pub kind: EntryKind,
    pub size: u64,
}

/// Why a step of a walk failed: a loop back to an ancestor, or an I/O
/// failure (where its kind is known) on a path (where it is known).
pub struct WalkFailure {
    pub loop_ancestor: Option<String>,
    pub kind: Option<IoErrorKind>,
    pub path: Option<String>,
}

/// The error a failed walk step is reported as.
pub open spec fn walk_errno_matches(f: WalkFailure, r: PropErrno) -> bool {
    match f.loop_ancestor {
        Some(a) => (r matches PropErrno::LoopVal(s) && s@ == spec_label(a@)),
        None => match f.kind {
            Some(k) => io_errno_matches(k, opt_string_view(f.path), r),
            None => r matches PropErrno::Unknown,
        },
    }
}

/// The bookkeeping of a lazy walk of the source tree: how many entries it
/// yielded, whether it ran out, and where the background count of the tree
/// stands. The walk itself is driven by the caller, one step at a time.
pub struct DirTraversal {
    status: DirStatus,
    count: u128,
    exhausted: bool,
}

impl DirTraversal {
    pub closed spec fn spec_status(&self) -> DirStatus {
        self.status
    }

    pub closed spec fn spec_count(&self) -> u128 {
        self.count
    }

    pub closed spec fn spec_exhausted(&self) -> bool {
        self.exhausted
    }

    /// Entries the count found and the walk has not yielded yet (none where
    /// the walk yielded more), once the count is done.
    pub open spec fn spec_remaining(&self) -> Option<u128> {
        match self.spec_status() {
            DirStatus::Done(info) => Some(
                if info.spec_items() >= self.spec_count() {
                    (info.spec_items() - self.spec_count()) as u128
                } else {
                    0
                },
            ),
            _ => None,
        }
    }

    /// A walk that has not started, with its background count running.
    pub fn new() -> (r: DirTraversal)
        ensures
            r.spec_status() == DirStatus::Calculating,
            r.spec_count() == 0,
            !r.spec_exhausted(),
    {
        let mut status = DirStatus::Idle;
        status.start();
        DirTraversal { status, count: 0, exhausted: false }
    }

    pub fn status(&self) -> (r: &DirStatus)
        ensures
            *r == self.spec_status(),
    {
        &self.status
    }

    pub fn mut_status(&mut self) -> (r: &mut DirStatus)
        ensures
            *r == old(self).spec_status(),
            final(self).spec_status() == *final(r),
            final(self).spec_count() == old(self).spec_count(),
            final(self).spec_exhausted() == old(self).spec_exhausted(),
    {
        &mut self.status
    }

    /// Whether the count is over: not running, or running with its task
    /// finished.
    pub fn is_done_calculating(&self, task_finished: bool) -> (r: bool)
        ensures
            r == (self.spec_status() != DirStatus::Calculating || task_finished),
    {
        match self.status {
            DirStatus::Calculating => task_finished,
            _ => true,
        }
    }

    pub fn get_count(&self) -> (r: u128)
        ensures
            r == self.spec_count(),
    {
        self.count
    }

    pub fn remaining(&self) -> (r: Option<u128>)
        ensures
            r == self.spec_remaining(),
    {
        match &self.status {
            DirStatus::Done(info) => Some(info.items().saturating_sub(self.count)),
            _ => None,
        }
    }

    /// Whether the walk is over: the count is over, and the walk either ran
    /// out of entries or yielded every entry the count found.
    pub open spec fn spec_is_complete(&self, task_finished: bool) -> bool {
        &&& (self.spec_status() != DirStatus::Calculating || task_finished)
        &&& (self.spec_exhausted() || self.spec_remaining() == Some(0u128))
    }

    pub fn is_complete(&self, task_finished: bool) -> (r: bool)
        ensures
            r == self.spec_is_complete(task_finished),
    {
        self.is_done_calculating(task_finished) && (self.exhausted || match self.remaining() {
            Some(n) => n == 0,
            None => false,
        })
    }

    /// Whether the walk ran out of entries.
    pub fn is_exhausted(&self) -> (r: bool)
        ensures
            r == self.spec_exhausted(),
    {
        self.exhausted
    }

    /// Takes the walk's next step: an entry is counted and handed on, a
    /// failure becomes an error, and the end of the walk is remembered.
    pub fn get_next(&mut self, step: Option<Result<WalkEntry, WalkFailure>>) -> (r: Option<
        Result<WalkEntry, PropErrno>,
    >)
        ensures
            final(self).spec_status() == old(self).spec_status(),
            match step {
                None => r is None && final(self).spec_exhausted() && final(self).spec_count()
                    == old(self).spec_count(),
                Some(Ok(e)) => r == Some(Ok::<WalkEntry, PropErrno>(e))
                    && final(self).spec_count() == (if old(self).spec_count() == u128::MAX {
                    u128::MAX
                } else {
                    (old(self).spec_count() + 1) as u128
                }) && final(self).spec_exhausted() == old(self).spec_exhausted(),
                Some(Err(f)) => (r matches Some(Err(e)) && walk_errno_matches(f, e))
                    && final(self).spec_count() == old(self).spec_count()
                    && final(self).spec_exhausted() == old(self).spec_exhausted(),
            },
    {
        match step {
            None => {
                self.exhausted = true;
                None
            },
            Some(Ok(entry)) => {
                self.count = self.count.saturating_add(1);
                Some(Ok(entry))
            },
            Some(Err(f)) => {
                let loop_ancestor = match &f.loop_ancestor {
                    Some(a) => Some(a.as_str()),
                    None => None,
                };
                let path = match &f.path {
                    Some(p) => Some(p.as_str()),
                    None => None,
                };
                Some(Err(PropErrno::from_walk_error(loop_ancestor, f.kind, path)))
            },
        }
    }

    /// Records how the background count ended.
    pub fn finish_count(&mut self, info: Option<DirInfo>, cancelled: bool)
        ensures
            final(self).spec_count() == old(self).spec_count(),
            final(self).spec_exhausted() == old(self).spec_exhausted(),
            old(self).spec_status() == DirStatus::Calculating ==> final(self).spec_status() == match info {
                Some(i) => DirStatus::Done(i),
                None => if cancelled {
                    DirStatus::Aborted
                } else {
                    DirStatus::Error
                },
            },
            old(self).spec_status() != DirStatus::Calculating ==> final(self).spec_status() == old(self).spec_status(),
    {
        let outcome = match info {
            Some(i) => crate::dir_info::CountOutcome::Finished(i),
            None => if cancelled {
                crate::dir_info::CountOutcome::Cancelled
            } else {
                crate::dir_info::CountOutcome::Failed
            },
        };
        self.status.calculate(outcome);
    }

    /// Stops the background count, as when the walk is dropped.
    pub fn cancel(&mut self)
        ensures
            old(self).spec_status() == DirStatus::Calculating ==> final(self).spec_status() == DirStatus::Idle,
            old(self).spec_status() != DirStatus::Calculating ==> final(self).spec_status() == old(self).spec_status(),
            final(self).spec_count() == old(self).spec_count(),
            final(self).spec_exhausted() == old(self).spec_exhausted(),
    {
        self.status.cancel();
    }
}

} // verus!
