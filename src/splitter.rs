use vstd::prelude::*;
use crate::errors::PropErrno;
use crate::file_info::{spec_part_name, FileInfo};
use crate::part::{plan_split, Part};
use crate::parting::{part_end, part_start, spec_part_count, spec_part_size, PartingInfo};
use crate::performance::Performance;
use crate::worker::WorkAction;

verus! {

/// Where the task of one part stands.
#[derive(Debug, Clone, Copy, PartialEq, Eq, Structural)]
pub enum PartStatus {
    /// Not finished yet.
    Running,
    /// All its bytes were written.
    Finished,
    /// It stopped on an error (reported to the user).
    Failed,
    /// It was cancelled by an abort.
    Cancelled,
}

pub open spec fn is_over(s: PartStatus) -> bool {
    s != PartStatus::Running
}

/// The plan and the progress of splitting one file into parts that are
/// written by tasks of their own.
pub struct FileSplitter {
    worker_id: u8,
    parting_info: PartingInfo,
    parts: Vec<Part>,
    status: Vec<PartStatus>,
    aborted: bool,
}

impl FileSplitter {
    pub closed spec fn spec_worker_id(&self) -> u8 {
        self.worker_id
    }

    pub closed spec fn spec_parting_info(&self) -> PartingInfo {
        self.parting_info
    }

    pub closed spec fn spec_parts(&self) -> Seq<Part> {
        self.parts@
    }

    pub closed spec fn spec_status(&self) -> Seq<PartStatus> {
        self.status@
    }

    pub closed spec fn spec_aborted(&self) -> bool {
        self.aborted
    }

    /// One status per part of the plan.
    pub open spec fn wf(&self) -> bool {
        self.spec_status().len() == self.spec_parting_info().spec_count()
    }

    /// The split of `info` at `perf`: its plan, and one running task per part.
    pub fn new(worker_id: u8, info: &FileInfo, perf: Performance) -> (r: Result<FileSplitter, PropErrno>)
        ensures
            match r {
                Ok(s) => {
                    &&& s.wf()
                    &&& s.spec_worker_id() == worker_id
                    &&& !s.spec_aborted()
                    &&& s.spec_parting_info().spec_size() == spec_part_size(info.spec_size(), perf)
                    &&& s.spec_parting_info().spec_count() == spec_part_count(info.spec_size(), perf)
                    &&& s.spec_parts().len() == s.spec_parting_info().spec_count()
                    &&& forall|p: int| 0 <= p < s.spec_status().len() ==> #[trigger] s.spec_status()[p] == PartStatus::Running
                    &&& forall|p: int|
                        0 <= p < s.spec_parts().len() ==> {
                            let part = #[trigger] s.spec_parts()[p];
                            &&& part.wf()
                            &&& part.spec_start() == part_start(info.spec_size(), s.spec_parting_info().spec_size(), p)
                            &&& part.spec_end() == part_end(info.spec_size(), s.spec_parting_info().spec_size(), p)
                            &&& part.spec_dst_name() == spec_part_name(info.spec_name(), info.spec_compression(), p as nat)
                        }
                },
                Err(_) => spec_part_count(info.spec_size(), perf) > 0xffff,
            },
    {
        let parting_info = PartingInfo::calculate(*info.size(), perf);
        let parts = match plan_split(info, &parting_info) {
            Ok(p) => p,
            Err(e) => {
                return Err(e);
            },
        };
        let mut status: Vec<PartStatus> = Vec::new();
        let mut i: usize = 0;
        while i < parts.len()
            invariant
                i <= parts@.len(),
                status@.len() == i,
                forall|p: int| 0 <= p < i ==> #[trigger] status@[p] == PartStatus::Running,
            decreases parts@.len() - i,
        {
            status.push(PartStatus::Running);
            i = i + 1;
        }
        Ok(FileSplitter { worker_id, parting_info, parts, status, aborted: false })
    }

    pub fn parting_info(&self) -> (r: &PartingInfo)
        ensures
            *r == self.spec_parting_info(),
    {
        &self.parting_info
    }

    pub fn parts(&self) -> (r: &Vec<Part>)
        ensures
            r@ == self.spec_parts(),
    {
        &self.parts
    }

    /// Hands the parts over to the tasks that write them; the statuses stay.
    pub fn take_parts(&mut self) -> (r: Vec<Part>)
        requires
            old(self).wf(),
        ensures
            r@ == old(self).spec_parts(),
            final(self).wf(),
            final(self).spec_parts().len() == 0,
            final(self).spec_status() == old(self).spec_status(),
            final(self).spec_parting_info() == old(self).spec_parting_info(),
            final(self).spec_aborted() == old(self).spec_aborted(),
            final(self).spec_worker_id() == old(self).spec_worker_id(),
    {
        let mut parts: Vec<Part> = Vec::new();
        std::mem::swap(&mut parts, &mut self.parts);
        parts
    }

    pub fn worker_id(&self) -> (r: u8)
        ensures
            r == self.spec_worker_id(),
    {
        self.worker_id
    }

    /// Every part task is over: finished, failed or cancelled.
    pub fn is_complete(&self) -> (r: bool)
        ensures
            r == forall|p: int| 0 <= p < self.spec_status().len() ==> is_over(#[trigger] self.spec_status()[p]),
    {
        let mut i: usize = 0;
        while i < self.status.len()
            invariant
                i <= self.status@.len(),
                forall|p: int| 0 <= p < i ==> is_over(#[trigger] self.status@[p]),
            decreases self.status@.len() - i,
        {
            if let PartStatus::Running = self.status[i] {
                assert(!is_over(self.spec_status()[i as int]));
                return false;
            }
            i = i + 1;
        }
        true
    }

    /// Records how the task of part `index` ended; a part already over stays
    /// as it is.
    pub fn part_done(&mut self, index: usize, ok: bool)
        requires
            old(self).wf(),
        ensures
            final(self).wf(),
            final(self).spec_parts() == old(self).spec_parts(),
            final(self).spec_aborted() == old(self).spec_aborted(),
            final(self).spec_status() == if index < old(self).spec_status().len()
                && old(self).spec_status()[index as int] == PartStatus::Running {
                old(self).spec_status().update(
                    index as int,
                    if ok {
                        PartStatus::Finished
                    } else {
                        PartStatus::Failed
                    },
                )
            } else {
                old(self).spec_status()
            },
    {
        if index < self.status.len() {
            if let PartStatus::Running = self.status[index] {
                self.status.set(index, if ok { PartStatus::Finished } else { PartStatus::Failed });
            }
        }
    }

    /// Cancels every part task still running; the split is then complete.
    pub fn abort(&mut self)
        requires
            old(self).wf(),
        ensures
            final(self).wf(),
            final(self).spec_aborted(),
            final(self).spec_parts() == old(self).spec_parts(),
            final(self).spec_status().len() == old(self).spec_status().len(),
            forall|p: int|
                0 <= p < old(self).spec_status().len() ==> #[trigger] final(self).spec_status()[p]
                    == if old(self).spec_status()[p] == PartStatus::Running {
                    PartStatus::Cancelled
                } else {
                    old(self).spec_status()[p]
                },
            forall|p: int| 0 <= p < final(self).spec_status().len() ==> is_over(#[trigger] final(self).spec_status()[p]),
    {
        let mut i: usize = 0;
        while i < self.status.len()
            invariant
                i <= self.status@.len(),
                self.status@.len() == old(self).spec_status().len(),
                self.parts@ == old(self).spec_parts(),
                self.parting_info == old(self).spec_parting_info(),
                forall|p: int|
                    0 <= p < i ==> #[trigger] self.status@[p] == if old(self).spec_status()[p]
                        == PartStatus::Running {
                        PartStatus::Cancelled
                    } else {
                        old(self).spec_status()[p]
                    },
                forall|p: int| i <= p < self.status@.len() ==> #[trigger] self.status@[p] == old(self).spec_status()[p],
            decreases self.status@.len() - i,
        {
            if let PartStatus::Running = self.status[i] {
                self.status.set(i, PartStatus::Cancelled);
            }
            i = i + 1;
        }
        self.aborted = true;
    }

    /// Handles a message from the control channel: any message stops the
    /// split. Returns whether it was aborted by it.
    pub fn on_action(&mut self, action: WorkAction) -> (r: bool)
        requires
            old(self).wf(),
        ensures
            r,
            final(self).wf(),
            final(self).spec_aborted(),
            forall|p: int| 0 <= p < final(self).spec_status().len() ==> is_over(#[trigger] final(self).spec_status()[p]),
    {
        match action {
            WorkAction::Abort(_) => {
                self.abort();
                true
            },
        }
    }
}

} // verus!
