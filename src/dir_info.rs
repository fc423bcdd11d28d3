use vstd::prelude::*;

verus! {

/// Addition that stops at the largest `u128`.
pub open spec fn sat_add(a: u128, b: u128) -> u128 {
    if a as int + b as int > u128::MAX as int {
        u128::MAX
    } else {
        (a + b) as u128
    }
}

/// The number of items in a tree and their total size in bytes.
#[derive(Debug, Clone, Copy, PartialEq, Eq, Structural)]
pub struct DirInfo {
    items_count: u128,
    total_size: u128,
}

impl DirInfo {
    pub closed spec fn spec_items(&self) -> u128 {
        self.items_count
    }

    pub closed spec fn spec_size(&self) -> u128 {
        self.total_size
    }

    /// The sum of two summaries, each field clamped at the largest `u128`.
    pub open spec fn spec_add(self, other: DirInfo) -> DirInfo {
        DirInfo::spec_new(
            sat_add(self.spec_items(), other.spec_items()),
            sat_add(self.spec_size(), other.spec_size()),
        )
    }

    pub closed spec fn spec_new(items_count: u128, total_size: u128) -> DirInfo {
        DirInfo { items_count, total_size }
    }

    pub proof fn lemma_new_fields(items_count: u128, total_size: u128)
        ensures
            #[trigger] DirInfo::spec_new(items_count, total_size).spec_items() == items_count,
            DirInfo::spec_new(items_count, total_size).spec_size() == total_size,
    {
    }

    pub fn new(items_count: u128, total_size: u128) -> (r: DirInfo)
        ensures
            r == DirInfo::spec_new(items_count, total_size),
            r.spec_items() == items_count,
            r.spec_size() == total_size,
    {
        DirInfo { items_count, total_size }
    }

    pub fn items(&self) -> (r: &u128)
        ensures
            *r == self.spec_items(),
    {
        &self.items_count
    }

    pub fn size(&self) -> (r: &u128)
        ensures
            *r == self.spec_size(),
    {
        &self.total_size
    }

    /// Field-wise sum, clamped at the largest `u128`.
    pub fn add(self, other: DirInfo) -> (r: DirInfo)
        ensures
            r == self.spec_add(other),
    {
        DirInfo {
            items_count: self.items_count.saturating_add(other.items_count),
            total_size: self.total_size.saturating_add(other.total_size),
        }
    }

    /// Adds `other` into `self`, field-wise, clamped at the largest `u128`.
    pub fn add_assign(&mut self, other: DirInfo)
        ensures
            *final(self) == old(self).spec_add(other),
    {
        self.items_count = self.items_count.saturating_add(other.items_count);
        self.total_size = self.total_size.saturating_add(other.total_size);
    }
}

/// Summaries form a commutative monoid under clamped addition, with the
/// empty summary as identity.
pub proof fn lemma_dir_info_monoid(a: DirInfo, b: DirInfo, c: DirInfo)
    ensures
        a.spec_add(b) == b.spec_add(a),
        a.spec_add(b).spec_add(c) == a.spec_add(b.spec_add(c)),
        a.spec_add(DirInfo::spec_new(0, 0)) == a,
        DirInfo::spec_new(0, 0).spec_add(a) == a,
{
    DirInfo::lemma_new_fields(0, 0);
    DirInfo::lemma_new_fields(sat_add(a.spec_items(), b.spec_items()), sat_add(a.spec_size(), b.spec_size()));
    DirInfo::lemma_new_fields(sat_add(b.spec_items(), c.spec_items()), sat_add(b.spec_size(), c.spec_size()));
    assert(a.spec_add(DirInfo::spec_new(0, 0)) == a);
    assert(DirInfo::spec_new(0, 0).spec_add(a) == a);
}

/// How the background count of a tree ended.
#[derive(Debug, Clone, Copy, PartialEq, Eq, Structural)]
pub enum CountOutcome {
    /// The count ran to the end.
    Finished(DirInfo),
    /// The count was cancelled.
    Cancelled,
    /// The count failed.
    Failed,
}

/// Where the background count of a tree stands.
#[derive(Debug, Clone, Copy, PartialEq, Eq, Structural)]
pub enum DirStatus {
    /// Not started, or cancelled before it ended.
    Idle,
    Error,
    Aborted,
    Calculating,
    Done(DirInfo),
}

impl DirStatus {
    /// The count is started; only an idle status starts one.
    pub fn start(&mut self)
        ensures
            *old(self) == DirStatus::Idle ==> *final(self) == DirStatus::Calculating,
            *old(self) != DirStatus::Idle ==> *final(self) == *old(self),
    {
        if let DirStatus::Idle = self {
            *self = DirStatus::Calculating;
        }
    }

    pub fn is_calculating(&self) -> (r: bool)
        ensures
            r <==> *self == DirStatus::Calculating,
    {
        match self {
            DirStatus::Calculating => true,
            _ => false,
        }
    }

    /// Records how a running count ended; other states are final.
    pub fn calculate(&mut self, outcome: CountOutcome)
        ensures
            *old(self) == DirStatus::Calculating ==> *final(self) == match outcome {
                CountOutcome::Finished(info) => DirStatus::Done(info),
                CountOutcome::Cancelled => DirStatus::Aborted,
                CountOutcome::Failed => DirStatus::Error,
            },
            *old(self) != DirStatus::Calculating ==> *final(self) == *old(self),
    {
        if let DirStatus::Calculating = self {
            *self = match outcome {
                CountOutcome::Finished(info) => DirStatus::Done(info),
                CountOutcome::Cancelled => DirStatus::Aborted,
                CountOutcome::Failed => DirStatus::Error,
            };
        }
    }

    /// Whether the count is over: done, or running with its task finished.
    pub fn is_done(&self, task_finished: bool) -> (r: bool)
        ensures
            r == match *self {
                DirStatus::Done(_) => true,
                DirStatus::Calculating => task_finished,
                _ => false,
            },
    {
        match self {
            DirStatus::Done(_) => true,
            DirStatus::Calculating => task_finished,
            _ => false,
        }
    }

    pub fn get_info(&self) -> (r: Option<&DirInfo>)
        ensures
            match *self {
                DirStatus::Done(info) => r == Some(&info),
                _ => r is None,
            },
    {
        match self {
            DirStatus::Done(info) => Some(info),
            _ => None,
        }
    }

    /// Cancels a running count, which leaves the status idle.
    pub fn cancel(&mut self)
        ensures
            *old(self) == DirStatus::Calculating ==> *final(self) == DirStatus::Idle,
            *old(self) != DirStatus::Calculating ==> *final(self) == *old(self),
    {
        if let DirStatus::Calculating = self {
            *self = DirStatus::Idle;
        }
    }
}

} // verus!
