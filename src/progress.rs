use vstd::prelude::*;
use vstd::arithmetic::div_mod::{lemma_fundamental_div_mod_converse, lemma_div_is_ordered};

verus! {

/// Whether the total amount of work is known.
#[derive(Debug, Clone, Copy, PartialEq, Eq, Structural)]
pub enum ProgressKind {
    /// The total is unknown; only the amount done is kept.
    Indeterministic,
    /// The total is known; percentages are reported.
    Deterministic,
}

/// The whole percentage of `total` that `current` stands for, at most 100; an
/// empty total counts as complete.
pub open spec fn percent_of(current: u128, total: u128) -> int {
    if total == 0 || current >= total {
        100
    } else {
        (current as int * 100) / total as int
    }
}

/// The percentage grows with the amount done.
pub proof fn lemma_percent_monotone(c1: u128, c2: u128, total: u128)
    requires
        c1 <= c2,
    ensures
        percent_of(c1, total) <= percent_of(c2, total),
        0 <= percent_of(c1, total) <= 100,
{
    if total > 0 && c1 < total {
        assert(c1 as int * 100 <= c2 as int * 100);
        lemma_div_is_ordered(c1 as int * 100, c2 as int * 100, total as int);
        lemma_div_is_ordered(c1 as int * 100, total as int * 100, total as int);
        assert((total as int * 100) / total as int == 100) by (nonlinear_arith)
            requires
                total > 0,
        ;
        if c2 < total {
            lemma_div_is_ordered(c2 as int * 100, total as int * 100, total as int);
        }
        assert(c1 as int * 100 / total as int >= 0) by (nonlinear_arith)
            requires
                total > 0,
        ;
    }
}

/// `floor(100 * current / total)` for `current < total`, without overflow.
fn whole_percent(current: u128, total: u128) -> (r: u8)
    requires
        current < total,
    ensures
        r == percent_of(current, total),
{
    let mut acc: u128 = 0;
    let mut k: u8 = 0;
    let mut i: u8 = 0;
    while i < 100
        invariant
            current < total,
            i <= 100,
            k <= i,
            acc < total,
            i as int * current as int == k as int * total as int + acc as int,
        decreases 100 - i,
    {
        if acc >= total - current {
            assert((k as int + 1) * total as int == k as int * total as int + total as int)
                by (nonlinear_arith);
            acc = acc - (total - current);
            k = k + 1;
        } else {
            acc = acc + current;
        }
        assert((i as int + 1) * current as int == i as int * current as int + current as int)
            by (nonlinear_arith);
        i = i + 1;
    }
    proof {
        lemma_fundamental_div_mod_converse(
            current as int * 100,
            total as int,
            k as int,
            acc as int,
        );
    }
    k
}

/// Counts the bytes processed and, once the total is known, reports each
/// change of the whole percentage done.
pub struct Progress {
    total: Option<u128>,
    kind: ProgressKind,
    current: u128,
    prev_percent: u8,
}

impl Progress {
    pub closed spec fn spec_total(&self) -> Option<u128> {
        self.total
    }

    pub closed spec fn spec_kind(&self) -> ProgressKind {
        self.kind
    }

    pub closed spec fn spec_current(&self) -> u128 {
        self.current
    }

    /// The percentage last reported.
    pub closed spec fn spec_prev_percent(&self) -> u8 {
        self.prev_percent
    }

    /// The last report is not ahead of the work done.
    pub open spec fn in_step(&self) -> bool {
        match self.spec_total() {
            Some(t) => self.spec_prev_percent() <= percent_of(self.spec_current(), t),
            None => true,
        }
    }

    /// A tracker of `total` bytes, none done yet.
    pub fn new(total: u128) -> (r: Progress)
        ensures
            r.spec_total() == Some(total),
            r.spec_kind() == ProgressKind::Deterministic,
            r.spec_current() == 0,
            r.spec_prev_percent() == 0,
            r.in_step(),
    {
        proof {
            lemma_percent_monotone(0, 0, total);
        }
        Progress { total: Some(total), kind: ProgressKind::Deterministic, current: 0, prev_percent: 0 }
    }

    /// A tracker whose total is not known yet.
    pub fn new_no_total() -> (r: Progress)
        ensures
            r.spec_total() is None,
            r.spec_kind() == ProgressKind::Indeterministic,
            r.spec_current() == 0,
            r.spec_prev_percent() == 0,
            r.in_step(),
    {
        Progress { total: None, kind: ProgressKind::Indeterministic, current: 0, prev_percent: 0 }
    }

    /// Makes the total known.
    pub fn set_total(&mut self, total: u128)
        ensures
            final(self).spec_total() == Some(total),
            final(self).spec_kind() == ProgressKind::Deterministic,
            final(self).spec_current() == old(self).spec_current(),
            final(self).spec_prev_percent() == old(self).spec_prev_percent(),
    {
        self.kind = ProgressKind::Deterministic;
        self.total = Some(total);
    }

    pub fn current(&self) -> (r: u128)
        ensures
            r == self.spec_current(),
    {
        self.current
    }

    pub fn total(&self) -> (r: Option<u128>)
        ensures
            r == self.spec_total(),
    {
        self.total
    }

    /// Adds `processed` bytes (clamped at the largest `u128`). Returns the new
    /// whole percentage where the total is known and the percentage changed;
    /// nothing otherwise. Adding nothing changes nothing.
    pub fn update(&mut self, processed: u64) -> (r: Option<u8>)
        ensures
            spec_update(*old(self), processed, *final(self), r),
            old(self).in_step() ==> final(self).in_step(),
            old(self).in_step() ==> (r matches Some(p) ==> p > old(self).spec_prev_percent()),
    {
        if processed == 0 {
            return None;
        }
        let old_current = self.current;
        self.current = self.current.saturating_add(processed as u128);
        let total = match self.total {
            None => {
                return None;
            },
            Some(t) => t,
        };
        proof {
            lemma_percent_monotone(old_current, self.current, total);
        }
        let percent: u8 = if total == 0 || self.current >= total {
            100
        } else {
            whole_percent(self.current, total)
        };
        if self.prev_percent == percent {
            return None;
        }
        self.prev_percent = percent;
        Some(percent)
    }
}

/// Something that counts processed bytes and may report a new percentage.
pub trait ProgressUpdater {
    fn update(&mut self, processed: u64) -> Option<u8>;
}

impl ProgressUpdater for Progress {
    fn update(&mut self, processed: u64) -> Option<u8> {
        Progress::update(self, processed)
    }
}

impl Default for Progress {
    fn default() -> (r: Progress)
        ensures
            r.spec_total() is None,
            r.spec_kind() == ProgressKind::Indeterministic,
            r.spec_current() == 0,
            r.spec_prev_percent() == 0,
    {
        Progress::new_no_total()
    }
}

/// What one update does: the amount done grows by `processed` (clamped), the
/// total stays, and a percentage is reported exactly when the total is known
/// and the whole percentage changed.
pub open spec fn spec_update(old: Progress, processed: u64, new: Progress, r: Option<u8>) -> bool {
    &&& processed == 0 ==> new == old && r is None
    &&& processed > 0 ==> new.spec_current() == (if old.spec_current() as int + processed as int
        > u128::MAX as int {
        u128::MAX
    } else {
        (old.spec_current() + processed) as u128
    })
    &&& new.spec_current() >= old.spec_current()
    &&& new.spec_total() == old.spec_total()
    &&& new.spec_kind() == old.spec_kind()
    &&& processed > 0 && old.spec_total() is Some ==> ({
        let p = percent_of(new.spec_current(), old.spec_total()->0);
        &&& new.spec_prev_percent() == p
        &&& r == (if p == old.spec_prev_percent() {
            None
        } else {
            Some(p as u8)
        })
    })
    &&& old.spec_total() is None ==> r is None && new.spec_prev_percent()
        == old.spec_prev_percent()
}

/// Over any run of updates from a tracker in step, the amount done never
/// falls and each reported percentage is above every earlier one.
pub proof fn lemma_progress_monotone(
    states: Seq<Progress>,
    amounts: Seq<u64>,
    reports: Seq<Option<u8>>,
)
    requires
        states.len() == amounts.len() + 1,
        reports.len() == amounts.len(),
        states[0].in_step(),
        forall|i: int|
            0 <= i < amounts.len() ==> spec_update(
                states[i],
                #[trigger] amounts[i],
                states[i + 1],
                reports[i],
            ),
    ensures
        forall|i: int, j: int|
            0 <= i <= j < states.len() ==> states[i].spec_current() <= states[j].spec_current(),
        forall|i: int, j: int|
            0 <= i < j < reports.len() && reports[i] is Some && reports[j] is Some ==> reports[i]->0
                < reports[j]->0,
    decreases amounts.len(),
{
    let n = amounts.len() as int;
    if n > 0 {
        let m = n - 1;
        lemma_progress_monotone(states.take(n), amounts.take(m), reports.take(m));
        assert forall|i: int| 0 <= i < n && reports[i] is Some implies reports[i]->0
            <= states[n].spec_prev_percent() by {
            lemma_report_below(states, amounts, reports, i, n);
        }
        assert forall|i: int, j: int| 0 <= i <= j < states.len() implies states[i].spec_current()
            <= states[j].spec_current() by {
            if j == n && i < n {
                assert(states.take(n)[i] == states[i]);
                assert(states.take(n)[m] == states[m]);
                assert(spec_update(states[m], amounts[m], states[n], reports[m]));
            } else if j < n {
                assert(states.take(n)[i] == states[i]);
                assert(states.take(n)[j] == states[j]);
            }
        }
        assert forall|i: int, j: int|
            0 <= i < j < reports.len() && reports[i] is Some && reports[j] is Some implies reports[i]->0
                < reports[j]->0 by {
            if j == m {
                lemma_report_below(states, amounts, reports, i, m);
                assert(spec_update(states[m], amounts[m], states[n], reports[m]));
                lemma_in_step_run(states, amounts, reports, m);
                lemma_update_in_step(states[m], amounts[m], states[n], reports[m]);
            } else {
                assert(reports.take(m)[i] == reports[i]);
                assert(reports.take(m)[j] == reports[j]);
            }
        }
    }
}

/// One update keeps a tracker in step, and what it reports is above the
/// previous report.
pub proof fn lemma_update_in_step(old: Progress, processed: u64, new: Progress, r: Option<u8>)
    requires
        old.in_step(),
        spec_update(old, processed, new, r),
    ensures
        new.in_step(),
        r matches Some(p) ==> p > old.spec_prev_percent(),
        new.spec_prev_percent() >= old.spec_prev_percent(),
{
    if let Some(t) = old.spec_total() {
        lemma_percent_monotone(old.spec_current(), new.spec_current(), t);
        lemma_percent_monotone(new.spec_current(), new.spec_current(), t);
    }
}

proof fn lemma_in_step_run(
    states: Seq<Progress>,
    amounts: Seq<u64>,
    reports: Seq<Option<u8>>,
    i: int,
)
    requires
        states.len() == amounts.len() + 1,
        reports.len() == amounts.len(),
        states[0].in_step(),
        forall|k: int|
            0 <= k < amounts.len() ==> spec_update(
                states[k],
                #[trigger] amounts[k],
                states[k + 1],
                reports[k],
            ),
        0 <= i < states.len(),
    ensures
        states[i].in_step(),
    decreases i,
{
    if i > 0 {
        lemma_in_step_run(states, amounts, reports, i - 1);
        assert(spec_update(states[i - 1], amounts[i - 1], states[i], reports[i - 1]));
        lemma_update_in_step(states[i - 1], amounts[i - 1], states[i], reports[i - 1]);
    }
}

proof fn lemma_report_below(
    states: Seq<Progress>,
    amounts: Seq<u64>,
    reports: Seq<Option<u8>>,
    i: int,
    j: int,
)
    requires
        states.len() == amounts.len() + 1,
        reports.len() == amounts.len(),
        states[0].in_step(),
        forall|k: int|
            0 <= k < amounts.len() ==> spec_update(
                states[k],
                #[trigger] amounts[k],
                states[k + 1],
                reports[k],
            ),
        0 <= i < j < states.len(),
        reports[i] is Some,
    ensures
        reports[i]->0 <= states[j].spec_prev_percent(),
    decreases j - i,
{
    lemma_in_step_run(states, amounts, reports, j - 1);
    assert(spec_update(states[j - 1], amounts[j - 1], states[j], reports[j - 1]));
    lemma_update_in_step(states[j - 1], amounts[j - 1], states[j], reports[j - 1]);
    if j - 1 > i {
        lemma_report_below(states, amounts, reports, i, j - 1);
    } else {
        assert(spec_update(states[i], amounts[i], states[i + 1], reports[i]));
    }
}

} // verus!
