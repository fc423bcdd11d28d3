use vstd::prelude::*;

verus! {

/// How much of the machine a transfer may use: the faster, the more workers,
/// parts and compression effort.
#[derive(Debug, Clone, Copy, PartialEq, Eq, Structural)]
pub enum Performance {
    Fast,
    Average,
    Slow,
}

/// The compression effort handed to a codec.
#[derive(Debug, Clone, Copy, PartialEq, Eq, Structural)]
pub enum CompressionLevel {
    Best,
    Default,
    Fastest,
}

/// Transfers in flight at once, by performance.
pub const MAX_FAST_WORKERS: usize = 4;
pub const MAX_AVERAGE_WORKERS: usize = 3;
pub const MAX_SLOW_WORKERS: usize = 2;

/// Cooperative tasks available to the parts of all transfers, by performance.
pub const MAX_FAST_WORKER_THREADS: usize = 1024;
pub const MAX_AVERAGE_WORKER_THREADS: usize = 512;
pub const MAX_SLOW_WORKER_THREADS: usize = 256;

/// The most parts a single file is split into, by performance.
pub const MAX_FAST_PARTS: usize = MAX_FAST_WORKER_THREADS / MAX_FAST_WORKERS;
pub const MAX_AVERAGE_PARTS: usize = MAX_AVERAGE_WORKER_THREADS / MAX_AVERAGE_WORKERS;
pub const MAX_SLOW_PARTS: usize = MAX_SLOW_WORKER_THREADS / MAX_SLOW_WORKERS;

pub open spec fn spec_max_workers(perf: Performance) -> nat {
    match perf {
        Performance::Fast => 4,
        Performance::Average => 3,
        Performance::Slow => 2,
    }
}

pub open spec fn spec_max_parts(perf: Performance) -> nat {
    match perf {
        Performance::Fast => 256,
        Performance::Average => 170,
        Performance::Slow => 128,
    }
}

/// The fastest setting asks the codec for its best (slowest) compression, to
/// cut the bytes written; the slowest setting asks for the fastest.
pub open spec fn spec_level(perf: Performance) -> CompressionLevel {
    match perf {
        Performance::Fast => CompressionLevel::Best,
        Performance::Average => CompressionLevel::Default,
        Performance::Slow => CompressionLevel::Fastest,
    }
}

impl Performance {
    pub fn max_workers(&self) -> (r: usize)
        ensures
            r == spec_max_workers(*self),
    {
        match self {
            Performance::Fast => MAX_FAST_WORKERS,
            Performance::Average => MAX_AVERAGE_WORKERS,
            Performance::Slow => MAX_SLOW_WORKERS,
        }
    }

    pub fn max_parts(&self) -> (r: usize)
        ensures
            r == spec_max_parts(*self),
    {
        match self {
            Performance::Fast => MAX_FAST_PARTS,
            Performance::Average => MAX_AVERAGE_PARTS,
            Performance::Slow => MAX_SLOW_PARTS,
        }
    }

    pub fn level(&self) -> (r: CompressionLevel)
        ensures
            r == spec_level(*self),
    {
        match self {
            Performance::Fast => CompressionLevel::Best,
            Performance::Average => CompressionLevel::Default,
            Performance::Slow => CompressionLevel::Fastest,
        }
    }
}

/// How files are handed over.
#[derive(Debug, Clone, Copy, PartialEq, Eq, Structural)]
pub enum FileSplitterKind {
    /// Split files into parts, which implies compression.
    Split,
    /// Compress files whole.
    Compress,
    /// Copy files as they are.
    Keep,
}

/// The user's settings for a transfer.
pub struct Settings {
    perf: Performance,
    splitter: Option<FileSplitterKind>,
}

impl Settings {
    pub fn new(perf: Performance) -> (r: Settings)
        ensures
            r.spec_perf() == perf,
            r.spec_splitter() is None,
    {
        Settings { perf, splitter: None }
    }

    pub closed spec fn spec_perf(&self) -> Performance {
        self.perf
    }

    pub closed spec fn spec_splitter(&self) -> Option<FileSplitterKind> {
        self.splitter
    }

    pub fn perf(&self) -> (r: &Performance)
        ensures
            *r == self.spec_perf(),
    {
        &self.perf
    }

    pub fn splitter(&self) -> (r: Option<&FileSplitterKind>)
        ensures
            r matches Some(k) ==> self.spec_splitter() == Some(*k),
            r is None <==> self.spec_splitter() is None,
    {
        self.splitter.as_ref()
    }

    /// Workers in flight at once, which is also the size of the pool that
    /// runs them.
    pub fn worker_threads(&self) -> (r: usize)
        ensures
            r == spec_max_workers(self.spec_perf()),
    {
        self.perf.max_workers()
    }
}

} // verus!
