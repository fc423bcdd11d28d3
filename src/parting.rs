use vstd::prelude::*;
use crate::header::{header_bytes, Header};
use crate::performance::{spec_max_parts, Performance};

verus! {

/// The largest buffer read or written in one step.
pub const MIN_CHUNK_SIZE: usize = 8192;
/// A part is never smaller than this, unless it is the last one.
pub const MIN_PART_SIZE: usize = MIN_CHUNK_SIZE;
/// A file must be at least this long to be split.
pub const MIN_SPLIT_SIZE: usize = MIN_PART_SIZE * 2;

/// The number of parts of at most `MIN_PART_SIZE` bytes that cover a file.
pub open spec fn unclamped_count(file_size: u64) -> int {
    (file_size as int + 8191) / 8192
}

/// Whether the part count of a file is held down to the performance limit.
pub open spec fn is_clamped(file_size: u64, perf: Performance) -> bool {
    unclamped_count(file_size) > spec_max_parts(perf)
}

pub open spec fn spec_part_count(file_size: u64, perf: Performance) -> int {
    if is_clamped(file_size, perf) {
        spec_max_parts(perf) as int
    } else {
        unclamped_count(file_size)
    }
}

pub open spec fn spec_part_size(file_size: u64, perf: Performance) -> int {
    if is_clamped(file_size, perf) {
        (file_size as int + spec_max_parts(perf) as int - 1) / spec_max_parts(perf) as int
    } else {
        8192
    }
}

/// How a file is cut into parts: the nominal size of each and how many.
#[derive(Debug, Clone, Copy)]
pub struct PartingInfo {
    size: u64,
    count: u64,
    perf: Performance,
}

impl PartingInfo {
    pub closed spec fn spec_size(&self) -> u64 {
        self.size
    }

    pub closed spec fn spec_count(&self) -> u64 {
        self.count
    }

    pub closed spec fn spec_perf(&self) -> Performance {
        self.perf
    }

    /// Parts of `MIN_PART_SIZE` bytes, as many as the file needs; where that
    /// is more than the performance allows, the allowed number of parts of
    /// `file_size / count` bytes each, rounded up so that they cover the file.
    pub fn calculate(file_size: u64, perf: Performance) -> (r: PartingInfo)
        ensures
            r.spec_size() == spec_part_size(file_size, perf),
            r.spec_count() == spec_part_count(file_size, perf),
            r.spec_perf() == perf,
    {
        let min_part = MIN_PART_SIZE as u64;
        let count = file_size / min_part + if file_size % min_part != 0 {
            1u64
        } else {
            0u64
        };
        assert(count == unclamped_count(file_size));
        let max = perf.max_parts() as u64;
        if count > max {
            let size = file_size / max + if file_size % max != 0 {
                1u64
            } else {
                0u64
            };
            assert(size == (file_size as int + max as int - 1) / max as int) by (nonlinear_arith)
                requires
                    max > 0,
                    size == file_size as int / max as int + if file_size as int % max as int
                        != 0 {
                        1int
                    } else {
                        0int
                    },
            ;
            PartingInfo { size, count: max, perf }
        } else {
            PartingInfo { size: min_part, count, perf }
        }
    }

    /// The nominal size of a part.
    pub fn size(&self) -> (r: &u64)
        ensures
            *r == self.spec_size(),
    {
        &self.size
    }

    /// The number of parts.
    pub fn count(&self) -> (r: &u64)
        ensures
            *r == self.spec_count(),
    {
        &self.count
    }

    /// The performance the plan was made for.
    pub fn perf(&self) -> (r: Performance)
        ensures
            r == self.spec_perf(),
    {
        self.perf
    }

    /// The header that opens the first part, or none where the count does
    /// not fit the header's two bytes.
    pub fn header(&self) -> (r: Option<Header>)
        ensures
            self.spec_count() <= 0xffff ==> (r matches Some(h) && h.view() == header_bytes(
                self.spec_size(),
                self.spec_count() as u16,
            )),
            self.spec_count() > 0xffff ==> r is None,
    {
        if self.count > 0xffffu64 {
            None
        } else {
            Some(Header::with_parts(self.size, self.count as u16))
        }
    }
}

/// A plan never has more parts than the performance allows, and where the
/// file is worth splitting no part is planned below the minimum part size.
pub proof fn lemma_parting_bounds(file_size: u64, perf: Performance)
    ensures
        spec_part_count(file_size, perf) <= spec_max_parts(perf),
        file_size >= 16384 ==> spec_part_size(file_size, perf) >= 8192,
        spec_part_count(file_size, perf) <= 0xffff,
{
    let m = spec_max_parts(perf) as int;
    if is_clamped(file_size, perf) {
        assert(file_size as int > m * 8192) by (nonlinear_arith)
            requires
                (file_size as int + 8191) / 8192 > m,
                m > 0,
        ;
        assert((file_size as int + m - 1) / m >= 8192) by (nonlinear_arith)
            requires
                file_size as int > m * 8192,
                m > 0,
        ;
    }
}

/// The parts of a plan cover the whole file.
pub proof fn lemma_parting_covers(file_size: u64, perf: Performance)
    ensures
        spec_part_count(file_size, perf) * spec_part_size(file_size, perf) >= file_size,
{
    let m = spec_max_parts(perf) as int;
    let f = file_size as int;
    if is_clamped(file_size, perf) {
        assert(m * ((f + m - 1) / m) >= f) by (nonlinear_arith)
            requires
                f >= 0,
                m > 0,
        ;
    } else {
        assert(((f + 8191) / 8192) * 8192 >= f) by (nonlinear_arith)
            requires
                f >= 0,
        ;
    }
}

/// Where part `p` starts in a file of `file_size` bytes cut into parts of
/// `part_size` bytes.
pub open spec fn part_start(file_size: u64, part_size: u64, p: int) -> int {
    let s = p * part_size as int;
    if s < file_size as int {
        s
    } else {
        file_size as int
    }
}

/// Where part `p` ends (exclusive).
pub open spec fn part_end(file_size: u64, part_size: u64, p: int) -> int {
    part_start(file_size, part_size, p + 1)
}

/// The byte ranges of the parts of a file, in order: each starts where the
/// previous one ended, and none goes past the end of the file.
pub fn plan_parts(info: &PartingInfo, file_size: u64) -> (r: Vec<(u64, u64)>)
    requires
        info.spec_count() <= 0xffff,
    ensures
        r@.len() == info.spec_count(),
        forall|p: int|
            0 <= p < r@.len() ==> r@[p].0 == part_start(file_size, info.spec_size(), p)
                && r@[p].1 == part_end(file_size, info.spec_size(), p),
{
    let count = *info.count();
    let size = *info.size();
    let mut ranges: Vec<(u64, u64)> = Vec::new();
    let mut next: u64 = 0;
    let mut p: u64 = 0;
    while p < count
        invariant
            count == info.spec_count(),
            size == info.spec_size(),
            count <= 0xffff,
            p <= count,
            ranges@.len() == p,
            next == part_start(file_size, size, p as int),
            forall|q: int|
                0 <= q < p ==> ranges@[q].0 == part_start(file_size, size, q) && ranges@[q].1
                    == part_end(file_size, size, q),
        decreases count - p,
    {
        let end = if file_size - next <= size {
            file_size
        } else {
            next + size
        };
        assert((p + 1) * size as int == p * size as int + size) by (nonlinear_arith);
        assert(end == part_start(file_size, size, p + 1));
        ranges.push((next, end));
        next = end;
        p = p + 1;
    }
    ranges
}

/// The bytes of parts `0..k` of `src`, one after another.
pub open spec fn joined_parts(src: Seq<u8>, part_size: u64, k: nat) -> Seq<u8>
    decreases k,
{
    if k == 0 {
        Seq::empty()
    } else {
        joined_parts(src, part_size, (k - 1) as nat) + src.subrange(
            part_start(src.len() as u64, part_size, k - 1),
            part_end(src.len() as u64, part_size, k - 1),
        )
    }
}

/// What the splitter writes for part `p`: its slice of the source, with the
/// header in front of the first part.
pub open spec fn part_stream(src: Seq<u8>, info: PartingInfo, p: int) -> Seq<u8> {
    let payload = src.subrange(
        part_start(src.len() as u64, info.spec_size(), p),
        part_end(src.len() as u64, info.spec_size(), p),
    );
    if p == 0 {
        header_bytes(info.spec_size(), info.spec_count() as u16) + payload
    } else {
        payload
    }
}

/// A part's stream with the header taken off the first part.
pub open spec fn stripped_stream(src: Seq<u8>, info: PartingInfo, p: int) -> Seq<u8> {
    let s = part_stream(src, info, p);
    if p == 0 {
        s.subrange(10, s.len() as int)
    } else {
        s
    }
}

/// The stripped streams of parts `0..k`, one after another.
pub open spec fn joined_streams(src: Seq<u8>, info: PartingInfo, k: nat) -> Seq<u8>
    decreases k,
{
    if k == 0 {
        Seq::empty()
    } else {
        joined_streams(src, info, (k - 1) as nat) + stripped_stream(src, info, k - 1)
    }
}

proof fn lemma_joined_prefix(src: Seq<u8>, part_size: u64, k: nat)
    requires
        src.len() <= u64::MAX,
    ensures
        joined_parts(src, part_size, k) == src.subrange(
            0,
            part_start(src.len() as u64, part_size, k as int),
        ),
    decreases k,
{
    let n = src.len() as u64;
    if k == 0 {
        assert(src.subrange(0, 0) =~= Seq::<u8>::empty());
    } else {
        lemma_joined_prefix(src, part_size, (k - 1) as nat);
        assert(k as int * part_size as int == (k - 1) as int * part_size as int + part_size)
            by (nonlinear_arith);
        assert((k - 1) as int * part_size as int >= 0) by (nonlinear_arith)
            requires
                k >= 1,
        ;
        assert(src.subrange(0, part_start(n, part_size, k - 1)) + src.subrange(
            part_start(n, part_size, k - 1),
            part_start(n, part_size, k as int),
        ) =~= src.subrange(0, part_start(n, part_size, k as int)));
    }
}

proof fn lemma_streams_are_parts(src: Seq<u8>, info: PartingInfo, k: nat)
    requires
        src.len() <= u64::MAX,
    ensures
        joined_streams(src, info, k) == joined_parts(src, info.spec_size(), k),
    decreases k,
{
    if k > 0 {
        lemma_streams_are_parts(src, info, (k - 1) as nat);
        let p = k - 1;
        let s = part_stream(src, info, p);
        if p == 0 {
            let h = header_bytes(info.spec_size(), info.spec_count() as u16);
            assert(h.len() == 10);
            assert(s.subrange(10, s.len() as int) =~= src.subrange(
                part_start(src.len() as u64, info.spec_size(), p),
                part_end(src.len() as u64, info.spec_size(), p),
            ));
        }
    }
}

/// Joining the parts of a split file in order, after taking the header off
/// the first, gives back the source byte for byte.
pub proof fn lemma_parts_reassemble(src: Seq<u8>, info: PartingInfo)
    requires
        src.len() <= u64::MAX,
        info.spec_size() == spec_part_size(src.len() as u64, info.spec_perf()),
        info.spec_count() == spec_part_count(src.len() as u64, info.spec_perf()),
    ensures
        joined_streams(src, info, info.spec_count() as nat) == src,
{
    let n = src.len() as u64;
    lemma_parting_bounds(n, info.spec_perf());
    lemma_parting_covers(n, info.spec_perf());
    lemma_streams_are_parts(src, info, info.spec_count() as nat);
    lemma_joined_prefix(src, info.spec_size(), info.spec_count() as nat);
    assert(src.subrange(0, n as int) =~= src);
}

} // verus!
