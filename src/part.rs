use vstd::prelude::*;
use crate::errors::PropErrno;
use crate::file_info::{spec_part_name, FileInfo};
use crate::header::{header_bytes, Header};
use crate::parting::{part_end, part_start, plan_parts, PartingInfo, MIN_CHUNK_SIZE};

verus! {

/// Chunks a part keeps in memory at once.
pub const MAX_CHUNKS: usize = 3;

/// A contiguous run of a file's bytes: `[start, end)` of the source, and the
/// bytes to write for it (with the header in front of the first chunk of a
/// split file).
pub struct Chunk {
    start: u64,
    end: u64,
    data: Vec<u8>,
}

impl Chunk {
    pub closed spec fn spec_start(&self) -> u64 {
        self.start
    }

    pub closed spec fn spec_end(&self) -> u64 {
        self.end
    }

    pub closed spec fn spec_data(&self) -> Seq<u8> {
        self.data@
    }

    pub fn new(start: u64, end: u64, data: Vec<u8>) -> (r: Chunk)
        ensures
            r.spec_start() == start,
            r.spec_end() == end,
            r.spec_data() == data@,
    {
        Chunk { start, end, data }
    }

    /// The number of bytes to write.
    pub fn size(&self) -> (r: u64)
        ensures
            r == self.spec_data().len(),
    {
        self.data.len() as u64
    }

    pub fn start(&self) -> (r: &u64)
        ensures
            *r == self.spec_start(),
    {
        &self.start
    }

    pub fn end(&self) -> (r: &u64)
        ensures
            *r == self.spec_end(),
    {
        &self.end
    }

    pub fn data(&self) -> (r: &Vec<u8>)
        ensures
            r@ == self.spec_data(),
    {
        &self.data
    }

    pub fn into_data(self) -> (r: Vec<u8>)
        ensures
            r@ == self.spec_data(),
    {
        self.data
    }
}

/// One part of a split file: the range `[start_offset, end_offset)` of the
/// source it carries, how far it has got, and the file it is written to.
pub struct Part {
    dst_name: String,
    parting_info: Option<PartingInfo>,
    next_offset: u64,
    start_offset: u64,
    end_offset: u64,
}

impl Part {
    pub closed spec fn spec_dst_name(&self) -> Seq<char> {
        self.dst_name@
    }

    pub closed spec fn spec_parting_info(&self) -> Option<PartingInfo> {
        self.parting_info
    }

    pub closed spec fn spec_start(&self) -> u64 {
        self.start_offset
    }

    pub closed spec fn spec_next(&self) -> u64 {
        self.next_offset
    }

    pub closed spec fn spec_end(&self) -> u64 {
        self.end_offset
    }

    /// Offsets in order, and a header that fits where there is one.
    pub open spec fn wf(&self) -> bool {
        &&& self.spec_start() <= self.spec_next() <= self.spec_end()
        &&& self.spec_parting_info() matches Some(i) ==> i.spec_count() <= 0xffff
    }

    /// The header that goes in front of the next chunk: the plan's header
    /// before the first chunk of the file's first part, none otherwise.
    pub open spec fn spec_next_header(&self) -> Option<Seq<u8>> {
        if self.spec_next() == 0 {
            match self.spec_parting_info() {
                Some(i) => Some(header_bytes(i.spec_size(), i.spec_count() as u16)),
                None => None,
            }
        } else {
            None
        }
    }

    /// A part of `[start_offset, end_offset)` written to `dst_name`; only the
    /// first part carries the plan. Fails where the plan's part count does
    /// not fit the header.
    pub fn new(
        dst_name: String,
        parting_info: Option<PartingInfo>,
        start_offset: u64,
        end_offset: u64,
    ) -> (r: Result<Part, PropErrno>)
        requires
            start_offset <= end_offset,
        ensures
            match r {
                Ok(p) => {
                    &&& p.wf()
                    &&& p.spec_dst_name() == dst_name@
                    &&& p.spec_parting_info() == parting_info
                    &&& p.spec_start() == start_offset
                    &&& p.spec_next() == start_offset
                    &&& p.spec_end() == end_offset
                },
                Err(e) => (parting_info matches Some(i) && i.spec_count() > 0xffff) && e
                    matches PropErrno::TooManyTasks,
            },
            r is Err <==> (parting_info matches Some(i) && i.spec_count() > 0xffff),
    {
        if let Some(info) = &parting_info {
            if *info.count() > 0xffffu64 {
                return Err(PropErrno::TooManyTasks);
            }
        }
        Ok(Part { dst_name, parting_info, next_offset: start_offset, start_offset, end_offset })
    }

    pub fn dst_name(&self) -> (r: &String)
        ensures
            r@ == self.spec_dst_name(),
    {
        &self.dst_name
    }

    pub fn next_offset(&self) -> (r: &u64)
        ensures
            *r == self.spec_next(),
    {
        &self.next_offset
    }

    pub fn start_offset(&self) -> (r: &u64)
        ensures
            *r == self.spec_start(),
    {
        &self.start_offset
    }

    pub fn end_offset(&self) -> (r: &u64)
        ensures
            *r == self.spec_end(),
    {
        &self.end_offset
    }

    pub fn is_complete(&self) -> (r: bool)
        ensures
            r == (self.spec_next() == self.spec_end()),
    {
        self.next_offset == self.end_offset
    }

    /// The number of source bytes the part carries.
    pub fn size(&self) -> (r: u64)
        requires
            self.wf(),
        ensures
            r == self.spec_end() - self.spec_start(),
    {
        self.end_offset - self.start_offset
    }

    pub fn set_next_offset(&mut self, offset: u64)
        requires
            old(self).spec_start() <= offset <= old(self).spec_end(),
            old(self).wf(),
        ensures
            final(self).wf(),
            final(self).spec_next() == offset,
            final(self).spec_start() == old(self).spec_start(),
            final(self).spec_end() == old(self).spec_end(),
            final(self).spec_dst_name() == old(self).spec_dst_name(),
            final(self).spec_parting_info() == old(self).spec_parting_info(),
    {
        self.next_offset = offset;
    }

    /// How many source bytes to read next: what is left, at most one chunk.
    pub fn next_read_len(&self) -> (r: usize)
        requires
            self.wf(),
        ensures
            r == (if self.spec_end() - self.spec_next() < MIN_CHUNK_SIZE {
                self.spec_end() - self.spec_next()
            } else {
                MIN_CHUNK_SIZE as int
            }),
    {
        let left = self.end_offset - self.next_offset;
        if left < MIN_CHUNK_SIZE as u64 {
            left as usize
        } else {
            MIN_CHUNK_SIZE
        }
    }

    /// The header for the next chunk, if it carries one.
    pub fn get_header(&self) -> (r: Option<Header>)
        requires
            self.wf(),
        ensures
            match self.spec_next_header() {
                Some(h) => r matches Some(x) && x.view() == h,
                None => r is None,
            },
    {
        if self.next_offset == 0 {
            match &self.parting_info {
                Some(info) => Some(Header::with_parts(*info.size(), *info.count() as u16)),
                None => None,
            }
        } else {
            None
        }
    }

    /// The chunk for `payload`, read from the source at the next offset: the
    /// header (if due) then the payload.
    pub fn make_chunk(&self, payload: Vec<u8>) -> (r: Chunk)
        requires
            self.wf(),
            payload@.len() <= self.spec_end() - self.spec_next(),
        ensures
            r.spec_start() == self.spec_next(),
            r.spec_end() == self.spec_next() + payload@.len(),
            r.spec_data() == match self.spec_next_header() {
                Some(h) => h + payload@,
                None => payload@,
            },
    {
        let end = self.next_offset + payload.len() as u64;
        match self.get_header() {
            Some(h) => {
                let mut data: Vec<u8> = Vec::new();
                let bytes = h.bytes();
                let mut i: usize = 0;
                while i < 10
                    invariant
                        i <= 10,
                        bytes@.len() == 10,
                        data@ == bytes@.subrange(0, i as int),
                    decreases 10 - i,
                {
                    data.push(bytes[i]);
                    assert(bytes@.subrange(0, i + 1) == bytes@.subrange(0, i as int).push(bytes@[i as int]));
                    i = i + 1;
                }
                let mut j: usize = 0;
                while j < payload.len()
                    invariant
                        j <= payload@.len(),
                        data@ == bytes@ + payload@.subrange(0, j as int),
                    decreases payload@.len() - j,
                {
                    data.push(payload[j]);
                    assert(payload@.subrange(0, j + 1) == payload@.subrange(0, j as int).push(payload@[j as int]));
                    j = j + 1;
                }
                assert(bytes@.subrange(0, 10) == bytes@);
                assert(payload@.subrange(0, payload@.len() as int) == payload@);
                Chunk { start: self.next_offset, end, data }
            },
            None => Chunk { start: self.next_offset, end, data: payload },
        }
    }

    /// Records that the chunk starting at the next offset was written.
    pub fn advance(&mut self, chunk: &Chunk)
        requires
            old(self).wf(),
            chunk.spec_start() == old(self).spec_next(),
            old(self).spec_next() <= chunk.spec_end() <= old(self).spec_end(),
        ensures
            final(self).wf(),
            final(self).spec_next() == chunk.spec_end(),
            final(self).spec_start() == old(self).spec_start(),
            final(self).spec_end() == old(self).spec_end(),
            final(self).spec_dst_name() == old(self).spec_dst_name(),
            final(self).spec_parting_info() == old(self).spec_parting_info(),
    {
        self.next_offset = chunk.end;
    }
}

/// The total of a run of chunk lengths.
pub open spec fn total_len(lens: Seq<nat>) -> nat
    decreases lens.len(),
{
    if lens.len() == 0 {
        0
    } else {
        total_len(lens.drop_last()) + lens.last()
    }
}

/// What is written when chunks of the given lengths are read one after
/// another from `src`, starting at `start`: each chunk is the source bytes
/// from where the previous one ended.
pub open spec fn pumped(src: Seq<u8>, start: int, lens: Seq<nat>) -> Seq<u8>
    decreases lens.len(),
{
    if lens.len() == 0 {
        Seq::empty()
    } else {
        pumped(src, start, lens.drop_last()) + src.subrange(
            start + total_len(lens.drop_last()),
            start + total_len(lens),
        )
    }
}

/// Writing chunk after chunk, each read at the offset where the previous one
/// ended, writes exactly the source bytes from the first offset to the last:
/// a part pumped to completion holds its slice of the source.
pub proof fn lemma_chunks_cover_part(src: Seq<u8>, start: int, lens: Seq<nat>)
    requires
        0 <= start,
        start + total_len(lens) <= src.len(),
    ensures
        pumped(src, start, lens) == src.subrange(start, start + total_len(lens)),
    decreases lens.len(),
{
    if lens.len() > 0 {
        lemma_chunks_cover_part(src, start, lens.drop_last());
        assert(src.subrange(start, start + total_len(lens.drop_last())) + src.subrange(
            start + total_len(lens.drop_last()),
            start + total_len(lens),
        ) =~= src.subrange(start, start + total_len(lens)));
    } else {
        assert(src.subrange(start, start) =~= Seq::<u8>::empty());
    }
}

/// The parts of a split file: part `p` carries `[start_p, end_p)` of the
/// source, is written to the file name with `.EXT p` appended, and only part
/// 0 carries the plan (and so the header).
pub fn plan_split(info: &FileInfo, parting: &PartingInfo) -> (r: Result<Vec<Part>, PropErrno>)
    ensures
        parting.spec_count() > 0xffff <==> r is Err,
        r matches Ok(parts) ==> {
            &&& parts@.len() == parting.spec_count()
            &&& forall|p: int|
                0 <= p < parts@.len() ==> {
                    let part = #[trigger] parts@[p];
                    &&& part.wf()
                    &&& part.spec_start() == part_start(info.spec_size(), parting.spec_size(), p)
                    &&& part.spec_end() == part_end(info.spec_size(), parting.spec_size(), p)
                    &&& part.spec_next() == part.spec_start()
                    &&& part.spec_dst_name() == spec_part_name(
                        info.spec_name(),
                        info.spec_compression(),
                        p as nat,
                    )
                    &&& part.spec_parting_info() == if p == 0 {
                        Some(*parting)
                    } else {
                        None
                    }
                }
        },
{
    if *parting.count() > 0xffffu64 {
        return Err(PropErrno::TooManyTasks);
    }
    let ranges = plan_parts(parting, *info.size());
    let mut parts: Vec<Part> = Vec::new();
    let mut p: usize = 0;
    while p < ranges.len()
        invariant
            ranges@.len() == parting.spec_count(),
            parting.spec_count() <= 0xffff,
            p <= ranges@.len(),
            parts@.len() == p,
            forall|q: int|
                0 <= q < ranges@.len() ==> ranges@[q].0 == part_start(
                    info.spec_size(),
                    parting.spec_size(),
                    q,
                ) && ranges@[q].1 == part_end(info.spec_size(), parting.spec_size(), q),
            forall|q: int|
                0 <= q < p ==> {
                    let part = #[trigger] parts@[q];
                    &&& part.wf()
                    &&& part.spec_start() == part_start(info.spec_size(), parting.spec_size(), q)
                    &&& part.spec_end() == part_end(info.spec_size(), parting.spec_size(), q)
                    &&& part.spec_next() == part.spec_start()
                    &&& part.spec_dst_name() == spec_part_name(
                        info.spec_name(),
                        info.spec_compression(),
                        q as nat,
                    )
                    &&& part.spec_parting_info() == if q == 0 {
                        Some(*parting)
                    } else {
                        None
                    }
                },
        decreases ranges@.len() - p,
    {
        let (start, end) = ranges[p];
        proof {
            let s = parting.spec_size() as int;
            assert(p as int * s <= (p as int + 1) * s) by (nonlinear_arith)
                requires
                    s >= 0,
                    p >= 0,
            ;
            assert(start == part_start(info.spec_size(), parting.spec_size(), p as int));
            assert(end == part_start(info.spec_size(), parting.spec_size(), p as int + 1));
        }
        let name = info.append_part_num(&(p as u16));
        let first = if p == 0 {
            Some(*parting)
        } else {
            None
        };
        match Part::new(name, first, start, end) {
            Ok(part) => parts.push(part),
            Err(e) => return Err(e),
        }
        p = p + 1;
    }
    Ok(parts)
}

} // verus!
