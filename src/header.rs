use vstd::prelude::*;

verus! {

/// Bytes of the part size field.
pub const PART_SIZE_BYTES_LEN: usize = 8;
/// Bytes of the part count field.
pub const PART_COUNT_BYTES_LEN: usize = 2;
/// Bytes of a whole header.
pub const HEADER_BYTES_LEN: usize = 10;

/// The eight big-endian bytes of `v`.
pub open spec fn u64_be(v: u64) -> Seq<u8> {
    seq![
        ((v >> 56u64) & 0xffu64) as u8,
        ((v >> 48u64) & 0xffu64) as u8,
        ((v >> 40u64) & 0xffu64) as u8,
        ((v >> 32u64) & 0xffu64) as u8,
        ((v >> 24u64) & 0xffu64) as u8,
        ((v >> 16u64) & 0xffu64) as u8,
        ((v >> 8u64) & 0xffu64) as u8,
        (v & 0xffu64) as u8,
    ]
}

/// The two big-endian bytes of `v`.
pub open spec fn u16_be(v: u16) -> Seq<u8> {
    seq![((v >> 8u16) & 0xffu16) as u8, (v & 0xffu16) as u8]
}

/// The number that eight big-endian bytes stand for.
pub open spec fn be_u64(b: Seq<u8>) -> u64 {
    ((b[0] as u64) << 56u64) | ((b[1] as u64) << 48u64) | ((b[2] as u64) << 40u64) | ((
    b[3] as u64) << 32u64) | ((b[4] as u64) << 24u64) | ((b[5] as u64) << 16u64) | ((
    b[6] as u64) << 8u64) | (b[7] as u64)
}

/// The number that two big-endian bytes stand for.
pub open spec fn be_u16(b: Seq<u8>) -> u16 {
    ((b[0] as u16) << 8u16) | (b[1] as u16)
}

/// The ten header bytes for a part size and a part count.
pub open spec fn header_bytes(part_size: u64, part_count: u16) -> Seq<u8> {
    u64_be(part_size) + u16_be(part_count)
}

proof fn lemma_low_byte_u64(x: u64)
    ensures
        ((x & 0xffu64) as u8) as u64 == x & 0xffu64,
{
    assert(((x & 0xffu64) as u8) as u64 == x & 0xffu64) by (bit_vector);
}

proof fn lemma_low_byte_u16(x: u16)
    ensures
        ((x & 0xffu16) as u8) as u16 == x & 0xffu16,
{
    assert(((x & 0xffu16) as u8) as u16 == x & 0xffu16) by (bit_vector);
}

/// Decoding the eight big-endian bytes of a number gives the number back.
pub proof fn lemma_u64_round_trip(v: u64)
    ensures
        be_u64(u64_be(v)) == v,
{
    lemma_low_byte_u64(v >> 56u64);
    lemma_low_byte_u64(v >> 48u64);
    lemma_low_byte_u64(v >> 40u64);
    lemma_low_byte_u64(v >> 32u64);
    lemma_low_byte_u64(v >> 24u64);
    lemma_low_byte_u64(v >> 16u64);
    lemma_low_byte_u64(v >> 8u64);
    lemma_low_byte_u64(v);
    assert((((v >> 56u64) & 0xffu64) << 56u64) | (((v >> 48u64) & 0xffu64) << 48u64) | (((v
        >> 40u64) & 0xffu64) << 40u64) | (((v >> 32u64) & 0xffu64) << 32u64) | (((v >> 24u64)
        & 0xffu64) << 24u64) | (((v >> 16u64) & 0xffu64) << 16u64) | (((v >> 8u64) & 0xffu64)
        << 8u64) | (v & 0xffu64) == v) by (bit_vector);
}

/// Decoding the two big-endian bytes of a number gives the number back.
pub proof fn lemma_u16_round_trip(v: u16)
    ensures
        be_u16(u16_be(v)) == v,
{
    lemma_low_byte_u16(v >> 8u16);
    lemma_low_byte_u16(v);
    assert((((v >> 8u16) & 0xffu16) << 8u16) | (v & 0xffu16) == v) by (bit_vector);
}

/// The prefix of the first part of a split file: the part size as a
/// big-endian `u64`, then the part count as a big-endian `u16`.
pub struct Header([u8; 10]);

impl Header {
    pub closed spec fn view(&self) -> Seq<u8> {
        self.0@
    }

    /// The part size that the header records.
    pub open spec fn spec_part_size(&self) -> u64 {
        be_u64(self.view().subrange(0, 8))
    }

    /// The part count that the header records.
    pub open spec fn spec_part_count(&self) -> u16 {
        be_u16(self.view().subrange(8, 10))
    }

    /// A header of ten zero bytes.
    pub fn new() -> (r: Header)
        ensures
            r.view() == Seq::new(10, |i: int| 0u8),
    {
        let r = Header([0u8; 10]);
        assert(r.view() =~= Seq::new(10, |i: int| 0u8));
        r
    }

    /// The length of a header in bytes.
    pub fn len() -> (r: usize)
        ensures
            r == 10,
    {
        HEADER_BYTES_LEN
    }

    /// A header holding the given ten bytes.
    pub fn from_bytes(bytes: &[u8]) -> (r: Header)
        requires
            bytes@.len() == 10,
        ensures
            r.view() == bytes@,
    {
        let mut a = [0u8; 10];
        let mut i: usize = 0;
        while i < 10
            invariant
                bytes@.len() == 10,
                i <= 10,
                a@.len() == 10,
                forall|j: int| 0 <= j < i ==> a@[j] == bytes@[j],
            decreases 10 - i,
        {
            a[i] = bytes[i];
            i = i + 1;
        }
        assert(a@ =~= bytes@);
        Header(a)
    }

    /// A header recording a part size and a part count.
    pub fn with_parts(part_size: u64, part_count: u16) -> (r: Header)
        ensures
            r.view() == header_bytes(part_size, part_count),
            r.spec_part_size() == part_size,
            r.spec_part_count() == part_count,
    {
        let mut h = Header::new();
        h.set_part_size(&part_size);
        h.set_part_count(&part_count);
        h
    }

    /// The ten bytes.
    pub fn bytes(&self) -> (r: &[u8; 10])
        ensures
            r@ == self.view(),
    {
        &self.0
    }

    /// Writes the part size into the first eight bytes.
    pub fn set_part_size(&mut self, size: &u64)
        ensures
            final(self).view() == u64_be(*size) + old(self).view().subrange(8, 10),
            final(self).spec_part_size() == *size,
            final(self).view().subrange(8, 10) == old(self).view().subrange(8, 10),
    {
        let v = *size;
        self.0[0] = ((v >> 56u64) & 0xffu64) as u8;
        self.0[1] = ((v >> 48u64) & 0xffu64) as u8;
        self.0[2] = ((v >> 40u64) & 0xffu64) as u8;
        self.0[3] = ((v >> 32u64) & 0xffu64) as u8;
        self.0[4] = ((v >> 24u64) & 0xffu64) as u8;
        self.0[5] = ((v >> 16u64) & 0xffu64) as u8;
        self.0[6] = ((v >> 8u64) & 0xffu64) as u8;
        self.0[7] = (v & 0xffu64) as u8;
        assert(self.view() =~= u64_be(v) + old(self).view().subrange(8, 10));
        assert(self.view().subrange(0, 8) =~= u64_be(v));
        assert(self.view().subrange(8, 10) =~= old(self).view().subrange(8, 10));
        proof {
            lemma_u64_round_trip(v);
        }
    }

    /// Writes the part count into the last two bytes.
    pub fn set_part_count(&mut self, count: &u16)
        ensures
            final(self).view() == old(self).view().subrange(0, 8) + u16_be(*count),
            final(self).spec_part_count() == *count,
            final(self).view().subrange(0, 8) == old(self).view().subrange(0, 8),
    {
        let v = *count;
        self.0[8] = ((v >> 8u16) & 0xffu16) as u8;
        self.0[9] = (v & 0xffu16) as u8;
        assert(self.view() =~= old(self).view().subrange(0, 8) + u16_be(v));
        assert(self.view().subrange(8, 10) =~= u16_be(v));
        assert(self.view().subrange(0, 8) =~= old(self).view().subrange(0, 8));
        proof {
            lemma_u16_round_trip(v);
        }
    }

    /// The part size read from the first eight bytes.
    pub fn part_size(&self) -> (r: u64)
        ensures
            r == self.spec_part_size(),
    {
        ((self.0[0] as u64) << 56u64) | ((self.0[1] as u64) << 48u64) | ((self.0[2] as u64)
            << 40u64) | ((self.0[3] as u64) << 32u64) | ((self.0[4] as u64) << 24u64) | ((
        self.0[5] as u64) << 16u64) | ((self.0[6] as u64) << 8u64) | (self.0[7] as u64)
    }

    /// The part count read from the last two bytes.
    pub fn part_count(&self) -> (r: u16)
        ensures
            r == self.spec_part_count(),
    {
        ((self.0[8] as u16) << 8u16) | (self.0[9] as u16)
    }
}

/// Encoding a part size and a part count into a header and reading them back
/// recovers both.
pub proof fn lemma_header_round_trip(part_size: u64, part_count: u16)
    ensures
        be_u64(header_bytes(part_size, part_count).subrange(0, 8)) == part_size,
        be_u16(header_bytes(part_size, part_count).subrange(8, 10)) == part_count,
        header_bytes(part_size, part_count).len() == 10,
{
    let b = header_bytes(part_size, part_count);
    assert(b.subrange(0, 8) =~= u64_be(part_size));
    assert(b.subrange(8, 10) =~= u16_be(part_count));
    lemma_u64_round_trip(part_size);
    lemma_u16_round_trip(part_count);
}

} // verus!
