use vstd::prelude::*;

verus! {

/// The view of an optional vector: the sequence it holds, if any.
pub open spec fn opt_vec_view<T>(v: Option<Vec<T>>) -> Option<Seq<T>> {
    match v {
        Some(x) => Some(x@),
        None => None,
    }
}

/// The unsigned integer encoded by eight bytes in little-endian order.
pub open spec fn spec_u64_le(s: Seq<u8>) -> u64
    recommends
        s.len() == 8,
{
    (s[0] + s[1] * 0x100 + s[2] * 0x1_0000 + s[3] * 0x100_0000 + s[4] * 0x1_0000_0000
        + s[5] * 0x100_0000_0000 + s[6] * 0x1_0000_0000_0000 + s[7]
        * 0x100_0000_0000_0000) as u64
}

/// Decode the eight bytes at `offset` as a little-endian unsigned integer.
pub fn read_u64_le(data: &[u8], offset: usize) -> (r: u64)
    requires
        offset + 8 <= data@.len(),
    ensures
        r == spec_u64_le(data@.subrange(offset as int, offset as int + 8)),
{
    let r = (data[offset] as u64) + (data[offset + 1] as u64) * 0x100 + (data[offset + 2] as u64)
        * 0x1_0000 + (data[offset + 3] as u64) * 0x100_0000 + (data[offset + 4] as u64)
        * 0x1_0000_0000 + (data[offset + 5] as u64) * 0x100_0000_0000 + (data[offset + 6] as u64)
        * 0x1_0000_0000_0000 + (data[offset + 7] as u64) * 0x100_0000_0000_0000;
    proof {
        let s = data@.subrange(offset as int, offset as int + 8);
        assert forall|i: int| 0 <= i < 8 implies s[i] == data@[offset + i] by {}
    }
    r
}

/// The base file offset carried in the raw 64-bit memory-list stream: the
/// eight bytes at byte offset 8, little-endian. A raw stream shorter than 16
/// bytes carries no such field.
pub open spec fn spec_memory64_base(raw: Seq<u8>) -> Option<u64> {
    if raw.len() >= 16 {
        Some(spec_u64_le(raw.subrange(8, 16)))
    } else {
        None
    }
}

/// Read the 64-bit memory-list stream's base file offset from its raw bytes,
/// or report that the raw stream is too short to hold one.
pub fn memory64_base_offset(raw: &[u8]) -> (r: Option<u64>)
    ensures
        r == spec_memory64_base(raw@),
{
    if raw.len() >= 16 {
        Some(read_u64_le(raw, 8))
    } else {
        None
    }
}

} // verus!
