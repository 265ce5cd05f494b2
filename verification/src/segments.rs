use vstd::prelude::*;

use crate::bytes::opt_vec_view;
use crate::errors::LoadError;

verus! {

/// A half-open interval of 64-bit offsets or addresses.
#[derive(Clone, Copy, Debug, PartialEq, Eq, Structural)]
pub struct Span {
    pub start: u64,
    pub end: u64,
}

impl Span {
    /// A span is well formed when it does not run backwards.
    pub open spec fn wf(self) -> bool {
        self.start <= self.end
    }

    /// The number of bytes the span covers.
    pub open spec fn len(self) -> int {
        self.end - self.start
    }
}

/// One unified segment: the container byte range that backs a virtual address
/// range of equal length in the reconstructed address space.
#[derive(Clone, Copy, Debug, PartialEq, Eq, Structural)]
pub struct SegmentData {
    /// File range: offsets into the container's backing bytes.
    pub rva_range: Span,
    /// Virtual range: addresses in the reconstructed address space.
    pub mapped_addr_range: Span,
}

impl SegmentData {
    /// Both ranges are forward and of equal length.
    pub open spec fn wf(self) -> bool {
        self.rva_range.wf() && self.mapped_addr_range.wf() && self.rva_range.len()
            == self.mapped_addr_range.len()
    }

    /// The common length of the two ranges.
    pub open spec fn size(self) -> int {
        self.rva_range.len()
    }

    /// Build a segment from a file offset, a virtual base address and a size,
    /// as the descriptor spanning `size` bytes from each.
    pub fn from_addresses_and_size(rva: u64, mapped_addr: u64, size: u64) -> (r: SegmentData)
        requires
            rva + size <= u64::MAX,
            mapped_addr + size <= u64::MAX,
        ensures
            r == (SegmentData {
                rva_range: Span { start: rva, end: (rva + size) as u64 },
                mapped_addr_range: Span { start: mapped_addr, end: (mapped_addr + size) as u64 },
            }),
            r.wf(),
            r.size() == size,
    {
        SegmentData {
            rva_range: Span { start: rva, end: rva + size },
            mapped_addr_range: Span { start: mapped_addr, end: mapped_addr + size },
        }
    }
}

/// An entry of the 32-bit memory-region stream: it names its own file offset,
/// virtual base address and size.
#[derive(Clone, Copy, Debug, PartialEq, Eq, Structural)]
pub struct MemoryRegion32 {
    pub rva: u64,
    pub base_address: u64,
    pub size: u64,
}

impl MemoryRegion32 {
    pub fn new(rva: u64, base_address: u64, size: u64) -> (r: MemoryRegion32)
        ensures
            r == (MemoryRegion32 { rva, base_address, size }),
    {
        MemoryRegion32 { rva, base_address, size }
    }
}

/// An entry of the 64-bit memory-region stream: it names a virtual base
/// address and size, but no file offset of its own.
#[derive(Clone, Copy, Debug, PartialEq, Eq, Structural)]
pub struct MemoryRegion64 {
    pub base_address: u64,
    pub size: u64,
}

impl MemoryRegion64 {
    pub fn new(base_address: u64, size: u64) -> (r: MemoryRegion64)
        ensures
            r == (MemoryRegion64 { base_address, size }),
    {
        MemoryRegion64 { base_address, size }
    }
}

/// A 32-bit entry's ranges both stay within the 64-bit offset space.
pub open spec fn region32_fits(r: MemoryRegion32) -> bool {
    r.rva + r.size <= u64::MAX && r.base_address + r.size <= u64::MAX
}

pub open spec fn all_regions32_fit(rs: Seq<MemoryRegion32>) -> bool {
    forall|i: int| 0 <= i < rs.len() ==> region32_fits(rs[i])
}

/// The segment a 32-bit entry describes, read directly off its fields.
pub open spec fn segment_of_region32(r: MemoryRegion32) -> SegmentData {
    SegmentData {
        rva_range: Span { start: r.rva, end: (r.rva + r.size) as u64 },
        mapped_addr_range: Span { start: r.base_address, end: (r.base_address + r.size) as u64 },
    }
}

/// The 32-bit path's table: one segment per entry, in stream order.
pub open spec fn segments_of_regions32(rs: Seq<MemoryRegion32>) -> Seq<SegmentData> {
    rs.map_values(|r: MemoryRegion32| segment_of_region32(r))
}

/// Segment collector, 32-bit path: emit one segment per entry in stream
/// order, each pair taken verbatim from the entry. A stream whose entries do
/// not fit the 64-bit offset space is malformed and contributes nothing.
pub fn collect_segments_32(regions: &Vec<MemoryRegion32>) -> (r: Vec<SegmentData>)
    ensures
        all_regions32_fit(regions@) ==> r@ == segments_of_regions32(regions@),
        !all_regions32_fit(regions@) ==> r@ == Seq::<SegmentData>::empty(),
{
    let mut out: Vec<SegmentData> = Vec::new();
    let mut i: usize = 0;
    while i < regions.len()
        invariant
            i <= regions@.len(),
            forall|j: int| 0 <= j < i ==> region32_fits(regions@[j]),
            out@ == segments_of_regions32(regions@.take(i as int)),
        decreases regions@.len() - i,
    {
        let reg = regions[i];
        if reg.rva > u64::MAX - reg.size || reg.base_address > u64::MAX - reg.size {
            assert(!region32_fits(regions@[i as int]));
            return Vec::new();
        }
        out.push(SegmentData::from_addresses_and_size(reg.rva, reg.base_address, reg.size));
        proof {
            assert(out@ =~= segments_of_regions32(regions@.take(i + 1)));
        }
        i += 1;
    }
    proof {
        assert(regions@.take(regions@.len() as int) =~= regions@);
    }
    out
}

/// The total size of a run of 64-bit entries.
pub open spec fn total_size64(rs: Seq<MemoryRegion64>) -> int
    decreases rs.len(),
{
    if rs.len() == 0 {
        0
    } else {
        total_size64(rs.drop_last()) + rs.last().size
    }
}

pub proof fn lemma_total_size64_nonneg(rs: Seq<MemoryRegion64>)
    ensures
        total_size64(rs) >= 0,
    decreases rs.len(),
{
    if rs.len() > 0 {
        lemma_total_size64_nonneg(rs.drop_last());
    }
}

/// Taking one more entry adds exactly that entry's size.
pub proof fn lemma_total_size64_take_step(rs: Seq<MemoryRegion64>, i: int)
    requires
        0 <= i < rs.len(),
    ensures
        total_size64(rs.take(i + 1)) == total_size64(rs.take(i)) + rs[i].size,
{
    assert(rs.take(i + 1).drop_last() =~= rs.take(i));
    assert(rs.take(i + 1).last() == rs[i]);
}

/// A prefix never totals more than the whole run.
pub proof fn lemma_total_size64_take_le(rs: Seq<MemoryRegion64>, i: int)
    requires
        0 <= i <= rs.len(),
    ensures
        total_size64(rs.take(i)) <= total_size64(rs),
    decreases rs.len() - i,
{
    if i == rs.len() {
        assert(rs.take(i) =~= rs);
    } else {
        lemma_total_size64_take_step(rs, i);
        lemma_total_size64_take_le(rs, i + 1);
    }
}

/// A 64-bit entry's virtual range stays within the 64-bit address space.
pub open spec fn region64_fits(r: MemoryRegion64) -> bool {
    r.base_address + r.size <= u64::MAX
}

/// The whole 64-bit stream fits: the cumulative file cursor never leaves the
/// 64-bit offset space, and every entry's virtual range fits.
pub open spec fn regions64_fit(base: int, rs: Seq<MemoryRegion64>) -> bool {
    base + total_size64(rs) <= u64::MAX && (forall|i: int|
        0 <= i < rs.len() ==> region64_fits(rs[i]))
}

/// The segment of the 64-bit entry at position `i`: its file range starts at
/// the base offset plus the sizes of all earlier entries.
pub open spec fn segment64_at(base: int, rs: Seq<MemoryRegion64>, i: int) -> SegmentData {
    SegmentData {
        rva_range: Span {
            start: (base + total_size64(rs.take(i))) as u64,
            end: (base + total_size64(rs.take(i + 1))) as u64,
        },
        mapped_addr_range: Span {
            start: rs[i].base_address,
            end: (rs[i].base_address + rs[i].size) as u64,
        },
    }
}

/// The 64-bit path's table: one segment per entry, in stream order, with
/// cumulatively accumulated file offsets.
pub open spec fn segments_of_regions64(base: int, rs: Seq<MemoryRegion64>) -> Seq<SegmentData> {
    Seq::new(rs.len(), |i: int| segment64_at(base, rs, i))
}

/// Segment collector, 64-bit path: walk the entries in stream order, keeping
/// a file-offset cursor that starts at `base_rva` and advances by each
/// entry's size; each segment's file range starts at the cursor. A stream
/// that would run the cursor or an address range past the 64-bit space is
/// malformed and contributes nothing.
pub fn collect_segments_64(base_rva: u64, regions: &Vec<MemoryRegion64>) -> (r: Vec<SegmentData>)
    ensures
        regions64_fit(base_rva as int, regions@) ==> r@ == segments_of_regions64(
            base_rva as int,
            regions@,
        ),
        !regions64_fit(base_rva as int, regions@) ==> r@ == Seq::<SegmentData>::empty(),
{
    let mut out: Vec<SegmentData> = Vec::new();
    let mut cursor: u64 = base_rva;
    let mut i: usize = 0;
    proof {
        assert(regions@.take(0) =~= Seq::<MemoryRegion64>::empty());
    }
    while i < regions.len()
        invariant
            i <= regions@.len(),
            cursor == base_rva + total_size64(regions@.take(i as int)),
            forall|j: int| 0 <= j < i ==> region64_fits(regions@[j]),
            out@.len() == i,
            forall|j: int|
                0 <= j < i ==> out@[j] == segment64_at(base_rva as int, regions@, j),
        decreases regions@.len() - i,
    {
        let reg = regions[i];
        if reg.size > u64::MAX - cursor {
            proof {
                lemma_total_size64_take_step(regions@, i as int);
                lemma_total_size64_take_le(regions@, i + 1);
            }
            return Vec::new();
        }
        if reg.size > u64::MAX - reg.base_address {
            assert(!region64_fits(regions@[i as int]));
            return Vec::new();
        }
        out.push(SegmentData::from_addresses_and_size(cursor, reg.base_address, reg.size));
        proof {
            lemma_total_size64_take_step(regions@, i as int);
        }
        cursor = cursor + reg.size;
        i += 1;
    }
    proof {
        assert(regions@.take(regions@.len() as int) =~= regions@);
        assert(regions64_fit(base_rva as int, regions@));
        assert(out@ =~= segments_of_regions64(base_rva as int, regions@));
    }
    out
}

/// Cumulative-offset correctness of the 64-bit path: the first segment's file
/// range starts at the base offset, each segment's file range is exactly its
/// entry's size long, and the file range of every later segment starts
/// exactly where its predecessor's ended.
pub proof fn lemma_segments64_cumulative(base: u64, rs: Seq<MemoryRegion64>, i: int)
    requires
        regions64_fit(base as int, rs),
        0 <= i < rs.len(),
    ensures
        segments_of_regions64(base as int, rs)[0].rva_range.start == base,
        segments_of_regions64(base as int, rs)[i].rva_range.end - segments_of_regions64(
            base as int,
            rs,
        )[i].rva_range.start == rs[i].size,
        i >= 1 ==> segments_of_regions64(base as int, rs)[i].rva_range.start
            == segments_of_regions64(base as int, rs)[i - 1].rva_range.end,
    decreases i,
{
    assert(rs.take(0) =~= Seq::<MemoryRegion64>::empty());
    lemma_segment64_at_bounds(base, rs, i);
    if i >= 1 {
        lemma_segments64_cumulative(base, rs, i - 1);
    }
}

/// Under `regions64_fit`, the cursor values that bound segment `i`'s file
/// range both fit in 64 bits, so the truncating casts in `segment64_at` are
/// exact.
proof fn lemma_segment64_at_bounds(base: u64, rs: Seq<MemoryRegion64>, i: int)
    requires
        regions64_fit(base as int, rs),
        0 <= i < rs.len(),
    ensures
        0 <= base + total_size64(rs.take(i)) <= u64::MAX,
        0 <= base + total_size64(rs.take(i + 1)) <= u64::MAX,
        segments_of_regions64(base as int, rs)[i] == segment64_at(base as int, rs, i),
        base + total_size64(rs.take(i + 1)) == base + total_size64(rs.take(i)) + rs[i].size,
{
    lemma_total_size64_nonneg(rs.take(i));
    lemma_total_size64_nonneg(rs.take(i + 1));
    lemma_total_size64_take_le(rs, i);
    lemma_total_size64_take_le(rs, i + 1);
    lemma_total_size64_take_step(rs, i);
}

/// The segments the 32-bit path produces are well formed.
pub proof fn lemma_segments32_wf(rs: Seq<MemoryRegion32>)
    requires
        all_regions32_fit(rs),
    ensures
        forall|i: int|
            0 <= i < segments_of_regions32(rs).len() ==> (#[trigger] segments_of_regions32(
                rs,
            )[i]).wf(),
{
    assert forall|i: int|
        0 <= i < segments_of_regions32(rs).len() implies (#[trigger] segments_of_regions32(
        rs,
    )[i]).wf() by {
        assert(region32_fits(rs[i]));
    }
}

/// The segments the 64-bit path produces are well formed.
pub proof fn lemma_segments64_wf(base: u64, rs: Seq<MemoryRegion64>)
    requires
        regions64_fit(base as int, rs),
    ensures
        forall|i: int|
            0 <= i < segments_of_regions64(base as int, rs).len() ==> (
            #[trigger] segments_of_regions64(base as int, rs)[i]).wf(),
{
    assert forall|i: int|
        0 <= i < segments_of_regions64(base as int, rs).len() implies (
    #[trigger] segments_of_regions64(base as int, rs)[i]).wf() by {
        lemma_segment64_at_bounds(base, rs, i);
        assert(region64_fits(rs[i]));
    }
}

/// The 32-bit path's contribution to the unified table: empty when the stream
/// is absent or malformed.
pub open spec fn spec_segments32_part(mem32: Option<Seq<MemoryRegion32>>) -> Seq<SegmentData> {
    match mem32 {
        Some(rs) => if all_regions32_fit(rs) {
            segments_of_regions32(rs)
        } else {
            Seq::empty()
        },
        None => Seq::empty(),
    }
}

/// The 64-bit path's contribution: empty unless both the base offset and the
/// entry list are available and the stream fits.
pub open spec fn spec_segments64_part(
    base: Option<u64>,
    mem64: Option<Seq<MemoryRegion64>>,
) -> Seq<SegmentData> {
    match (base, mem64) {
        (Some(b), Some(rs)) => if regions64_fit(b as int, rs) {
            segments_of_regions64(b as int, rs)
        } else {
            Seq::empty()
        },
        _ => Seq::empty(),
    }
}

/// The 32-bit path writes the head of the unified table: with entries that
/// all fit the offset space, the table's first entries are those exact
/// (file range, virtual range) pairs in stream order, whatever the 64-bit
/// path contributed after them.
pub proof fn lemma_table_starts_with_32_bit_entries(
    regions: Seq<MemoryRegion32>,
    base: Option<u64>,
    mem64: Option<Seq<MemoryRegion64>>,
)
    requires
        all_regions32_fit(regions),
    ensures
        forall|i: int|
            0 <= i < regions.len() ==> (spec_segments32_part(Some(regions))
                + spec_segments64_part(base, mem64))[i] == segment_of_region32(regions[i]),
{
    let part32 = spec_segments32_part(Some(regions));
    let part64 = spec_segments64_part(base, mem64);
    assert forall|i: int| 0 <= i < regions.len() implies (part32 + part64)[i]
        == segment_of_region32(regions[i]) by {
        assert((part32 + part64)[i] == part32[i]);
    }
}

/// Unified segment table: the 32-bit path's entries followed by the 64-bit
/// path's, in discovery order, not deduplicated or merged. Each path that is
/// absent or malformed contributes nothing; only when neither path has a
/// stream to read is `MemoryListUnavailable` reported.
pub fn collect_segments(
    mem32: &Option<Vec<MemoryRegion32>>,
    base_rva: Option<u64>,
    mem64: &Option<Vec<MemoryRegion64>>,
) -> (r: Result<Vec<SegmentData>, LoadError>)
    ensures
        (mem32 is None && (base_rva is None || mem64 is None)) ==> r == Err::<
            Vec<SegmentData>,
            LoadError,
        >(LoadError::MemoryListUnavailable),
        !(mem32 is None && (base_rva is None || mem64 is None)) ==> (r matches Ok(v) && v@
            == spec_segments32_part(opt_vec_view(*mem32)) + spec_segments64_part(
                base_rva,
                opt_vec_view(*mem64),
            )),
{
    if mem32.is_none() && (base_rva.is_none() || mem64.is_none()) {
        return Err(LoadError::MemoryListUnavailable);
    }
    let mut table: Vec<SegmentData> = match mem32 {
        Some(regions) => collect_segments_32(regions),
        None => Vec::new(),
    };
    let mut table64: Vec<SegmentData> = match (base_rva, mem64) {
        (Some(b), Some(regions)) => collect_segments_64(b, regions),
        _ => Vec::new(),
    };
    proof {
        assert(table@ == spec_segments32_part(opt_vec_view(*mem32)));
        assert(table64@ == spec_segments64_part(base_rva, opt_vec_view(*mem64)));
    }
    table.append(&mut table64);
    Ok(table)
}

} // verus!
