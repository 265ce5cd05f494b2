use minidump_bn::bytes::{memory64_base_offset, read_u64_le};
use minidump_bn::errors::LoadError;
use minidump_bn::segments::{
    collect_segments, collect_segments_32, collect_segments_64, MemoryRegion32, MemoryRegion64,
    SegmentData,
};

#[test]
fn from_addresses_and_size_spans_both_ranges() {
    let seg = SegmentData::from_addresses_and_size(0x1000, 0x400000, 0x2000);
    assert_eq!(seg.rva_range.start, 0x1000);
    assert_eq!(seg.rva_range.end, 0x3000);
    assert_eq!(seg.mapped_addr_range.start, 0x400000);
    assert_eq!(seg.mapped_addr_range.end, 0x402000);
}

#[test]
fn collect_32_emits_entries_verbatim_in_stream_order() {
    let regions = vec![
        MemoryRegion32::new(0x1000, 0x400000, 0x2000),
        MemoryRegion32::new(0x5000, 0x7fff0000, 0x800),
        MemoryRegion32::new(0x5800, 0x10, 0x10),
    ];
    let table = collect_segments_32(&regions);
    assert_eq!(table.len(), 3);
    for (seg, reg) in table.iter().zip(regions.iter()) {
        assert_eq!(seg.rva_range.start, reg.rva);
        assert_eq!(seg.rva_range.end, reg.rva + reg.size);
        assert_eq!(seg.mapped_addr_range.start, reg.base_address);
        assert_eq!(seg.mapped_addr_range.end, reg.base_address + reg.size);
    }
}

#[test]
fn collect_32_is_independent_of_64_bit_content() {
    let regions = vec![MemoryRegion32::new(0x40, 0x1234, 0x40)];
    let with_64 = collect_segments(
        &Some(regions.clone()),
        Some(0x9000),
        &Some(vec![MemoryRegion64::new(0xaaaa0000, 0x100)]),
    )
    .unwrap();
    let without_64 = collect_segments(&Some(regions), None, &None).unwrap();
    assert_eq!(with_64[0], without_64[0]);
}

#[test]
fn collect_32_rejects_a_stream_whose_ranges_overflow() {
    let regions = vec![
        MemoryRegion32::new(0x1000, 0x400000, 0x2000),
        MemoryRegion32::new(u64::MAX - 1, 0x0, 0x10),
    ];
    assert!(collect_segments_32(&regions).is_empty());
}

#[test]
fn collect_64_accumulates_file_offsets_from_base() {
    let base: u64 = 0x2000;
    let regions = vec![
        MemoryRegion64::new(0x7f0000000000, 0x1000),
        MemoryRegion64::new(0x7f0000004000, 0x300),
        MemoryRegion64::new(0x7f0000008000, 0xd00),
    ];
    let table = collect_segments_64(base, &regions);
    assert_eq!(table.len(), 3);
    assert_eq!(table[0].rva_range.start, 0x2000);
    assert_eq!(table[0].rva_range.end, 0x3000);
    assert_eq!(table[1].rva_range.start, 0x3000);
    assert_eq!(table[1].rva_range.end, 0x3300);
    assert_eq!(table[2].rva_range.start, 0x3300);
    assert_eq!(table[2].rva_range.end, 0x4000);
    // Each file range begins exactly where its predecessor ended.
    for pair in table.windows(2) {
        assert_eq!(pair[1].rva_range.start, pair[0].rva_range.end);
    }
    // Virtual ranges come verbatim from the entries.
    assert_eq!(table[1].mapped_addr_range.start, 0x7f0000004000);
    assert_eq!(table[1].mapped_addr_range.end, 0x7f0000004300);
}

#[test]
fn collect_64_rejects_a_stream_that_overflows_the_cursor() {
    let regions = vec![
        MemoryRegion64::new(0x1000, u64::MAX - 0x10),
        MemoryRegion64::new(0x2000, 0x100),
    ];
    assert!(collect_segments_64(0x20, &regions).is_empty());
}

#[test]
fn unified_table_is_32_entries_then_64_entries() {
    let mem32 = vec![MemoryRegion32::new(0x100, 0x1000, 0x80)];
    let mem64 = vec![MemoryRegion64::new(0x2000, 0x40), MemoryRegion64::new(0x3000, 0x40)];
    let table = collect_segments(&Some(mem32), Some(0x500), &Some(mem64)).unwrap();
    assert_eq!(table.len(), 3);
    assert_eq!(table[0].rva_range.start, 0x100);
    assert_eq!(table[1].rva_range.start, 0x500);
    assert_eq!(table[2].rva_range.start, 0x540);
}

#[test]
fn both_streams_absent_is_reported() {
    assert_eq!(
        collect_segments(&None, None, &None),
        Err(LoadError::MemoryListUnavailable)
    );
    // A base offset without an entry list is not a readable 64-bit path.
    assert_eq!(
        collect_segments(&None, Some(0x2000), &None),
        Err(LoadError::MemoryListUnavailable)
    );
}

#[test]
fn one_empty_but_present_stream_yields_an_empty_table() {
    let table = collect_segments(&Some(Vec::new()), None, &None).unwrap();
    assert!(table.is_empty());
}

#[test]
fn read_u64_le_decodes_little_endian() {
    let data = [0xaau8, 0x01, 0x02, 0x03, 0x04, 0x05, 0x06, 0x07, 0x08, 0xbb];
    assert_eq!(read_u64_le(&data, 1), 0x0807060504030201);
}

#[test]
fn memory64_base_offset_reads_bytes_8_to_16() {
    let mut raw = vec![0u8; 32];
    raw[8] = 0x00;
    raw[9] = 0x20; // 0x2000, little-endian
    assert_eq!(memory64_base_offset(&raw), Some(0x2000));
    assert_eq!(memory64_base_offset(&raw[..16]), Some(0x2000));
    assert_eq!(memory64_base_offset(&raw[..15]), None);
    assert_eq!(memory64_base_offset(b""), None);
}
