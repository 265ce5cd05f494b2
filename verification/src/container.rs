use vstd::prelude::*;

use minidump::MinidumpStream;

use crate::bytes::opt_vec_view;
use crate::platform::{ByteOrder, CpuArch, OsFamily};
use crate::segments::{MemoryRegion32, MemoryRegion64};

verus! {

/// The opened crash-dump container of the `minidump` crate, carried opaquely
/// between the trusted readers below.
#[verifier::external_type_specification]
#[verifier::external_body]
#[verifier::reject_recursive_types(T)]
pub struct ExMinidump<'a, T>(minidump::Minidump<'a, T>) where T: std::ops::Deref<Target = [u8]>;

/// The `minidump` crate's CPU architecture code, opaque until converted.
#[verifier::external_type_specification]
#[verifier::external_body]
pub struct ExCpu(minidump::system_info::Cpu);

/// The `minidump` crate's operating-system code, opaque until converted.
#[verifier::external_type_specification]
#[verifier::external_body]
pub struct ExOs(minidump::system_info::Os);

/// The container bytes an opened container was read from. `Minidump::read`
/// keeps the input it was handed, so every later extraction is a function of
/// these bytes alone.
pub uninterp spec fn dump_source(md: minidump::Minidump<'static, Vec<u8>>) -> Seq<u8>;

/// Whether `minidump::Minidump::read` accepts these bytes as a container.
pub uninterp spec fn spec_container_opens(data: Seq<u8>) -> bool;

/// What the container's system-information stream yields for these bytes:
/// the (cpu, os) codes, already in this library's terms, or `None` when the
/// stream is absent or does not parse.
pub uninterp spec fn spec_system_codes(data: Seq<u8>) -> Option<(CpuArch, OsFamily)>;

/// The global byte order `minidump::Minidump::read` records for these bytes.
pub uninterp spec fn spec_byte_order(data: Seq<u8>) -> ByteOrder;

/// What the 32-bit memory-list stream yields for these bytes, in the order
/// `by_addr` hands the regions out, or `None` when the stream is absent or
/// does not parse.
pub uninterp spec fn spec_mem32(data: Seq<u8>) -> Option<Seq<MemoryRegion32>>;

/// The raw bytes of the 64-bit memory-list stream in these bytes, or `None`
/// when that stream is absent.
pub uninterp spec fn spec_mem64_raw(data: Seq<u8>) -> Option<Seq<u8>>;

/// What the typed 64-bit memory-list stream yields for these bytes, in
/// stream order, or `None` when the stream is absent or does not parse.
pub uninterp spec fn spec_mem64(data: Seq<u8>) -> Option<Seq<MemoryRegion64>>;

/// Relies on `minidump::Minidump::read`: parses the container's header and
/// stream directory, `None` when the bytes are not a readable container. The
/// result is a function of the bytes alone, and the opened container keeps
/// them as its backing data.
#[verifier::external_body]
pub(crate) fn open_container(data: Vec<u8>) -> (r: Option<minidump::Minidump<'static, Vec<u8>>>)
    ensures
        r is Some <==> spec_container_opens(data@),
        r is Some ==> dump_source(r->0) == data@,
{
    minidump::Minidump::read(data).ok()
}

/// Relies on `minidump::Minidump::get_stream::<MinidumpSystemInfo>`: hands
/// out the system-information stream's cpu and os codes, converted to this
/// library's terms, when that stream is present and parses; `None` otherwise.
/// The result is a function of the container bytes alone.
#[verifier::external_body]
pub(crate) fn read_system_info(md: &minidump::Minidump<'static, Vec<u8>>) -> (r: Option<
    (CpuArch, OsFamily),
>)
    ensures
        r == spec_system_codes(dump_source(*md)),
{
    md.get_stream::<minidump::MinidumpSystemInfo>().ok().map(
        |si| (cpu_arch_of(si.cpu), os_family_of(si.os)),
    )
}

/// Relies on the `minidump::Minidump::endian` field and `scroll::Endian`'s
/// two variants: the container's global byte order, fixed by `read` from the
/// container bytes alone.
#[verifier::external_body]
pub(crate) fn read_byte_order(md: &minidump::Minidump<'static, Vec<u8>>) -> (r: ByteOrder)
    ensures
        r == spec_byte_order(dump_source(*md)),
{
    match md.endian {
        minidump::Endian::Little => ByteOrder::Little,
        minidump::Endian::Big => ByteOrder::Big,
    }
}

/// Relies on telling `minidump::system_info::Cpu`'s variants apart, moving
/// the unknown code through unchanged. The enum is non-exhaustive: a variant
/// this crate version does not name is treated as unknown, with code 0.
#[verifier::external_body]
fn cpu_arch_of(cpu: minidump::system_info::Cpu) -> (r: CpuArch) {
    match cpu {
        minidump::system_info::Cpu::X86 => CpuArch::X86,
        minidump::system_info::Cpu::X86_64 => CpuArch::X86_64,
        minidump::system_info::Cpu::Ppc => CpuArch::Ppc,
        minidump::system_info::Cpu::Ppc64 => CpuArch::Ppc64,
        minidump::system_info::Cpu::Sparc => CpuArch::Sparc,
        minidump::system_info::Cpu::Arm => CpuArch::Arm,
        minidump::system_info::Cpu::Arm64 => CpuArch::Arm64,
        minidump::system_info::Cpu::Mips => CpuArch::Mips,
        minidump::system_info::Cpu::Mips64 => CpuArch::Mips64,
        minidump::system_info::Cpu::Unknown(code) => CpuArch::Unknown(code),
        _ => CpuArch::Unknown(0),
    }
}

/// Relies on telling `minidump::system_info::Os`'s variants apart, moving the
/// unknown code through unchanged.
#[verifier::external_body]
fn os_family_of(os: minidump::system_info::Os) -> (r: OsFamily) {
    match os {
        minidump::system_info::Os::Windows => OsFamily::Windows,
        minidump::system_info::Os::MacOs => OsFamily::MacOs,
        minidump::system_info::Os::Ios => OsFamily::Ios,
        minidump::system_info::Os::Linux => OsFamily::Linux,
        minidump::system_info::Os::Solaris => OsFamily::Solaris,
        minidump::system_info::Os::Android => OsFamily::Android,
        minidump::system_info::Os::Ps3 => OsFamily::Ps3,
        minidump::system_info::Os::NaCl => OsFamily::NaCl,
        minidump::system_info::Os::Unknown(code) => OsFamily::Unknown(code),
    }
}

/// Relies on `minidump::Minidump::get_stream::<MinidumpMemoryList>` and
/// `by_addr`: the 32-bit memory regions `by_addr` hands out, in ascending
/// base-address order (its range map can drop a region of a malformed dump
/// that overlaps another), each converted to its (file offset, base address,
/// size) triple; `None` when the stream is absent or does not parse. The
/// result is a function of the container bytes alone.
#[verifier::external_body]
pub(crate) fn read_memory_list(md: &minidump::Minidump<'static, Vec<u8>>) -> (r: Option<
    Vec<MemoryRegion32>,
>)
    ensures
        opt_vec_view(r) == spec_mem32(dump_source(*md)),
{
    match md.get_stream::<minidump::MinidumpMemoryList>() {
        Ok(list) => Some(
            list.by_addr().map(
                |m| MemoryRegion32::new(m.desc.memory.rva as u64, m.base_address, m.size),
            ).collect(),
        ),
        Err(_) => None,
    }
}

/// Relies on `minidump::Minidump::get_stream::<MinidumpMemory64List>` and
/// `iter`: the 64-bit memory regions in stream order, each converted to its
/// (base address, size) pair; `None` when the stream is absent or does not
/// parse. The result is a function of the container bytes alone.
#[verifier::external_body]
pub(crate) fn read_memory64_list(md: &minidump::Minidump<'static, Vec<u8>>) -> (r: Option<
    Vec<MemoryRegion64>,
>)
    ensures
        opt_vec_view(r) == spec_mem64(dump_source(*md)),
{
    match md.get_stream::<minidump::MinidumpMemory64List>() {
        Ok(list) => Some(
            list.iter().map(|m| MemoryRegion64::new(m.base_address, m.size)).collect(),
        ),
        Err(_) => None,
    }
}

/// Relies on `minidump::Minidump::get_raw_stream` with
/// `MinidumpMemory64List::STREAM_TYPE`: the raw bytes of the 64-bit
/// memory-list stream, `None` when that stream is absent. The result is a
/// function of the container bytes alone.
#[verifier::external_body]
pub(crate) fn read_raw_memory64_stream(md: &minidump::Minidump<'static, Vec<u8>>) -> (r: Option<
    Vec<u8>,
>)
    ensures
        opt_vec_view(r) == spec_mem64_raw(dump_source(*md)),
{
    md.get_raw_stream(minidump::MinidumpMemory64List::STREAM_TYPE).ok().map(|s| s.to_vec())
}

} // verus!
