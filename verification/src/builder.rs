use vstd::prelude::*;

use crate::bytes::{memory64_base_offset, opt_vec_view, spec_memory64_base};
use crate::container::{
    open_container, read_byte_order, read_memory64_list, read_memory_list,
    read_raw_memory64_stream, read_system_info, spec_byte_order, spec_container_opens, spec_mem32,
    spec_mem64, spec_mem64_raw, spec_system_codes,
};
use crate::errors::LoadError;
use crate::platform::{resolve_platform, spec_resolve, PlatformId, SystemDescriptor};
use crate::segments::{
    all_regions32_fit, collect_segments, lemma_segments32_wf, lemma_segments64_wf, regions64_fit,
    spec_segments32_part, spec_segments64_part, MemoryRegion32, MemoryRegion64, SegmentData,
};

verus! {

/// Everything address-space construction decides before the host applies it:
/// the resolved default platform and the unified segment table.
#[derive(Debug)]
pub struct ViewPlan {
    pub platform: PlatformId,
    pub segments: Vec<SegmentData>,
}

impl ViewPlan {
    /// Every planned segment maps a file range to a virtual range of equal
    /// length.
    pub open spec fn wf(self) -> bool {
        forall|i: int| 0 <= i < self.segments@.len() ==> (#[trigger] self.segments@[i]).wf()
    }
}

/// The system descriptor these container bytes carry: the extracted (cpu,
/// os) codes together with the container's global byte order, or `None` when
/// the system-information stream is absent or unreadable.
pub open spec fn spec_system_info(data: Seq<u8>) -> Option<SystemDescriptor> {
    match spec_system_codes(data) {
        Some((cpu, os)) => Some(
            SystemDescriptor { cpu, byte_order: spec_byte_order(data), os },
        ),
        None => None,
    }
}

/// The platform these container bytes resolve to, if their system
/// descriptor is present and names a supported triple.
pub open spec fn spec_resolved_platform(data: Seq<u8>) -> Option<PlatformId> {
    match spec_system_info(data) {
        Some(d) => spec_resolve(d.cpu, d.byte_order, d.os),
        None => None,
    }
}

/// The base file offset the 64-bit path starts from, if a raw stream
/// carrying one is available.
pub open spec fn spec_base_of(raw: Option<Seq<u8>>) -> Option<u64> {
    match raw {
        Some(s) => spec_memory64_base(s),
        None => None,
    }
}

/// The unified segment table these container bytes describe: the 32-bit
/// path's entries followed by the 64-bit path's, each path empty when its
/// streams are absent or malformed.
pub open spec fn spec_planned_segments(data: Seq<u8>) -> Seq<SegmentData> {
    spec_segments32_part(spec_mem32(data)) + spec_segments64_part(
        spec_base_of(spec_mem64_raw(data)),
        spec_mem64(data),
    )
}

/// Address-space construction from the container's already-extracted parts.
///
/// Missing system information is fatal, an unresolvable platform is fatal,
/// and everything the memory-region streams yield is absorbed: each absent or
/// malformed path contributes no segments, and a container with no readable
/// memory-region stream at all still builds, with an empty table.
pub fn plan_from_parts(
    system: &Option<SystemDescriptor>,
    mem32: &Option<Vec<MemoryRegion32>>,
    mem64_raw: &Option<Vec<u8>>,
    mem64: &Option<Vec<MemoryRegion64>>,
) -> (r: Result<ViewPlan, LoadError>)
    ensures
        system is None ==> r == Err::<ViewPlan, LoadError>(LoadError::MissingSystemInfo),
        system is Some && spec_resolve(system->0.cpu, system->0.byte_order, system->0.os)
            is None ==> r == Err::<ViewPlan, LoadError>(LoadError::UnsupportedPlatform),
        system is Some && spec_resolve(system->0.cpu, system->0.byte_order, system->0.os)
            is Some ==> r is Ok && r->Ok_0.platform == spec_resolve(
            system->0.cpu,
            system->0.byte_order,
            system->0.os,
        )->0 && r->Ok_0.segments@ == spec_segments32_part(opt_vec_view(*mem32))
            + spec_segments64_part(
            spec_base_of(opt_vec_view(*mem64_raw)),
            opt_vec_view(*mem64),
        ) && r->Ok_0.wf(),
{
    let desc = match system {
        Some(d) => *d,
        None => {
            return Err(LoadError::MissingSystemInfo);
        },
    };
    let platform = match resolve_platform(desc.cpu, desc.byte_order, desc.os) {
        Some(p) => p,
        None => {
            return Err(LoadError::UnsupportedPlatform);
        },
    };
    let base_rva: Option<u64> = match mem64_raw {
        Some(raw) => memory64_base_offset(raw.as_slice()),
        None => None,
    };
    let segments = match collect_segments(mem32, base_rva, mem64) {
        Ok(table) => table,
        Err(_) => Vec::new(),
    };
    proof {
        assert(segments@ == spec_segments32_part(opt_vec_view(*mem32)) + spec_segments64_part(
            spec_base_of(opt_vec_view(*mem64_raw)),
            opt_vec_view(*mem64),
        )) by {
            if mem32 is None && (spec_base_of(opt_vec_view(*mem64_raw)) is None || mem64
                is None) {
                assert(segments@ =~= spec_segments32_part(opt_vec_view(*mem32))
                    + spec_segments64_part(
                    spec_base_of(opt_vec_view(*mem64_raw)),
                    opt_vec_view(*mem64),
                ));
            }
        }
        lemma_segments_parts_wf(opt_vec_view(*mem32), spec_base_of(opt_vec_view(*mem64_raw)), opt_vec_view(*mem64));
    }
    Ok(ViewPlan { platform, segments })
}

/// Whatever the streams held, the planned table is made of well-formed
/// segments.
proof fn lemma_segments_parts_wf(
    mem32: Option<Seq<MemoryRegion32>>,
    base: Option<u64>,
    mem64: Option<Seq<MemoryRegion64>>,
)
    ensures
        forall|i: int|
            0 <= i < (spec_segments32_part(mem32) + spec_segments64_part(base, mem64)).len() ==> (
            #[trigger] (spec_segments32_part(mem32) + spec_segments64_part(base, mem64))[i]).wf(),
{
    let part32 = spec_segments32_part(mem32);
    let part64 = spec_segments64_part(base, mem64);
    if mem32 is Some && all_regions32_fit(mem32->0) {
        lemma_segments32_wf(mem32->0);
    }
    if base is Some && mem64 is Some && regions64_fit(base->0 as int, mem64->0) {
        lemma_segments64_wf(base->0, mem64->0);
    }
    assert forall|i: int| 0 <= i < (part32 + part64).len() implies (#[trigger] (part32
        + part64)[i]).wf() by {
        if i < part32.len() {
            assert((part32 + part64)[i] == part32[i]);
        } else {
            assert((part32 + part64)[i] == part64[i - part32.len()]);
        }
    }
}

/// Address-space construction from the container's raw bytes, as far as it
/// can be decided without the host: open the container, read the system
/// information, resolve the platform, and collect the unified segment table.
///
/// For every input the outcome is pinned to what the container bytes hold:
/// bytes that do not open are `ContainerUnreadable`; an open container
/// without readable system information is `MissingSystemInfo`; a system
/// descriptor outside the resolution table is `UnsupportedPlatform`; and
/// otherwise the plan carries exactly the resolved platform and the unified
/// segment table of both memory-list paths, every segment well formed.
pub fn build_view_plan(data: Vec<u8>) -> (r: Result<ViewPlan, LoadError>)
    ensures
        r == Err::<ViewPlan, LoadError>(LoadError::ContainerUnreadable) <==> !spec_container_opens(
            data@,
        ),
        spec_container_opens(data@) ==> (r == Err::<ViewPlan, LoadError>(
            LoadError::MissingSystemInfo,
        ) <==> spec_system_info(data@) is None),
        spec_container_opens(data@) && spec_system_info(data@) is Some ==> (r == Err::<
            ViewPlan,
            LoadError,
        >(LoadError::UnsupportedPlatform) <==> spec_resolved_platform(data@) is None),
        spec_container_opens(data@) && spec_resolved_platform(data@) is Some ==> r is Ok
            && r->Ok_0.platform == spec_resolved_platform(data@)->0 && r->Ok_0.segments@
            == spec_planned_segments(data@) && r->Ok_0.wf(),
{
    let ghost bytes = data@;
    let md = match open_container(data) {
        Some(m) => m,
        None => {
            return Err(LoadError::ContainerUnreadable);
        },
    };
    let system: Option<SystemDescriptor> = match read_system_info(&md) {
        Some((cpu, os)) => Some(
            SystemDescriptor { cpu, byte_order: read_byte_order(&md), os },
        ),
        None => None,
    };
    let mem32 = read_memory_list(&md);
    let mem64_raw = read_raw_memory64_stream(&md);
    let mem64 = if mem64_raw.is_some() {
        read_memory64_list(&md)
    } else {
        None
    };
    proof {
        assert(system == spec_system_info(bytes));
    }
    let r = plan_from_parts(&system, &mem32, &mem64_raw, &mem64);
    proof {
        if spec_container_opens(bytes) && spec_resolved_platform(bytes) is Some {
            assert(spec_segments32_part(opt_vec_view(mem32)) == spec_segments32_part(
                spec_mem32(bytes),
            ));
            if mem64_raw is Some {
                assert(opt_vec_view(mem64) == spec_mem64(bytes));
            } else {
                assert(spec_base_of(spec_mem64_raw(bytes)) is None);
                assert(spec_segments64_part(
                    spec_base_of(opt_vec_view(mem64_raw)),
                    opt_vec_view(mem64),
                ) =~= spec_segments64_part(spec_base_of(spec_mem64_raw(bytes)), spec_mem64(bytes)));
            }
            assert(r->Ok_0.segments@ == spec_planned_segments(bytes));
        }
    }
    r
}

} // verus!
