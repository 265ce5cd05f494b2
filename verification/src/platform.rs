use vstd::prelude::*;

verus! {

/// CPU architecture recorded in the container's system-information stream.
/// `Unknown` carries the raw processor-architecture code for values this
/// library does not model.
#[derive(Clone, Copy, Debug, PartialEq, Eq, Structural)]
pub enum CpuArch {
    X86,
    X86_64,
    Ppc,
    Ppc64,
    Sparc,
    Arm,
    Arm64,
    Mips,
    Mips64,
    Unknown(u16),
}

/// Operating system recorded in the container's system-information stream.
/// `Unknown` carries the raw platform code for values this library does not
/// model.
#[derive(Clone, Copy, Debug, PartialEq, Eq, Structural)]
pub enum OsFamily {
    Windows,
    MacOs,
    Ios,
    Linux,
    Solaris,
    Android,
    Ps3,
    NaCl,
    Unknown(u32),
}

/// The container's global byte order.
#[derive(Clone, Copy, Debug, PartialEq, Eq, Structural)]
pub enum ByteOrder {
    Little,
    Big,
}

/// The (cpu, byte order, os) triple read once per container, immutable, and
/// consumed only by the platform resolver.
#[derive(Clone, Copy, Debug, PartialEq, Eq, Structural)]
pub struct SystemDescriptor {
    pub cpu: CpuArch,
    pub byte_order: ByteOrder,
    pub os: OsFamily,
}

/// A platform identifier the host registry can be asked for by name: a known
/// (os, architecture, bit width, endianness) combination.
#[derive(Clone, Copy, Debug, PartialEq, Eq, Structural)]
pub enum PlatformId {
    WindowsAarch64,
    WindowsArmv7,
    WindowsX86,
    WindowsX86_64,
    MacAarch64,
    MacArmv7,
    MacX86,
    MacX86_64,
    LinuxAarch64,
    LinuxArmv7,
    LinuxX86,
    LinuxX86_64,
    LinuxPpc32Le,
    LinuxPpc32,
    LinuxPpc64Le,
    LinuxPpc64,
}

/// The resolution table: Windows and macOS support the four ARM/x86
/// architectures with byte order never consulted; Linux supports those four
/// plus the two PowerPC widths, where byte order selects the variant; every
/// other pair resolves to `None`.
pub open spec fn spec_resolve(cpu: CpuArch, endian: ByteOrder, os: OsFamily) -> Option<PlatformId> {
    match os {
        OsFamily::Windows => match cpu {
            CpuArch::Arm64 => Some(PlatformId::WindowsAarch64),
            CpuArch::Arm => Some(PlatformId::WindowsArmv7),
            CpuArch::X86 => Some(PlatformId::WindowsX86),
            CpuArch::X86_64 => Some(PlatformId::WindowsX86_64),
            _ => None,
        },
        OsFamily::MacOs => match cpu {
            CpuArch::Arm64 => Some(PlatformId::MacAarch64),
            CpuArch::Arm => Some(PlatformId::MacArmv7),
            CpuArch::X86 => Some(PlatformId::MacX86),
            CpuArch::X86_64 => Some(PlatformId::MacX86_64),
            _ => None,
        },
        OsFamily::Linux => match cpu {
            CpuArch::Arm64 => Some(PlatformId::LinuxAarch64),
            CpuArch::Arm => Some(PlatformId::LinuxArmv7),
            CpuArch::X86 => Some(PlatformId::LinuxX86),
            CpuArch::X86_64 => Some(PlatformId::LinuxX86_64),
            CpuArch::Ppc => match endian {
                ByteOrder::Little => Some(PlatformId::LinuxPpc32Le),
                ByteOrder::Big => Some(PlatformId::LinuxPpc32),
            },
            CpuArch::Ppc64 => match endian {
                ByteOrder::Little => Some(PlatformId::LinuxPpc64Le),
                ByteOrder::Big => Some(PlatformId::LinuxPpc64),
            },
            _ => None,
        },
        _ => None,
    }
}

/// Platform resolver: a pure total function of the system descriptor's three
/// fields. It has no precondition, so it answers (with `None` at worst) for
/// every value, including unknown or future architecture and OS codes.
pub fn resolve_platform(cpu: CpuArch, endian: ByteOrder, os: OsFamily) -> (r: Option<PlatformId>)
    ensures
        r == spec_resolve(cpu, endian, os),
{
    match os {
        OsFamily::Windows => match cpu {
            CpuArch::Arm64 => Some(PlatformId::WindowsAarch64),
            CpuArch::Arm => Some(PlatformId::WindowsArmv7),
            CpuArch::X86 => Some(PlatformId::WindowsX86),
            CpuArch::X86_64 => Some(PlatformId::WindowsX86_64),
            _ => None,
        },
        OsFamily::MacOs => match cpu {
            CpuArch::Arm64 => Some(PlatformId::MacAarch64),
            CpuArch::Arm => Some(PlatformId::MacArmv7),
            CpuArch::X86 => Some(PlatformId::MacX86),
            CpuArch::X86_64 => Some(PlatformId::MacX86_64),
            _ => None,
        },
        OsFamily::Linux => match cpu {
            CpuArch::Arm64 => Some(PlatformId::LinuxAarch64),
            CpuArch::Arm => Some(PlatformId::LinuxArmv7),
            CpuArch::X86 => Some(PlatformId::LinuxX86),
            CpuArch::X86_64 => Some(PlatformId::LinuxX86_64),
            CpuArch::Ppc => match endian {
                ByteOrder::Little => Some(PlatformId::LinuxPpc32Le),
                ByteOrder::Big => Some(PlatformId::LinuxPpc32),
            },
            CpuArch::Ppc64 => match endian {
                ByteOrder::Little => Some(PlatformId::LinuxPpc64Le),
                ByteOrder::Big => Some(PlatformId::LinuxPpc64),
            },
            _ => None,
        },
        _ => None,
    }
}

/// The name under which the host platform registry knows this identifier.
pub open spec fn spec_platform_name(p: PlatformId) -> Seq<char> {
    match p {
        PlatformId::WindowsAarch64 => "windows-aarch64"@,
        PlatformId::WindowsArmv7 => "windows-armv7"@,
        PlatformId::WindowsX86 => "windows-x86"@,
        PlatformId::WindowsX86_64 => "windows-x86_64"@,
        PlatformId::MacAarch64 => "mac-aarch64"@,
        PlatformId::MacArmv7 => "mac-armv7"@,
        PlatformId::MacX86 => "mac-x86"@,
        PlatformId::MacX86_64 => "mac-x86_64"@,
        PlatformId::LinuxAarch64 => "linux-aarch64"@,
        PlatformId::LinuxArmv7 => "linux-armv7"@,
        PlatformId::LinuxX86 => "linux-x86"@,
        PlatformId::LinuxX86_64 => "linux-x86_64"@,
        PlatformId::LinuxPpc32Le => "linux-ppc32_le"@,
        PlatformId::LinuxPpc32 => "linux-ppc32"@,
        PlatformId::LinuxPpc64Le => "linux-ppc64_le"@,
        PlatformId::LinuxPpc64 => "linux-ppc64"@,
    }
}

impl PlatformId {
    /// The registry name of this platform identifier.
    pub fn name(&self) -> (r: &'static str)
        ensures
            r@ == spec_platform_name(*self),
    {
        match self {
            PlatformId::WindowsAarch64 => "windows-aarch64",
            PlatformId::WindowsArmv7 => "windows-armv7",
            PlatformId::WindowsX86 => "windows-x86",
            PlatformId::WindowsX86_64 => "windows-x86_64",
            PlatformId::MacAarch64 => "mac-aarch64",
            PlatformId::MacArmv7 => "mac-armv7",
            PlatformId::MacX86 => "mac-x86",
            PlatformId::MacX86_64 => "mac-x86_64",
            PlatformId::LinuxAarch64 => "linux-aarch64",
            PlatformId::LinuxArmv7 => "linux-armv7",
            PlatformId::LinuxX86 => "linux-x86",
            PlatformId::LinuxX86_64 => "linux-x86_64",
            PlatformId::LinuxPpc32Le => "linux-ppc32_le",
            PlatformId::LinuxPpc32 => "linux-ppc32",
            PlatformId::LinuxPpc64Le => "linux-ppc64_le",
            PlatformId::LinuxPpc64 => "linux-ppc64",
        }
    }
}

/// The (os, architecture) pairs the resolution table supports: the four
/// ARM/x86 architectures on Windows, macOS and Linux, and additionally the
/// two PowerPC widths on Linux.
pub open spec fn spec_supported_pair(cpu: CpuArch, os: OsFamily) -> bool {
    match os {
        OsFamily::Windows | OsFamily::MacOs => cpu is Arm64 || cpu is Arm || cpu is X86
            || cpu is X86_64,
        OsFamily::Linux => cpu is Arm64 || cpu is Arm || cpu is X86 || cpu is X86_64
            || cpu is Ppc || cpu is Ppc64,
        _ => false,
    }
}

/// The resolver is deterministic: identical (cpu, byte order, os) triples
/// always yield the identical result.
pub proof fn lemma_resolver_deterministic(
    c1: CpuArch,
    e1: ByteOrder,
    o1: OsFamily,
    c2: CpuArch,
    e2: ByteOrder,
    o2: OsFamily,
)
    requires
        c1 == c2,
        e1 == e2,
        o1 == o2,
    ensures
        spec_resolve(c1, e1, o1) == spec_resolve(c2, e2, o2),
{
}

/// Table completeness: the resolver answers with a platform exactly for the
/// supported (os, architecture) pairs, whatever the byte order.
pub proof fn lemma_resolver_table_complete(cpu: CpuArch, endian: ByteOrder, os: OsFamily)
    ensures
        spec_resolve(cpu, endian, os) is Some <==> spec_supported_pair(cpu, os),
{
}

/// Byte order is consulted only for PowerPC on Linux: for every other triple,
/// flipping the byte order does not change the resolver's answer.
pub proof fn lemma_resolver_ignores_byte_order(cpu: CpuArch, os: OsFamily)
    requires
        !(os is Linux && (cpu is Ppc || cpu is Ppc64)),
    ensures
        spec_resolve(cpu, ByteOrder::Little, os) == spec_resolve(cpu, ByteOrder::Big, os),
{
}

} // verus!
