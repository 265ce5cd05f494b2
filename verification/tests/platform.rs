use minidump_bn::platform::{resolve_platform, ByteOrder, CpuArch, OsFamily, PlatformId};

const SUPPORTED_EVERYWHERE: [CpuArch; 4] = [CpuArch::Arm64, CpuArch::Arm, CpuArch::X86, CpuArch::X86_64];

#[test]
fn windows_table() {
    assert_eq!(
        resolve_platform(CpuArch::Arm64, ByteOrder::Little, OsFamily::Windows),
        Some(PlatformId::WindowsAarch64)
    );
    assert_eq!(
        resolve_platform(CpuArch::Arm, ByteOrder::Little, OsFamily::Windows),
        Some(PlatformId::WindowsArmv7)
    );
    assert_eq!(
        resolve_platform(CpuArch::X86, ByteOrder::Little, OsFamily::Windows),
        Some(PlatformId::WindowsX86)
    );
    assert_eq!(
        resolve_platform(CpuArch::X86_64, ByteOrder::Little, OsFamily::Windows),
        Some(PlatformId::WindowsX86_64)
    );
    assert_eq!(resolve_platform(CpuArch::Ppc, ByteOrder::Little, OsFamily::Windows), None);
    assert_eq!(resolve_platform(CpuArch::Ppc64, ByteOrder::Big, OsFamily::Windows), None);
    assert_eq!(resolve_platform(CpuArch::Mips, ByteOrder::Little, OsFamily::Windows), None);
}

#[test]
fn macos_table() {
    assert_eq!(
        resolve_platform(CpuArch::Arm64, ByteOrder::Little, OsFamily::MacOs),
        Some(PlatformId::MacAarch64)
    );
    assert_eq!(
        resolve_platform(CpuArch::Arm, ByteOrder::Little, OsFamily::MacOs),
        Some(PlatformId::MacArmv7)
    );
    assert_eq!(
        resolve_platform(CpuArch::X86, ByteOrder::Little, OsFamily::MacOs),
        Some(PlatformId::MacX86)
    );
    assert_eq!(
        resolve_platform(CpuArch::X86_64, ByteOrder::Little, OsFamily::MacOs),
        Some(PlatformId::MacX86_64)
    );
    assert_eq!(resolve_platform(CpuArch::Ppc, ByteOrder::Big, OsFamily::MacOs), None);
    assert_eq!(resolve_platform(CpuArch::Sparc, ByteOrder::Little, OsFamily::MacOs), None);
}

#[test]
fn linux_table() {
    assert_eq!(
        resolve_platform(CpuArch::Arm64, ByteOrder::Little, OsFamily::Linux),
        Some(PlatformId::LinuxAarch64)
    );
    assert_eq!(
        resolve_platform(CpuArch::Arm, ByteOrder::Little, OsFamily::Linux),
        Some(PlatformId::LinuxArmv7)
    );
    assert_eq!(
        resolve_platform(CpuArch::X86, ByteOrder::Little, OsFamily::Linux),
        Some(PlatformId::LinuxX86)
    );
    assert_eq!(
        resolve_platform(CpuArch::X86_64, ByteOrder::Little, OsFamily::Linux),
        Some(PlatformId::LinuxX86_64)
    );
    assert_eq!(resolve_platform(CpuArch::Mips64, ByteOrder::Little, OsFamily::Linux), None);
    assert_eq!(resolve_platform(CpuArch::Sparc, ByteOrder::Big, OsFamily::Linux), None);
}

#[test]
fn linux_powerpc_consults_byte_order() {
    assert_eq!(
        resolve_platform(CpuArch::Ppc, ByteOrder::Little, OsFamily::Linux),
        Some(PlatformId::LinuxPpc32Le)
    );
    assert_eq!(
        resolve_platform(CpuArch::Ppc, ByteOrder::Big, OsFamily::Linux),
        Some(PlatformId::LinuxPpc32)
    );
    assert_eq!(
        resolve_platform(CpuArch::Ppc64, ByteOrder::Little, OsFamily::Linux),
        Some(PlatformId::LinuxPpc64Le)
    );
    assert_eq!(
        resolve_platform(CpuArch::Ppc64, ByteOrder::Big, OsFamily::Linux),
        Some(PlatformId::LinuxPpc64)
    );
}

#[test]
fn byte_order_irrelevant_outside_linux_powerpc() {
    for os in [OsFamily::Windows, OsFamily::MacOs, OsFamily::Linux] {
        for cpu in SUPPORTED_EVERYWHERE {
            assert_eq!(
                resolve_platform(cpu, ByteOrder::Little, os),
                resolve_platform(cpu, ByteOrder::Big, os)
            );
        }
    }
}

#[test]
fn unsupported_oses_resolve_to_none_for_every_architecture() {
    let oses = [
        OsFamily::Ios,
        OsFamily::Solaris,
        OsFamily::Android,
        OsFamily::Ps3,
        OsFamily::NaCl,
        OsFamily::Unknown(0),
        OsFamily::Unknown(0xdead),
    ];
    let cpus = [
        CpuArch::X86,
        CpuArch::X86_64,
        CpuArch::Ppc,
        CpuArch::Ppc64,
        CpuArch::Sparc,
        CpuArch::Arm,
        CpuArch::Arm64,
        CpuArch::Mips,
        CpuArch::Mips64,
        CpuArch::Unknown(7),
    ];
    for os in oses {
        for cpu in cpus {
            for endian in [ByteOrder::Little, ByteOrder::Big] {
                assert_eq!(resolve_platform(cpu, endian, os), None);
            }
        }
    }
}

#[test]
fn unknown_architecture_resolves_to_none_everywhere() {
    for os in [OsFamily::Windows, OsFamily::MacOs, OsFamily::Linux] {
        assert_eq!(resolve_platform(CpuArch::Unknown(0xbeef), ByteOrder::Little, os), None);
    }
}

#[test]
fn resolver_is_deterministic() {
    let a = resolve_platform(CpuArch::X86_64, ByteOrder::Little, OsFamily::Linux);
    let b = resolve_platform(CpuArch::X86_64, ByteOrder::Little, OsFamily::Linux);
    assert_eq!(a, b);
}

#[test]
fn registry_names() {
    assert_eq!(PlatformId::WindowsAarch64.name(), "windows-aarch64");
    assert_eq!(PlatformId::WindowsArmv7.name(), "windows-armv7");
    assert_eq!(PlatformId::WindowsX86.name(), "windows-x86");
    assert_eq!(PlatformId::WindowsX86_64.name(), "windows-x86_64");
    assert_eq!(PlatformId::MacAarch64.name(), "mac-aarch64");
    assert_eq!(PlatformId::MacArmv7.name(), "mac-armv7");
    assert_eq!(PlatformId::MacX86.name(), "mac-x86");
    assert_eq!(PlatformId::MacX86_64.name(), "mac-x86_64");
    assert_eq!(PlatformId::LinuxAarch64.name(), "linux-aarch64");
    assert_eq!(PlatformId::LinuxArmv7.name(), "linux-armv7");
    assert_eq!(PlatformId::LinuxX86.name(), "linux-x86");
    assert_eq!(PlatformId::LinuxX86_64.name(), "linux-x86_64");
    assert_eq!(PlatformId::LinuxPpc32Le.name(), "linux-ppc32_le");
    assert_eq!(PlatformId::LinuxPpc32.name(), "linux-ppc32");
    assert_eq!(PlatformId::LinuxPpc64Le.name(), "linux-ppc64_le");
    assert_eq!(PlatformId::LinuxPpc64.name(), "linux-ppc64");
}
