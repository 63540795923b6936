use rhino::platform::{base_library_path, join, machine_from_cpuinfo, machine_of_cpu_part, Arch, Machine, Os};
use rhino::{pv_library_path, pv_model_path, pv_platform, Host};

fn host(os: Os, arch: Arch, machine: Option<Machine>) -> Host {
    Host { os, arch, machine }
}

const PI4_CPUINFO: &str = "processor\t: 0\nBogoMIPS\t: 108.00\nFeatures\t: fp asimd evtstrm crc32 cpuid\nCPU implementer\t: 0x41\nCPU architecture: 8\nCPU variant\t: 0x0\nCPU part\t: 0xd08\nCPU revision\t: 3\n\nprocessor\t: 1\nCPU part\t: 0xd03\n";

#[test]
fn cpuinfo_names_the_board_by_its_first_cpu_part() {
    assert_eq!(machine_from_cpuinfo(PI4_CPUINFO), Some(Machine::CortexA72));
}

#[test]
fn cpuinfo_without_cpu_part_names_no_board() {
    assert_eq!(machine_from_cpuinfo("processor\t: 0\nmodel name\t: ARMv7\n"), None);
    assert_eq!(machine_from_cpuinfo(""), None);
}

#[test]
fn cpuinfo_part_is_matched_in_any_case() {
    assert_eq!(machine_from_cpuinfo("CPU part\t: 0xD07"), Some(Machine::CortexA57));
    assert_eq!(machine_from_cpuinfo("x\nCPU part : 0xC08\n"), Some(Machine::Beaglebone));
    assert_eq!(machine_from_cpuinfo("CPU part\t: 0xd0b"), Some(Machine::Unsupported));
}

#[test]
fn cpu_parts_map_to_boards() {
    assert_eq!(machine_of_cpu_part("0xb76"), Machine::Arm11);
    assert_eq!(machine_of_cpu_part("0xc07"), Machine::CortexA7);
    assert_eq!(machine_of_cpu_part("0xd03"), Machine::CortexA53);
    assert_eq!(machine_of_cpu_part("0xd07"), Machine::CortexA57);
    assert_eq!(machine_of_cpu_part("0xD08"), Machine::CortexA72);
    assert_eq!(machine_of_cpu_part("0xc08"), Machine::Beaglebone);
    assert_eq!(machine_of_cpu_part("0xc0"), Machine::Unsupported);
    assert_eq!(machine_of_cpu_part(""), Machine::Unsupported);
}

#[test]
fn desktop_hosts_get_their_library() {
    let cases = [
        (host(Os::Mac, Arch::X86_64, None), "mac/x86_64/libpv_rhino.dylib"),
        (host(Os::Mac, Arch::Aarch64, None), "mac/arm64/libpv_rhino.dylib"),
        (host(Os::Windows, Arch::X86_64, None), "windows/amd64/libpv_rhino.dll"),
        (host(Os::Linux, Arch::X86_64, None), "linux/x86_64/libpv_rhino.so"),
    ];
    for (h, path) in cases {
        let c = base_library_path(&h).unwrap();
        assert_eq!(c.path, path);
        assert!(!c.fallback);
    }
}

#[test]
fn arm_boards_get_their_library() {
    let cases = [
        (Arch::Aarch64, Machine::CortexA72, "raspberry-pi/cortex-a72-aarch64/libpv_rhino.so"),
        (Arch::Arm, Machine::CortexA72, "raspberry-pi/cortex-a72/libpv_rhino.so"),
        (Arch::Arm, Machine::Arm11, "raspberry-pi/arm11/libpv_rhino.so"),
        (Arch::Aarch64, Machine::CortexA57, "jetson/cortex-a57-aarch64/libpv_rhino.so"),
        (Arch::Arm, Machine::Beaglebone, "beaglebone/libpv_rhino.so"),
    ];
    for (arch, m, path) in cases {
        let c = base_library_path(&host(Os::Linux, arch, Some(m))).unwrap();
        assert_eq!(c.path, path);
        assert!(!c.fallback);
    }
}

#[test]
fn unknown_arm_board_falls_back_with_a_warning_flag() {
    let c = base_library_path(&host(Os::Linux, Arch::Aarch64, Some(Machine::Unsupported))).unwrap();
    assert_eq!(c.path, "raspberry-pi/arm11/libpv_rhino.so");
    assert!(c.fallback);
}

#[test]
fn unsupported_hosts_get_no_library() {
    assert!(base_library_path(&host(Os::Other, Arch::X86_64, None)).is_none());
    assert!(base_library_path(&host(Os::Linux, Arch::Other, None)).is_none());
    assert!(base_library_path(&host(Os::Linux, Arch::Arm, None)).is_none());
    assert!(base_library_path(&host(Os::Mac, Arch::Arm, None)).is_none());
}

#[test]
fn platform_names() {
    assert_eq!(pv_platform(&host(Os::Mac, Arch::Aarch64, None)).as_deref(), Some("mac"));
    assert_eq!(pv_platform(&host(Os::Windows, Arch::X86_64, None)).as_deref(), Some("windows"));
    assert_eq!(pv_platform(&host(Os::Linux, Arch::X86_64, None)).as_deref(), Some("linux"));
    assert_eq!(pv_platform(&host(Os::Linux, Arch::Arm, Some(Machine::CortexA7))).as_deref(), Some("raspberry-pi"));
    assert_eq!(pv_platform(&host(Os::Linux, Arch::Aarch64, Some(Machine::CortexA57))).as_deref(), Some("jetson"));
    assert_eq!(pv_platform(&host(Os::Linux, Arch::Arm, Some(Machine::Beaglebone))).as_deref(), Some("beaglebone"));
    assert_eq!(pv_platform(&host(Os::Linux, Arch::Arm, Some(Machine::Unsupported))), None);
    assert_eq!(pv_platform(&host(Os::Other, Arch::X86_64, None)), None);
}

#[test]
fn paths_join_with_one_separator() {
    assert_eq!(join("/opt/rhino", "lib/"), "/opt/rhino/lib/");
    assert_eq!(join("/opt/rhino/", "lib/"), "/opt/rhino/lib/");
    assert_eq!(join("", "lib/"), "lib/");
}

#[test]
fn library_and_model_paths_under_the_resource_root() {
    let c = pv_library_path("/opt/rhino", &host(Os::Linux, Arch::X86_64, None)).unwrap();
    assert_eq!(c.path, "/opt/rhino/lib/linux/x86_64/libpv_rhino.so");
    assert!(pv_library_path("/opt/rhino", &host(Os::Other, Arch::Other, None)).is_none());
    assert_eq!(pv_model_path("/opt/rhino"), "/opt/rhino/lib/common/rhino_params.pv");
    assert_eq!(pv_model_path("res/"), "res/lib/common/rhino_params.pv");
}
