use napi_cli::{NodeArch, NodePlatform, PlatformDetail, TripleError};

fn parsed(triple: &str) -> PlatformDetail {
    match PlatformDetail::from(triple) {
        Ok(detail) => detail,
        Err(error) => panic!("{} was refused: {:?}", triple, error),
    }
}

fn is_unknown(platform: &NodePlatform, raw: &str) -> bool {
    matches!(platform, NodePlatform::unknown(name) if name == raw)
}

#[test]
fn linux_musl_triple_has_an_abi() {
    let detail = parsed("x86_64-unknown-linux-musl");
    assert_eq!(detail.triple, "x86_64-unknown-linux-musl");
    assert_eq!(detail.arch, NodeArch::x64);
    assert_eq!(detail.arch.to_string(), "x64");
    assert!(is_unknown(&detail.platform, "linux"));
    assert_eq!(detail.platform.to_string(), "linux");
    assert_eq!(detail.abi, Some("musl".to_string()));
    assert_eq!(detail.platform_abi, "linux-x64-musl");
}

#[test]
fn darwin_triple_has_no_abi() {
    let detail = parsed("x86_64-apple-darwin");
    assert_eq!(detail.triple, "x86_64-apple-darwin");
    assert_eq!(detail.arch, NodeArch::x64);
    assert!(matches!(detail.platform, NodePlatform::darwin));
    assert_eq!(detail.abi, None);
    assert_eq!(detail.platform_abi, "darwin-x64");
}

#[test]
fn aarch64_is_not_in_the_table() {
    match PlatformDetail::from("aarch64-apple-darwin") {
        Err(TripleError::UnsupportedArchitecture(cpu)) => assert_eq!(cpu, "aarch64"),
        other => panic!("unexpected outcome: {:?}", other),
    }
}

#[test]
fn arrch64_is_the_key_of_arm64() {
    let detail = parsed("arrch64-apple-darwin");
    assert_eq!(detail.arch, NodeArch::arm64);
    assert_eq!(detail.platform_abi, "darwin-arm64");
}

#[test]
fn two_segments_are_malformed() {
    match PlatformDetail::from("x86_64-unknown") {
        Err(TripleError::MalformedTriple(triple)) => assert_eq!(triple, "x86_64-unknown"),
        other => panic!("unexpected outcome: {:?}", other),
    }
}

#[test]
fn one_segment_and_no_segment_are_malformed() {
    assert!(matches!(
        PlatformDetail::from("x86_64"),
        Err(TripleError::MalformedTriple(triple)) if triple == "x86_64"
    ));
    assert!(matches!(
        PlatformDetail::from(""),
        Err(TripleError::MalformedTriple(triple)) if triple.is_empty()
    ));
}

#[test]
fn malformed_comes_before_unsupported() {
    assert!(matches!(
        PlatformDetail::from("aarch64-apple"),
        Err(TripleError::MalformedTriple(triple)) if triple == "aarch64-apple"
    ));
}

#[test]
fn unsupported_cpu_is_reported_as_spelled() {
    assert!(matches!(
        PlatformDetail::from("X86_64-apple-darwin"),
        Err(TripleError::UnsupportedArchitecture(cpu)) if cpu == "X86_64"
    ));
    assert!(matches!(
        PlatformDetail::from("-apple-darwin"),
        Err(TripleError::UnsupportedArchitecture(cpu)) if cpu.is_empty()
    ));
}

#[test]
fn every_cpu_of_the_table_has_its_name() {
    let table = [
        ("x32", NodeArch::x32, "x32"),
        ("x86_64", NodeArch::x64, "x64"),
        ("i686", NodeArch::ia32, "ia32"),
        ("armv7", NodeArch::arm, "arm"),
        ("arrch64", NodeArch::arm64, "arm64"),
        ("mips", NodeArch::mips, "mips"),
        ("mipsel", NodeArch::mipsel, "mipsel"),
        ("ppc", NodeArch::ppc, "ppc"),
        ("ppc64", NodeArch::ppc64, "ppc64"),
        ("s390", NodeArch::s390, "s390"),
        ("s390x", NodeArch::s390x, "s390x"),
    ];
    for (cpu, arch, name) in table {
        assert_eq!(NodeArch::from_str(cpu), Some(arch));
        assert_eq!(arch.to_string(), name);
        let detail = parsed(&format!("{}-unknown-linux-gnu", cpu));
        assert_eq!(detail.arch, arch);
        assert_eq!(detail.arch.to_string(), name);
        assert_eq!(detail.platform_abi, format!("linux-{}-gnu", name));
    }
}

#[test]
fn cpu_outside_the_table_has_no_arch() {
    assert_eq!(NodeArch::from_str("aarch64"), None);
    assert_eq!(NodeArch::from_str("x64"), None);
    assert_eq!(NodeArch::from_str("X32"), None);
    assert_eq!(NodeArch::from_str(""), None);
    assert_eq!(NodeArch::from_str("x86_64 "), None);
}

#[test]
fn systems_of_the_table_have_their_names() {
    assert!(matches!(NodePlatform::from_str("darwin"), NodePlatform::darwin));
    assert!(matches!(NodePlatform::from_str("freebsd"), NodePlatform::freebsd));
    assert!(matches!(NodePlatform::from_str("openbsd"), NodePlatform::openbsd));
    assert!(matches!(NodePlatform::from_str("windows"), NodePlatform::win32));
    assert_eq!(NodePlatform::from_str("darwin").to_string(), "darwin");
    assert_eq!(NodePlatform::from_str("freebsd").to_string(), "freebsd");
    assert_eq!(NodePlatform::from_str("openbsd").to_string(), "openbsd");
    assert_eq!(NodePlatform::from_str("windows").to_string(), "win32");
}

#[test]
fn other_systems_pass_through() {
    for system in ["linux", "android", "win32", "Darwin", "", "none"] {
        let platform = NodePlatform::from_str(system);
        assert!(is_unknown(&platform, system));
        assert_eq!(platform.to_string(), system);
    }
}

#[test]
fn windows_triple_is_win32() {
    let detail = parsed("x86_64-pc-windows-msvc");
    assert!(matches!(detail.platform, NodePlatform::win32));
    assert_eq!(detail.abi, Some("msvc".to_string()));
    assert_eq!(detail.platform_abi, "win32-x64-msvc");
    let detail = parsed("i686-pc-windows-msvc");
    assert_eq!(detail.arch, NodeArch::ia32);
    assert_eq!(detail.platform_abi, "win32-ia32-msvc");
}

#[test]
fn freebsd_triple_has_three_segments() {
    let detail = parsed("x86_64-unknown-freebsd");
    assert!(matches!(detail.platform, NodePlatform::freebsd));
    assert_eq!(detail.abi, None);
    assert_eq!(detail.platform_abi, "freebsd-x64");
}

#[test]
fn third_segment_is_the_system_whatever_the_vendor() {
    let detail = parsed("armv7-linux-androideabi");
    assert_eq!(detail.arch, NodeArch::arm);
    assert!(is_unknown(&detail.platform, "androideabi"));
    assert_eq!(detail.abi, None);
    assert_eq!(detail.platform_abi, "androideabi-arm");
}

#[test]
fn segments_after_the_fourth_are_not_looked_at() {
    let detail = parsed("armv7-unknown-linux-gnueabihf-extra-more");
    assert_eq!(detail.triple, "armv7-unknown-linux-gnueabihf-extra-more");
    assert!(is_unknown(&detail.platform, "linux"));
    assert_eq!(detail.abi, Some("gnueabihf".to_string()));
    assert_eq!(detail.platform_abi, "linux-arm-gnueabihf");
}

#[test]
fn empty_segments_are_segments() {
    let detail = parsed("x32--");
    assert!(is_unknown(&detail.platform, ""));
    assert_eq!(detail.abi, None);
    assert_eq!(detail.platform_abi, "-x32");
    let detail = parsed("x32---");
    assert_eq!(detail.abi, Some(String::new()));
    assert_eq!(detail.platform_abi, "-x32-");
}

#[test]
fn characters_outside_ascii_are_kept() {
    let detail = parsed("x86_64-é-système-ü");
    assert!(is_unknown(&detail.platform, "système"));
    assert_eq!(detail.abi, Some("ü".to_string()));
    assert_eq!(detail.platform_abi, "système-x64-ü");
}
