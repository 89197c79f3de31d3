use xtask::platform::{parse_arch, parse_machine_os, Arch, MachineOs, OsFamily};

#[test]
fn parses_supported_target_operating_systems() {
    assert_eq!(
        parse_machine_os(Some("centos-stream-10"), "--os"),
        Ok(MachineOs::CentosStream10)
    );
    assert_eq!(
        parse_machine_os(Some("ubuntu-24.04"), "--os"),
        Ok(MachineOs::Ubuntu24_04)
    );
    assert_eq!(
        parse_machine_os(Some("ubuntu-26.04"), "--os"),
        Ok(MachineOs::Ubuntu26_04)
    );
}

#[test]
fn rejects_unsupported_target_operating_systems() {
    let error = parse_machine_os(Some("debian-13"), "--os")
        .expect_err("unsupported machine OS should fail");
    assert!(error.contains("unsupported machine OS: debian-13"));
    assert!(error.contains("expected centos-stream-10, ubuntu-24.04, or ubuntu-26.04"));
}

#[test]
fn machine_os_ids_parse_back() {
    for os in [
        MachineOs::CentosStream10,
        MachineOs::Ubuntu24_04,
        MachineOs::Ubuntu26_04,
    ] {
        assert_eq!(parse_machine_os(Some(os.id()), "--os"), Ok(os));
    }
}

#[test]
fn names_and_families_of_machine_operating_systems() {
    assert_eq!(MachineOs::CentosStream10.short_name(), "centos10");
    assert_eq!(MachineOs::Ubuntu24_04.short_name(), "ubuntu2404");
    assert_eq!(MachineOs::Ubuntu26_04.short_name(), "ubuntu2604");
    assert_eq!(MachineOs::CentosStream10.family(), OsFamily::CentosStream);
    assert_eq!(MachineOs::Ubuntu24_04.family(), OsFamily::Ubuntu);
    assert_eq!(MachineOs::Ubuntu26_04.family(), OsFamily::Ubuntu);
}

#[test]
fn reports_machine_os_values_that_are_not_utf8() {
    assert_eq!(
        parse_machine_os(None, "--os"),
        Err("--os must be valid UTF-8".to_owned())
    );
}

#[test]
fn parses_architecture_names_and_aliases() {
    assert_eq!(parse_arch(Some("amd64")), Ok(Arch::Amd64));
    assert_eq!(parse_arch(Some("x86_64")), Ok(Arch::Amd64));
    assert_eq!(parse_arch(Some("arm64")), Ok(Arch::Arm64));
    assert_eq!(parse_arch(Some("aarch64")), Ok(Arch::Arm64));
    assert_eq!(
        parse_arch(Some("riscv64")),
        Err("unsupported architecture: riscv64".to_owned())
    );
    assert_eq!(
        parse_arch(None),
        Err("--arch must be valid UTF-8".to_owned())
    );
}
