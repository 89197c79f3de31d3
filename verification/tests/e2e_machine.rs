use xtask::e2e::{E2eSelection, E2eSuite};
use xtask::e2e_machine::{
    combine_run_and_release, development_cache_disk, development_setup_script,
    e2e_guest_script, guest_environment, host_arch, plan_e2e_machine, shell_quote_path,
    GuestScripts,
};
use xtask::machine::{stable_hash, MachineOptions, Provider, ReusePolicy};
use xtask::platform::{Arch, MachineOs};
use xtask::quote::shell_quote;
use xtask::tasks::RunStatus;

/// Stand-ins for the repository's guest scripts, each holding the lines that
/// identify it.
fn fixture_scripts() -> GuestScripts {
    GuestScripts {
        centos_stream_os_setup: "echo 'Preparing ${PRETTY_NAME:-CentOS Stream 10}'\n\
             getenforce | grep -q Enforcing || { echo 'SELinux must be Enforcing'; exit 1; }"
            .to_owned(),
        ubuntu_os_setup: "echo 'Preparing Ubuntu'".to_owned(),
        centos_stream_development_setup:
            "echo 'Installing OpenShell development dependencies on CentOS Stream'\n\
             echo 'Installing Z3 ${z3_version} for OpenShell development'"
                .to_owned(),
        ubuntu_development_setup: "echo 'Installing OpenShell development dependencies'"
            .to_owned(),
        common_development_setup: "echo 'Installing mise'".to_owned(),
        centos_stream_podman_setup: "echo 'Installing rootless Podman on CentOS Stream'\n\
             mkdir -p ~/.config/containers/containers.conf.d\n\
             touch ~/.config/containers/containers.conf.d/99-openshell.conf"
            .to_owned(),
        ubuntu_podman_setup: "echo 'Installing rootless Podman'\n\
             printf 'log_driver = \"k8s-file\"\\nevents_logger = \"file\"\\n'"
            .to_owned(),
        common_podman_setup: "echo 'Enabling the rootless Podman socket'".to_owned(),
        selinux_audit_validation: "ausearch -m AVC -ts \"${OPENSHELL_SELINUX_AUDIT_START}\""
            .to_owned(),
        sync_development_source: "rsync -a \"${OPENSHELL_SOURCE_MOUNT}/\" \"${OPENSHELL_GUEST_SOURCE_DIR}/\""
            .to_owned(),
        release_smoke_ubuntu_podman_rootless: "echo 'Installing Ubuntu release artifact'\n\
             echo 'Creating a sandbox and verifying default-deny networking'"
            .to_owned(),
    }
}

#[test]
fn composes_setup_and_delegates_to_the_local_runner() {
    let scripts = fixture_scripts();
    let source: &[u8] = b"/Volumes/work/OpenShell";
    let cache_disk = development_cache_disk(
        MachineOs::Ubuntu24_04,
        Arch::Arm64,
        E2eSuite::Podman,
        source,
    );
    assert_eq!(cache_disk.size, "50GiB");
    assert_eq!(cache_disk.filesystem, "ext4");
    assert_eq!(
        cache_disk.name,
        "os-e2e-cache-ubuntu2404-podman-a64-7e4fa9a2"
    );
    let cache_mount = Provider::Lima.persistent_disk_mount_point(&cache_disk);

    let setup = development_setup_script(
        MachineOs::Ubuntu24_04,
        E2eSuite::Podman,
        source,
        Some(cache_mount.as_str()),
        &scripts,
    )
    .expect("setup should be supported");
    let os_index = setup.find("Preparing Ubuntu").expect("OS setup");
    let development_index = setup
        .find("Installing OpenShell development dependencies")
        .expect("development setup");
    let podman_index = setup
        .find("Installing rootless Podman")
        .expect("Podman setup");
    let podman_activation_index = setup
        .find("Enabling the rootless Podman socket")
        .expect("Podman common setup");
    assert!(setup.contains("log_driver = \"k8s-file\""));
    assert!(setup.contains("events_logger = \"file\""));
    let mise_index = setup.find("Installing mise").expect("mise setup");
    assert!(os_index < development_index);
    assert!(development_index < podman_index);
    assert!(podman_index < podman_activation_index);
    assert!(podman_activation_index < mise_index);

    let selection = E2eSelection {
        suite: E2eSuite::Podman,
        test: Some("smoke".to_owned()),
    };
    let test = e2e_guest_script(
        &selection,
        MachineOs::Ubuntu24_04,
        source,
        Some(cache_mount.as_str()),
        &scripts,
    )
    .expect("test should be supported");
    assert!(test.contains("exec cargo xtask e2e --suite 'podman' --test 'smoke'"));
    assert!(!test.contains("OPENSHELL_E2E_PODMAN_TEST"));
    assert!(test.contains("export OPENSHELL_SOURCE_MOUNT='/Volumes/work/OpenShell'"));
    assert!(test.contains(
        "export OPENSHELL_CACHE_DISK='/mnt/lima-os-e2e-cache-ubuntu2404-podman-a64-7e4fa9a2'"
    ));
}

#[test]
fn composes_a_podman_only_centos_stream_selinux_target() {
    let scripts = fixture_scripts();
    let source: &[u8] = b"/Volumes/work/OpenShell";
    let setup = development_setup_script(
        MachineOs::CentosStream10,
        E2eSuite::Podman,
        source,
        None,
        &scripts,
    )
    .expect("CentOS Stream setup should be supported");

    let os_index = setup
        .find("Preparing ${PRETTY_NAME:-CentOS Stream 10}")
        .expect("CentOS Stream OS setup");
    let development_index = setup
        .find("Installing OpenShell development dependencies on CentOS Stream")
        .expect("CentOS Stream development setup");
    let z3_index = setup
        .find("Installing Z3 ${z3_version} for OpenShell development")
        .expect("CentOS Stream Z3 setup");
    let podman_index = setup
        .find("Installing rootless Podman on CentOS Stream")
        .expect("CentOS Stream Podman setup");
    let podman_activation_index = setup
        .find("Enabling the rootless Podman socket")
        .expect("common Podman setup");
    assert!(os_index < development_index);
    assert!(development_index < z3_index);
    assert!(z3_index < podman_index);
    assert!(podman_index < podman_activation_index);
    assert!(setup.contains("SELinux must be Enforcing"));
    assert!(!setup.contains("z3-devel"));
    assert!(!setup.contains("dockerd"));
    assert!(!setup.contains("docker.service"));
    assert!(setup.contains("containers.conf.d"));
    assert!(setup.contains("99-openshell.conf"));

    let selection = E2eSelection {
        suite: E2eSuite::Podman,
        test: None,
    };
    let test = e2e_guest_script(&selection, MachineOs::CentosStream10, source, None, &scripts)
        .expect("CentOS Stream test should be supported");
    assert!(test.contains("cargo xtask e2e --suite 'podman'"));
    assert!(!test.contains("exec cargo xtask e2e"));
    assert!(test.contains("OPENSHELL_SELINUX_AUDIT_START"));
    assert!(test.contains("ausearch"));
    assert!(test.contains("exit \"${e2e_status}\""));
}

#[test]
fn quotes_source_paths_and_test_names_for_the_guest_shell() {
    assert_eq!(
        shell_quote_path(b"/tmp/source'checkout").expect("path should quote"),
        "'/tmp/source'\"'\"'checkout'"
    );
    assert_eq!(shell_quote("test'name"), "'test'\"'\"'name'");
}

#[test]
fn rejects_source_paths_that_are_not_utf8() {
    assert_eq!(
        shell_quote_path(b"/tmp/\xffsource"),
        Err("source path is not valid UTF-8: /tmp/\u{fffd}source".to_owned())
    );
}

#[test]
fn writes_the_exact_guest_environment() {
    assert_eq!(
        guest_environment(b"/src", None).unwrap(),
        "export OPENSHELL_SOURCE_MOUNT='/src'\n\
         export OPENSHELL_GUEST_SOURCE_DIR=\"${HOME}/.local/share/openshell-e2e/source\"\n\
         export OPENSHELL_CACHE_DISK=\"${OPENSHELL_GUEST_SOURCE_DIR}/.cache\"\n\
         export CARGO_TARGET_DIR=\"${OPENSHELL_GUEST_SOURCE_DIR}/target\""
    );
    assert_eq!(
        guest_environment(b"/src", Some("/mnt/cache")).unwrap(),
        "export OPENSHELL_SOURCE_MOUNT='/src'\n\
         export OPENSHELL_GUEST_SOURCE_DIR=\"${HOME}/.local/share/openshell-e2e/source\"\n\
         export OPENSHELL_CACHE_DISK='/mnt/cache'\n\
         export CARGO_TARGET_DIR=\"${OPENSHELL_CACHE_DISK}/cargo-target\""
    );
}

#[test]
fn the_setup_script_ends_by_installing_the_tools() {
    let setup = development_setup_script(
        MachineOs::Ubuntu26_04,
        E2eSuite::Podman,
        b"/src",
        None,
        &fixture_scripts(),
    )
    .unwrap();
    assert!(setup.ends_with(
        "export PATH=\"${HOME}/.local/bin:${HOME}/.local/share/mise/shims:${PATH}\"\n\
         cd \"${OPENSHELL_GUEST_SOURCE_DIR}\"\n\
         mise trust mise.toml\n\
         mise install --locked\n\
         mise reshim\n"
    ));
}

#[test]
fn recognizes_host_architectures() {
    assert_eq!(host_arch("x86_64"), Ok(Arch::Amd64));
    assert_eq!(host_arch("aarch64"), Ok(Arch::Arm64));
    assert_eq!(
        host_arch("riscv64"),
        Err("unsupported host architecture: riscv64 (pass --arch amd64 or --arch arm64)"
            .to_owned())
    );
}

#[test]
fn plans_a_snapshotted_e2e_machine() {
    let options = MachineOptions {
        arch: None,
        keep: true,
        provider: Provider::Lima,
        rebuild: false,
        snapshot: true,
        os: MachineOs::Ubuntu24_04,
    };
    let selection = E2eSelection {
        suite: E2eSuite::Podman,
        test: None,
    };
    let plan = plan_e2e_machine(
        &selection,
        &options,
        b"/Volumes/work/OpenShell",
        "aarch64",
        b"toml",
        b"lock",
        &fixture_scripts(),
    )
    .expect("plan should succeed");
    let request = &plan.request;
    assert_eq!(request.arch, Arch::Arm64);
    assert_eq!(request.purpose, "e2e");
    assert_eq!(request.profile, "podman");
    assert_eq!(request.forward_env, vec!["MISE_GITHUB_TOKEN"]);
    assert!(request.keep_on_failure);
    assert_eq!(
        request.reuse,
        ReusePolicy::ReusePrepared {
            rebuild: false,
            preparation_key: stable_hash(&[b"toml", b"lock"]),
        }
    );
    assert_eq!(request.host_mounts.len(), 1);
    assert_eq!(request.host_mounts[0].path, b"/Volumes/work/OpenShell".to_vec());
    assert_eq!(
        request.persistent_disks[0].name,
        "os-e2e-cache-ubuntu2404-podman-a64-7e4fa9a2"
    );
    assert!(plan.test_script.contains(
        "export OPENSHELL_CACHE_DISK='/mnt/lima-os-e2e-cache-ubuntu2404-podman-a64-7e4fa9a2'"
    ));

    let unknown_host = plan_e2e_machine(
        &selection,
        &options,
        b"/src",
        "sparc",
        b"",
        b"",
        &fixture_scripts(),
    );
    assert!(unknown_host.is_err());
}

#[test]
fn combines_test_and_release_outcomes() {
    let passed = RunStatus { code: Some(0) };
    let failed = RunStatus { code: Some(2) };
    assert_eq!(combine_run_and_release(Ok(passed), Ok(())), (Ok(passed), None));
    assert_eq!(
        combine_run_and_release(Err("test".to_owned()), Ok(())),
        (Err("test".to_owned()), None)
    );
    assert_eq!(
        combine_run_and_release(Err("test".to_owned()), Err("stop".to_owned())),
        (Err("test; release also failed: stop".to_owned()), None)
    );
    assert_eq!(
        combine_run_and_release(Ok(passed), Err("stop".to_owned())),
        (Err("stop".to_owned()), None)
    );
    assert_eq!(
        combine_run_and_release(Ok(failed), Err("stop".to_owned())),
        (Ok(failed), Some("warning: stop".to_owned()))
    );
}
