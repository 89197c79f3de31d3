use xtask::machine::{MachineRequest, PersistentDisk, ReusePolicy};
use xtask::platform::{Arch, MachineOs};
use xtask::provision::{
    finish_preparation, LimaEvent, LimaMachine, LimaProvisioning, LimaRelease, LimaStep, LimaWork,
    ReleaseWork,
};
use xtask::tasks::{CommandLine, RunStatus};

fn request(keep_on_failure: bool, reuse: ReusePolicy) -> MachineRequest {
    MachineRequest {
        os: MachineOs::Ubuntu24_04,
        arch: Arch::Arm64,
        purpose: "e2e",
        profile: "podman",
        forward_env: vec!["MISE_GITHUB_TOKEN"],
        keep_on_failure,
        reuse,
        host_mounts: Vec::new(),
        persistent_disks: Vec::new(),
    }
}

fn ok() -> LimaEvent {
    LimaEvent::Finished(RunStatus { code: Some(0) }, Vec::new())
}

fn output(text: &str) -> LimaEvent {
    LimaEvent::Finished(RunStatus { code: Some(0) }, text.as_bytes().to_vec())
}

fn args(command: &CommandLine) -> Vec<String> {
    command
        .args
        .iter()
        .map(|argument| String::from_utf8_lossy(argument).into_owned())
        .collect()
}

fn run_args(step: &LimaStep) -> Vec<String> {
    match &step.work {
        LimaWork::Run(command) | LimaWork::Capture(command) => args(command),
        LimaWork::RunScript(command, _) => args(command),
        LimaWork::Done(_) => Vec::new(),
    }
}

/// Drives an ephemeral acquisition up to the setup script; returns the state
/// and the instance name.
fn up_to_setup(keep_on_failure: bool) -> (LimaProvisioning, String) {
    let (state, step) = LimaProvisioning::start(
        request(keep_on_failure, ReusePolicy::Ephemeral),
        "setup".to_owned(),
        42,
    );
    assert_eq!(run_args(&step), ["--version"]);
    let (state, step) = state.step(ok());
    assert_eq!(run_args(&step), ["list", "--format", "{{.Name}}\t{{.Status}}"]);
    let (state, step) = state.step(output(""));
    let start = run_args(&step);
    assert_eq!(start[0..3], ["--tty=false", "start", "--name"]);
    let name = start[3].clone();
    assert!(name.starts_with("openshell-e2e-ubuntu-24.04-"));
    assert!(start.contains(&"--plain".to_owned()));
    assert_eq!(start.last().map(String::as_str), Some("template:ubuntu-24.04"));
    assert_eq!(step.stdout, [format!("==> Creating Lima instance {name}")]);
    let (state, step) = state.step(ok());
    match &step.work {
        LimaWork::RunScript(command, script) => {
            assert_eq!(script, "setup");
            assert_eq!(
                args(command),
                ["--tty=false", "shell", "--preserve-env", name.as_str(), "bash", "-s"]
            );
        }
        _ => panic!("the setup script should run next"),
    }
    (state, name)
}

#[test]
fn provisions_an_ephemeral_machine() {
    let (state, name) = up_to_setup(false);
    let (_, step) = state.step(ok());
    match step.work {
        LimaWork::Done(Ok(LimaMachine {
            name: machine,
            reusable,
            forward_env,
        })) => {
            assert_eq!(machine, name);
            assert!(!reusable);
            assert_eq!(forward_env, vec!["MISE_GITHUB_TOKEN"]);
        }
        _ => panic!("the machine should be ready"),
    }
}

#[test]
fn cleanup_runs_only_when_the_machine_is_not_kept() {
    let (state, name) = up_to_setup(false);
    let (state, step) = state.step(LimaEvent::Failed("setup failed".to_owned()));
    assert_eq!(step.stderr, [format!("==> Removing incomplete Lima instance {name}")]);
    assert_eq!(run_args(&step), ["list", "--format", "{{.Name}}\t{{.Status}}"]);
    let (state, step) = state.step(output(&format!("{name}\tStopped\n")));
    assert_eq!(run_args(&step), ["--tty=false", "delete", "--force", name.as_str()]);
    let (_, step) = state.step(ok());
    match step.work {
        LimaWork::Done(Err(error)) => assert_eq!(error, "setup failed"),
        _ => panic!("the failure should be reported"),
    }

    let (state, name) = up_to_setup(true);
    let (_, step) = state.step(LimaEvent::Failed("setup failed".to_owned()));
    assert_eq!(
        step.stderr,
        [format!("VM kept for inspection after provisioning failure: {name}")]
    );
    match step.work {
        LimaWork::Done(Err(error)) => assert_eq!(error, "setup failed"),
        _ => panic!("a kept machine should not be cleaned up"),
    }
}

#[test]
fn a_failed_cleanup_is_reported_with_the_failure() {
    let (state, name) = up_to_setup(false);
    let (state, _) = state.step(LimaEvent::Finished(RunStatus { code: Some(7) }, Vec::new()));
    let (state, _) = state.step(output(&format!("{name}\tRunning\n")));
    let (_, step) = state.step(LimaEvent::Finished(RunStatus { code: Some(1) }, Vec::new()));
    match step.work {
        LimaWork::Done(Err(error)) => assert_eq!(
            error,
            "VM setup failed with exit code 7; cleanup also failed: \
             delete the incomplete Lima test instance failed with exit code 1"
        ),
        _ => panic!("both failures should be reported"),
    }
}

#[test]
fn a_missing_lima_is_reported() {
    let (state, _) = LimaProvisioning::start(
        request(false, ReusePolicy::Ephemeral),
        "setup".to_owned(),
        1,
    );
    let (_, step) = state.step(LimaEvent::Failed("No such file or directory".to_owned()));
    match step.work {
        LimaWork::Done(Err(error)) => assert_eq!(
            error,
            "failed to execute check the Lima installation: No such file or directory"
        ),
        _ => panic!("the missing installation should be reported"),
    }
}

#[test]
fn restores_a_prepared_snapshot() {
    let reuse = ReusePolicy::ReusePrepared {
        rebuild: false,
        preparation_key: 3,
    };
    let (state, _) = LimaProvisioning::start(request(false, reuse), "setup".to_owned(), 1);
    let (state, step) = state.step(ok());
    assert_eq!(run_args(&step), ["start", "--list-drivers"]);
    let (state, step) = state.step(output("vz\nqemu\n"));
    assert!(step.stderr.is_empty());
    let (state, step) = state.step(output("none\tRunning\n"));
    // Nothing is listed under this machine's name, so a new one is created.
    assert!(run_args(&step).contains(&"--vm-type".to_owned()));
    let name = run_args(&step)[3].clone();
    drop((state, step));

    let (state, _) = LimaProvisioning::start(request(false, reuse), "setup".to_owned(), 1);
    let (state, _) = state.step(ok());
    let (state, _) = state.step(output("qemu\n"));
    let (state, step) = state.step(output(&format!("{name}\tStopped\n")));
    assert_eq!(run_args(&step), ["snapshot", "list", name.as_str(), "--quiet"]);
    let tag = {
        let (state2, _) = LimaProvisioning::start(request(false, reuse), "setup".to_owned(), 1);
        drop(state2);
        xtask::lima::snapshot_tag(&request(false, reuse), "setup")
    };
    let (state, step) = state.step(output(&format!("{tag}\n")));
    assert_eq!(run_args(&step), ["list", "--format", "{{.Name}}\t{{.Status}}"]);
    let (state, step) = state.step(output(&format!("{name}\tStopped\n")));
    assert_eq!(step.stdout, [format!("==> Restoring Lima snapshot {tag}")]);
    assert_eq!(
        run_args(&step),
        ["--tty=false", "snapshot", "apply", name.as_str(), "--tag", tag.as_str()]
    );
    let (state, step) = state.step(ok());
    assert_eq!(run_args(&step), ["--tty=false", "start", name.as_str()]);
    let (_, step) = state.step(ok());
    assert!(matches!(step.work, LimaWork::Done(Ok(ref machine)) if machine.reusable));
}

#[test]
fn warns_when_qemu_is_missing() {
    let reuse = ReusePolicy::ReusePrepared {
        rebuild: false,
        preparation_key: 0,
    };
    let (state, _) = LimaProvisioning::start(request(false, reuse), "setup".to_owned(), 1);
    let (state, _) = state.step(ok());
    let (_, step) = state.step(output("vz\n"));
    assert_eq!(
        step.stderr,
        ["warning: QEMU is not available; using Lima's default backend without snapshots"]
    );
}

#[test]
fn creates_missing_disks_and_attaches_listed_ones() {
    let mut wanted = request(false, ReusePolicy::Ephemeral);
    wanted.persistent_disks = vec![
        PersistentDisk::ext4("listed", "1GiB"),
        PersistentDisk::ext4("missing", "2GiB"),
    ];
    let (state, _) = LimaProvisioning::start(wanted, "setup".to_owned(), 1);
    let (state, step) = state.step(ok());
    assert_eq!(run_args(&step), ["--tty=false", "disk", "list", "--json"]);
    let (state, step) = state.step(output("{\"name\":\"listed\",\"size\":1}\n"));
    assert_eq!(step.stdout, ["==> Creating Lima disk missing (2GiB)"]);
    assert_eq!(
        run_args(&step),
        ["--tty=false", "disk", "create", "missing", "--size", "2GiB"]
    );
    let (state, _) = state.step(ok());
    let (_, step) = state.step(output(""));
    let start = run_args(&step);
    let set = start
        .iter()
        .position(|argument| argument == "--set")
        .expect("disks should be attached");
    assert_eq!(
        start[set + 1],
        r#".additionalDisks = [{"name":"listed","format":false,"fsType":"ext4"},{"name":"missing","format":true,"fsType":"ext4"}]"#
    );
}

#[test]
fn releases_machines_by_how_they_were_prepared() {
    let machine = LimaMachine {
        name: "vm".to_owned(),
        reusable: false,
        forward_env: Vec::new(),
    };
    let (release, work) = LimaRelease::start(&machine);
    match &work {
        ReleaseWork::Run(command) => {
            assert_eq!(args(command), ["--tty=false", "delete", "--force", "vm"])
        }
        _ => panic!("an ephemeral machine is deleted"),
    }
    let (_, work) = release.step(ok());
    assert!(matches!(work, ReleaseWork::Done(Ok(()))));

    let reusable = LimaMachine {
        reusable: true,
        ..machine
    };
    let (release, work) = LimaRelease::start(&reusable);
    assert!(matches!(work, ReleaseWork::Capture(_)));
    let (release, work) = release.step(output("vm\tRunning\n"));
    match &work {
        ReleaseWork::Run(command) => assert_eq!(args(command), ["--tty=false", "stop", "vm"]),
        _ => panic!("a running reusable machine is stopped"),
    }
    let (_, work) = release.step(LimaEvent::Finished(RunStatus { code: None }, Vec::new()));
    match work {
        ReleaseWork::Done(Err(error)) => {
            assert_eq!(error, "stop the Lima test instance failed with exit code signal")
        }
        _ => panic!("the failed stop should be reported"),
    }
}

#[test]
fn copies_files_to_the_guest_path() {
    let machine = LimaMachine {
        name: "vm".to_owned(),
        reusable: false,
        forward_env: Vec::new(),
    };
    let command = machine.copy_command(b"/tmp/a.deb", "/tmp/openshell-release.deb");
    assert_eq!(
        args(&command),
        ["--tty=false", "copy", "--backend=scp", "/tmp/a.deb", "vm:/tmp/openshell-release.deb"]
    );
    assert_eq!(machine.name(), "vm");
}

#[test]
fn cleans_up_failed_provisioning_unless_the_vm_was_requested() {
    let cleaned = std::cell::Cell::new(false);
    let (result, stderr): (Result<(), String>, Vec<String>) = finish_preparation(
        Err("setup failed".to_owned()),
        "test-vm",
        false,
        "Cleaning test VM",
        || {
            cleaned.set(true);
            Ok(())
        },
    );
    assert_eq!(result.expect_err("setup should fail"), "setup failed");
    assert!(cleaned.get());
    assert_eq!(stderr, vec!["==> Cleaning test VM".to_owned()]);

    cleaned.set(false);
    let (result, stderr): (Result<(), String>, Vec<String>) = finish_preparation(
        Err("setup failed".to_owned()),
        "test-vm",
        true,
        "Cleaning test VM",
        || {
            cleaned.set(true);
            Ok(())
        },
    );
    assert_eq!(result.expect_err("setup should fail"), "setup failed");
    assert!(!cleaned.get());
    assert_eq!(
        stderr,
        vec!["VM kept for inspection after provisioning failure: test-vm".to_owned()]
    );
}

#[test]
fn reports_a_provisioning_cleanup_failure() {
    let (result, _stderr): (Result<(), String>, Vec<String>) = finish_preparation(
        Err("setup failed".to_owned()),
        "test-vm",
        false,
        "Cleaning test VM",
        || Err("delete failed".to_owned()),
    );

    assert_eq!(
        result.expect_err("setup and cleanup should fail"),
        "setup failed; cleanup also failed: delete failed"
    );
}

#[test]
fn a_successful_preparation_passes_through_without_cleanup() {
    let cleaned = std::cell::Cell::new(false);
    let (result, stderr) = finish_preparation(Ok(7u8), "test-vm", false, "Cleaning test VM", || {
        cleaned.set(true);
        Ok(())
    });
    assert_eq!(result, Ok(7));
    assert!(!cleaned.get());
    assert!(stderr.is_empty());
}
