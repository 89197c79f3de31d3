//! The `release-smoke-test` task: testing a Debian release artifact on a
//! target machine.

use vstd::prelude::*;
use crate::e2e_machine::{GuestScripts, MachinePlan};
use crate::machine::{
    DEFAULT_MACHINE_OS, MachineOptions, MachineOptionsBuilder, MachineRequest, arg_at,
    builder_finish, builder_reads, empty_builder, options_reuse_policy,
};
use crate::platform::{Arch, MachineOs, OsFamily, machine_os_from_text, os_family, os_id, parse_machine_os};
use crate::tasks::{Argument, ArgumentView, arg_text, string_result, text_result};
use crate::text::{concat2, concat3, ends_with, join_strs, join_texts, same_text, str_texts, text_ends_with};

verus! {

/// Where the artifact is copied inside the machine.
pub const GUEST_RELEASE_ARTIFACT_PATH: &'static str = "/tmp/openshell-release.deb";

/// A parsed `release-smoke-test` command line.
#[derive(Debug, Clone, PartialEq, Eq)]
pub struct ReleaseSmokeTestCommand {
    /// The path of the Debian artifact, as it was given.
    pub deb: Argument,
    pub machine: MachineOptions,
}

/// What has been read of the arguments so far: the artifact, the OS and the
/// machine options.
pub type ReleaseScan = (Option<ArgumentView>, Option<MachineOs>, MachineOptionsBuilder);

/// Reads the `release-smoke-test` arguments from position `pos` on.
pub open spec fn release_scan(args: Seq<Argument>, pos: int, scan: ReleaseScan) -> Result<
    ReleaseScan,
    Seq<char>,
>
    decreases args.len() - pos,
{
    if pos < 0 || pos >= args.len() {
        Ok(scan)
    } else {
        let (deb, os, builder) = scan;
        match arg_text(args[pos]) {
            None => Err("release-smoke-test options must be valid UTF-8"@),
            Some(t) => if t == "--deb"@ {
                match arg_at(args, pos + 1) {
                    None => Err("--deb requires a path"@),
                    Some(v) => if deb is Some {
                        Err("--deb may only be specified once"@)
                    } else {
                        release_scan(args, pos + 2, (Some(v@), os, builder))
                    },
                }
            } else if t == "--os"@ {
                match arg_at(args, pos + 1) {
                    None => Err("--os requires a value"@),
                    Some(v) => match machine_os_from_text(arg_text(v), "--os"@) {
                        Err(e) => Err(e),
                        Ok(o) => if os is Some {
                            Err("--os may only be specified once"@)
                        } else {
                            release_scan(args, pos + 2, (deb, Some(o), builder))
                        },
                    },
                }
            } else {
                let (outcome, b, took) = builder_reads(builder, t, arg_at(args, pos + 1));
                match outcome {
                    Err(e) => Err(e),
                    Ok(true) => release_scan(
                        args,
                        pos + 1 + if took {
                            1int
                        } else {
                            0
                        },
                        (deb, os, b),
                    ),
                    Ok(false) => Err("unknown release-smoke-test option: "@ + t),
                }
            },
        }
    }
}

/// The command a complete reading of the arguments yields: the artifact and
/// the machine options, on Ubuntu only.
pub open spec fn release_outcome(scanned: Result<ReleaseScan, Seq<char>>) -> Result<
    (ArgumentView, MachineOptions),
    Seq<char>,
> {
    match scanned {
        Err(e) => Err(e),
        Ok((deb, os, builder)) => {
            let chosen = match os {
                Some(o) => o,
                None => DEFAULT_MACHINE_OS,
            };
            if os_family(chosen) != OsFamily::Ubuntu {
                Err(
                    "release-smoke-test does not support --os "@ + os_id(chosen)
                        + " (expected ubuntu-24.04 or ubuntu-26.04)"@,
                )
            } else {
                match deb {
                    None => Err("release-smoke-test requires --deb <path>"@),
                    Some(d) => match builder_finish(builder, Some(chosen)) {
                        Err(e) => Err(e),
                        Ok(Some(m)) => Ok((d, m)),
                        Ok(None) => Err("release smoke tests always request a target machine"@),
                    },
                }
            }
        },
    }
}

/// The view of an optional argument.
pub open spec fn opt_arg_view(a: Option<Argument>) -> Option<ArgumentView> {
    match a {
        Some(v) => Some(v@),
        None => None,
    }
}

/// What the `release-smoke-test` arguments parse to.
pub open spec fn release_parse(args: Seq<Argument>) -> Result<(ArgumentView, MachineOptions), Seq<char>> {
    release_outcome(release_scan(args, 0, (None, None, empty_builder())))
}

/// A release smoke test always gets a machine: finishing the machine options
/// with an OS never yields "no machine".
pub proof fn lemma_an_os_always_selects_a_machine(b: MachineOptionsBuilder, os: MachineOs)
    ensures
        !(builder_finish(b, Some(os)) matches Ok(None)),
{
}

impl ReleaseSmokeTestCommand {
    /// Parses the arguments of the `release-smoke-test` task.
    #[verifier::spinoff_prover]
    pub fn parse(args: &[Argument]) -> (r: Result<ReleaseSmokeTestCommand, String>)
        ensures
            match r {
                Ok(c) => release_parse(args@) == Ok::<_, Seq<char>>((c.deb@, c.machine)),
                Err(e) => release_parse(args@) == Err::<(ArgumentView, MachineOptions), _>(e@),
            },
    {
        let mut deb: Option<Argument> = None;
        let mut os: Option<MachineOs> = None;
        let mut machine = MachineOptionsBuilder::default();
        let mut pos: usize = 0;
        while pos < args.len()
            invariant
                pos <= args@.len(),
                release_parse(args@) == release_outcome(
                    release_scan(args@, pos as int, (opt_arg_view(deb), os, machine)),
                ),
            decreases args@.len() - pos,
        {
            let argument = &args[pos];
            let ghost here = pos as int;
            pos = pos + 1;
            let text = match argument.to_str() {
                Some(t) => t,
                None => {
                    assert(arg_text(args@[here]) is None);
                    return Err(String::from_str("release-smoke-test options must be valid UTF-8"));
                },
            };
            if same_text(text, "--deb") {
                if pos >= args.len() {
                    assert(arg_at(args@, here + 1) is None);
                    return Err(String::from_str("--deb requires a path"));
                }
                let value = args[pos].duplicate();
                pos = pos + 1;
                if deb.is_some() {
                    return Err(String::from_str("--deb may only be specified once"));
                }
                deb = Some(value);
            } else if same_text(text, "--os") {
                if pos >= args.len() {
                    return Err(String::from_str("--os requires a value"));
                }
                let value = &args[pos];
                pos = pos + 1;
                let parsed = match parse_machine_os(value.to_str(), "--os") {
                    Ok(o) => o,
                    Err(e) => return Err(e),
                };
                if os.is_some() {
                    return Err(String::from_str("--os may only be specified once"));
                }
                os = Some(parsed);
            } else {
                let consumed = match machine.parse_argument(text, args, &mut pos) {
                    Ok(b) => b,
                    Err(e) => return Err(e),
                };
                if !consumed {
                    return Err(concat2("unknown release-smoke-test option: ", text));
                }
            }
        }
        let chosen = match os {
            Some(o) => o,
            None => DEFAULT_MACHINE_OS,
        };
        match chosen.family() {
            OsFamily::Ubuntu => {},
            OsFamily::CentosStream => {
                return Err(
                    concat3(
                        "release-smoke-test does not support --os ",
                        chosen.id(),
                        " (expected ubuntu-24.04 or ubuntu-26.04)",
                    ),
                );
            },
        }
        let deb = match deb {
            Some(d) => d,
            None => return Err(String::from_str("release-smoke-test requires --deb <path>")),
        };
        match machine.finish(Some(chosen)) {
            Err(e) => Err(e),
            Ok(Some(m)) => Ok(ReleaseSmokeTestCommand { deb, machine: m }),
            Ok(None) => {
                proof {
                    lemma_an_os_always_selects_a_machine(machine, chosen);
                }
                vstd::pervasive::unreached()
            },
        }
    }
}

/// The error for a machine OS that release smoke tests do not support.
pub open spec fn unsupported_os_error(os: MachineOs) -> Seq<char> {
    "release-smoke-test does not support --os "@ + os_id(os)
}

/// The script that tests the artifact: where the artifact is, then the
/// rootless Podman smoke test.
pub open spec fn release_guest_text(os: MachineOs, sc: GuestScripts) -> Result<Seq<char>, Seq<char>> {
    match os_family(os) {
        OsFamily::CentosStream => Err(unsupported_os_error(os)),
        OsFamily::Ubuntu => Ok(
            "export OPENSHELL_RELEASE_ARTIFACT="@ + "/tmp/openshell-release.deb"@ + "\n"@
                + sc.release_smoke_ubuntu_podman_rootless@,
        ),
    }
}

/// The script that tests the artifact on the machine.
pub fn release_smoke_guest_script(os: MachineOs, scripts: &GuestScripts) -> (r: Result<String, String>)
    ensures
        string_result(r) == release_guest_text(os, *scripts),
{
    match os.family() {
        OsFamily::CentosStream => Err(concat2("release-smoke-test does not support --os ", os.id())),
        OsFamily::Ubuntu => Ok(
            concat3(
                "export OPENSHELL_RELEASE_ARTIFACT=",
                GUEST_RELEASE_ARTIFACT_PATH,
                "\n",
            ).concat(scripts.release_smoke_ubuntu_podman_rootless.as_str()),
        ),
    }
}

/// The script that prepares the machine: OS setup, then Podman setup.
pub open spec fn release_setup_text(os: MachineOs, sc: GuestScripts) -> Result<Seq<char>, Seq<char>> {
    match os_family(os) {
        OsFamily::CentosStream => Err(unsupported_os_error(os)),
        OsFamily::Ubuntu => Ok(
            join_texts(
                seq![sc.ubuntu_os_setup@, sc.ubuntu_podman_setup@, sc.common_podman_setup@],
                "\n"@,
            ),
        ),
    }
}

/// The script that prepares the machine for the smoke test.
pub fn release_setup_script(os: MachineOs, scripts: &GuestScripts) -> (r: Result<String, String>)
    ensures
        string_result(r) == release_setup_text(os, *scripts),
{
    match os.family() {
        OsFamily::CentosStream => Err(concat2("release-smoke-test does not support --os ", os.id())),
        OsFamily::Ubuntu => {
            let parts = [
                scripts.ubuntu_os_setup.as_str(),
                scripts.ubuntu_podman_setup.as_str(),
                scripts.common_podman_setup.as_str(),
            ];
            let joined = join_strs(&parts, "\n");
            assert(str_texts(parts@) =~= seq![
                scripts.ubuntu_os_setup@,
                scripts.ubuntu_podman_setup@,
                scripts.common_podman_setup@,
            ]);
            Ok(joined)
        },
    }
}

/// The architecture an artifact's file name names, or the host's otherwise.
pub open spec fn deb_arch(file_name: Seq<char>, host_arch_name: Seq<char>) -> Arch {
    if ends_with(file_name, "_arm64.deb"@) || ends_with(file_name, "-arm64.deb"@) {
        Arch::Arm64
    } else if ends_with(file_name, "_amd64.deb"@) || ends_with(file_name, "-amd64.deb"@) {
        Arch::Amd64
    } else if host_arch_name == "aarch64"@ {
        Arch::Arm64
    } else {
        Arch::Amd64
    }
}

/// The two suffixes that name one architecture can never both end a name
/// that ends in a suffix naming the other: they differ in their third character.
proof fn lemma_arch_suffixes_exclusive(name: Seq<char>, amd: Seq<char>, arm: Seq<char>)
    requires
        amd == "_amd64.deb"@ || amd == "-amd64.deb"@,
        arm == "_arm64.deb"@ || arm == "-arm64.deb"@,
        ends_with(name, amd),
    ensures
        !ends_with(name, arm),
{
    reveal_strlit("_amd64.deb");
    reveal_strlit("-amd64.deb");
    reveal_strlit("_arm64.deb");
    reveal_strlit("-arm64.deb");
    if ends_with(name, arm) {
        assert(amd[2] == arm[2]);
    }
}

/// A Debian artifact whose file name ends in `_arm64.deb` or `-arm64.deb` is
/// tested on arm64, and one ending in `_amd64.deb` or `-amd64.deb` on amd64,
/// whatever the host; only a name with neither suffix takes the host's
/// architecture (arm64 on an `aarch64` host, amd64 otherwise).
pub proof fn lemma_deb_arch_follows_the_file_name(file_name: Seq<char>, host_arch_name: Seq<char>)
    ensures
        ends_with(file_name, "_arm64.deb"@) || ends_with(file_name, "-arm64.deb"@) ==> deb_arch(
            file_name,
            host_arch_name,
        ) == Arch::Arm64,
        ends_with(file_name, "_amd64.deb"@) || ends_with(file_name, "-amd64.deb"@) ==> deb_arch(
            file_name,
            host_arch_name,
        ) == Arch::Amd64,
        !(ends_with(file_name, "_arm64.deb"@) || ends_with(file_name, "-arm64.deb"@) || ends_with(
            file_name,
            "_amd64.deb"@,
        ) || ends_with(file_name, "-amd64.deb"@)) ==> deb_arch(file_name, host_arch_name) == if host_arch_name
            == "aarch64"@ {
            Arch::Arm64
        } else {
            Arch::Amd64
        },
{
    let amd = if ends_with(file_name, "_amd64.deb"@) {
        "_amd64.deb"@
    } else {
        "-amd64.deb"@
    };
    if ends_with(file_name, amd) {
        lemma_arch_suffixes_exclusive(file_name, amd, "_arm64.deb"@);
        lemma_arch_suffixes_exclusive(file_name, amd, "-arm64.deb"@);
    }
}

/// Infers the architecture of a Debian artifact from its file name
/// (`None` when the path has no UTF-8 file name), falling back to the host's
/// architecture, named as in `std::env::consts::ARCH`.
pub fn infer_deb_arch(file_name: Option<&str>, host_arch_name: &str) -> (a: Arch)
    ensures
        a == deb_arch(
            match file_name {
                Some(f) => f@,
                None => Seq::empty(),
            },
            host_arch_name@,
        ),
{
    let name = match file_name {
        Some(f) => f,
        None => "",
    };
    proof {
        reveal_strlit("");
    }
    let ghost fname = match file_name {
        Some(f) => f@,
        None => Seq::<char>::empty(),
    };
    assert(name@ == fname);
    let arm = text_ends_with(name, "_arm64.deb") || text_ends_with(name, "-arm64.deb");
    let amd = text_ends_with(name, "_amd64.deb") || text_ends_with(name, "-amd64.deb");
    assert(arm == (ends_with(fname, "_arm64.deb"@) || ends_with(fname, "-arm64.deb"@)));
    assert(amd == (ends_with(fname, "_amd64.deb"@) || ends_with(fname, "-amd64.deb"@)));
    if arm {
        return Arch::Arm64;
    }
    if amd {
        return Arch::Amd64;
    }
    if same_text(host_arch_name, "aarch64") {
        Arch::Arm64
    } else {
        Arch::Amd64
    }
}

/// Plans the smoke test of the artifact whose file name is `deb_file_name`:
/// the machine to ask for, on the architecture asked for or the artifact's,
/// and the scripts that prepare it and run the test.
pub fn plan_release_smoke(
    options: &MachineOptions,
    deb_file_name: Option<&str>,
    host_arch_name: &str,
    scripts: &GuestScripts,
) -> (r: Result<MachinePlan, String>)
    ensures
        match release_setup_text(options.os, *scripts) {
            Err(e) => r matches Err(m) && m@ == e,
            Ok(setup) => match release_guest_text(options.os, *scripts) {
                Err(e) => r matches Err(m) && m@ == e,
                Ok(test) => r matches Ok(p) && p.setup_script@ == setup && p.test_script@ == test && {
                    let req = p.request;
                    &&& req.os == options.os
                    &&& req.arch == match options.arch {
                        Some(a) => a,
                        None => deb_arch(
                            match deb_file_name {
                                Some(f) => f@,
                                None => Seq::empty(),
                            },
                            host_arch_name@,
                        ),
                    }
                    &&& req.purpose@ == "smoke"@
                    &&& req.profile@ == "podman-rl"@
                    &&& req.forward_env@.len() == 0
                    &&& req.keep_on_failure == options.keep
                    &&& req.reuse == options_reuse_policy(*options, 0)
                    &&& req.host_mounts@.len() == 0
                    &&& req.persistent_disks@.len() == 0
                },
            },
        },
{
    let arch = match options.arch {
        Some(a) => a,
        None => infer_deb_arch(deb_file_name, host_arch_name),
    };
    let setup_script = match release_setup_script(options.os, scripts) {
        Ok(s) => s,
        Err(e) => return Err(e),
    };
    let test_script = match release_smoke_guest_script(options.os, scripts) {
        Ok(s) => s,
        Err(e) => return Err(e),
    };
    let request = MachineRequest {
        os: options.os,
        arch,
        purpose: "smoke",
        profile: "podman-rl",
        forward_env: Vec::new(),
        keep_on_failure: options.keep,
        reuse: options.reuse_policy(0),
        host_mounts: Vec::new(),
        persistent_disks: Vec::new(),
    };
    Ok(MachinePlan { request, setup_script, test_script })
}

} // verus!
