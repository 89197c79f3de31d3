//! Running an e2e suite on a target machine: the cache disk, the guest
//! environment, and the setup and test scripts.

use vstd::prelude::*;
use crate::e2e::{E2eSelection, E2eSuite, opt_string_text, suite_id};
use crate::lima::lima_mount_point;
use crate::machine::{
    FNV_OFFSET, HostMount, MachineOptions, MachineRequest, PersistentDisk, Provider, fnv_bytes,
    fnv_parts, hash_part, path_hash, options_reuse_policy,
};
use crate::platform::{Arch, MachineOs, OsFamily, os_family, os_short_name};
use crate::quote::{shell_quote, shell_quoted};
use crate::tasks::{RunStatus, string_result, text_result};
use crate::text::{
    concat2, concat3, decode_lossy, decode_strict, hex_digits, join_strs, join_texts, lossy_utf8,
    push_hex, same_text, str_texts,
};

verus! {

/// The shell scripts that prepare machines and run tests on them.
#[derive(Debug, Clone)]
pub struct GuestScripts {
    pub centos_stream_os_setup: String,
    pub ubuntu_os_setup: String,
    pub centos_stream_development_setup: String,
    pub ubuntu_development_setup: String,
    pub common_development_setup: String,
    pub centos_stream_podman_setup: String,
    pub ubuntu_podman_setup: String,
    pub common_podman_setup: String,
    pub selinux_audit_validation: String,
    pub sync_development_source: String,
    pub release_smoke_ubuntu_podman_rootless: String,
}

/// Where the guest keeps its copy of the source.
pub const GUEST_SOURCE_DIR: &'static str = "${HOME}/.local/share/openshell-e2e/source";

/// The architecture a host name stands for, or the error for an unknown one.
pub open spec fn host_arch_from(name: Seq<char>) -> Result<Arch, Seq<char>> {
    if name == "x86_64"@ {
        Ok(Arch::Amd64)
    } else if name == "aarch64"@ {
        Ok(Arch::Arm64)
    } else {
        Err(
            "unsupported host architecture: "@ + name
                + " (pass --arch amd64 or --arch arm64)"@,
        )
    }
}

/// The machine architecture for the host's architecture name, as Rust names
/// it in `std::env::consts::ARCH`.
pub fn host_arch(name: &str) -> (r: Result<Arch, String>)
    ensures
        text_result(r) == host_arch_from(name@),
{
    if same_text(name, "x86_64") {
        Ok(Arch::Amd64)
    } else if same_text(name, "aarch64") {
        Ok(Arch::Arm64)
    } else {
        Err(concat3("unsupported host architecture: ", name, " (pass --arch amd64 or --arch arm64)"))
    }
}

/// The short architecture name in cache disk names.
pub open spec fn cache_arch(a: Arch) -> Seq<char> {
    match a {
        Arch::Amd64 => "x64"@,
        Arch::Arm64 => "a64"@,
    }
}

/// The name of the development cache disk of a machine OS, architecture,
/// suite and source checkout.
pub open spec fn cache_disk_name(os: MachineOs, arch: Arch, suite: E2eSuite, source: Seq<u8>) -> Seq<
    char,
> {
    "os-e2e-cache-"@ + os_short_name(os) + "-"@ + suite_id(suite) + "-"@ + cache_arch(arch) + "-"@
        + hex_digits(fnv_bytes(FNV_OFFSET, source) as nat, 8)
}

/// The persistent disk that caches build results between runs of a suite
/// from one checkout on one kind of machine.
pub fn development_cache_disk(os: MachineOs, arch: Arch, suite: E2eSuite, source: &[u8]) -> (d:
    PersistentDisk)
    ensures
        d.name@ == cache_disk_name(os, arch, suite, source@),
        d.size@ == "50GiB"@,
        d.filesystem@ == "ext4"@,
{
    let arch_name = match arch {
        Arch::Amd64 => "x64",
        Arch::Arm64 => "a64",
    };
    let mut name = concat3("os-e2e-cache-", os.short_name(), "-");
    name.append(suite.id());
    name.append("-");
    name.append(arch_name);
    name.append("-");
    push_hex(&mut name, path_hash(source) as u64, 8);
    PersistentDisk::ext4(name.as_str(), "50GiB")
}

/// The cache settings of the guest environment.
pub open spec fn cache_environment(cache_mount: Option<Seq<char>>) -> Seq<char> {
    match cache_mount {
        Some(mount_point) => "export OPENSHELL_CACHE_DISK='"@ + mount_point
            + "'\nexport CARGO_TARGET_DIR=\"${OPENSHELL_CACHE_DISK}/cargo-target\""@,
        None => "export OPENSHELL_CACHE_DISK=\"${OPENSHELL_GUEST_SOURCE_DIR}/.cache\"\nexport CARGO_TARGET_DIR=\"${OPENSHELL_GUEST_SOURCE_DIR}/target\""@,
    }
}

/// The quoted source path, or the error for a path that is not UTF-8.
pub open spec fn quoted_path(path: Seq<u8>) -> Result<Seq<char>, Seq<char>> {
    if vstd::utf8::valid_utf8(path) {
        Ok(shell_quoted(vstd::utf8::decode_utf8(path)))
    } else {
        Err("source path is not valid UTF-8: "@ + lossy_utf8(path))
    }
}

/// The environment every guest script starts with.
pub open spec fn guest_environment_text(source: Seq<u8>, cache_mount: Option<Seq<char>>) -> Result<
    Seq<char>,
    Seq<char>,
> {
    match quoted_path(source) {
        Err(e) => Err(e),
        Ok(q) => Ok(
            "export OPENSHELL_SOURCE_MOUNT="@ + q + "\nexport OPENSHELL_GUEST_SOURCE_DIR=\""@
                + GUEST_SOURCE_DIR@ + "\"\n"@ + cache_environment(cache_mount),
        ),
    }
}

/// Quotes a path for the guest shell; the path must be UTF-8.
pub fn shell_quote_path(path: &[u8]) -> (r: Result<String, String>)
    ensures
        string_result(r) == quoted_path(path@),
{
    match decode_strict(path) {
        Some(text) => Ok(shell_quote(text.as_str())),
        None => {
            let shown = decode_lossy(path);
            Err(concat2("source path is not valid UTF-8: ", shown.as_str()))
        },
    }
}

/// The environment every guest script starts with: where the source is
/// mounted and copied, and where build results are cached.
pub fn guest_environment(source: &[u8], cache_mount: Option<&str>) -> (r: Result<String, String>)
    ensures
        string_result(r) == guest_environment_text(source@, crate::tasks::opt_text(cache_mount)),
{
    let cache = match cache_mount {
        Some(mount_point) => concat3(
            "export OPENSHELL_CACHE_DISK='",
            mount_point,
            "'\nexport CARGO_TARGET_DIR=\"${OPENSHELL_CACHE_DISK}/cargo-target\"",
        ),
        None => String::from_str(
            "export OPENSHELL_CACHE_DISK=\"${OPENSHELL_GUEST_SOURCE_DIR}/.cache\"\nexport CARGO_TARGET_DIR=\"${OPENSHELL_GUEST_SOURCE_DIR}/target\"",
        ),
    };
    let quoted = match shell_quote_path(source) {
        Ok(q) => q,
        Err(e) => return Err(e),
    };
    let mut env = concat2("export OPENSHELL_SOURCE_MOUNT=", quoted.as_str());
    env.append("\nexport OPENSHELL_GUEST_SOURCE_DIR=\"");
    env.append(GUEST_SOURCE_DIR);
    env.append("\"\n");
    env.append(cache.as_str());
    Ok(env)
}

/// The scripts that prepare the operating system.
pub open spec fn os_setup_texts(os: MachineOs, sc: GuestScripts) -> Seq<Seq<char>> {
    match os_family(os) {
        OsFamily::CentosStream => seq![sc.centos_stream_os_setup@],
        OsFamily::Ubuntu => seq![sc.ubuntu_os_setup@],
    }
}

/// The scripts that install the development dependencies.
pub open spec fn development_setup_texts(os: MachineOs, sc: GuestScripts) -> Seq<Seq<char>> {
    match os_family(os) {
        OsFamily::CentosStream => seq![sc.centos_stream_development_setup@],
        OsFamily::Ubuntu => seq![sc.ubuntu_development_setup@],
    }
}

/// The scripts that prepare a suite: the OS-specific part, then the common part.
pub open spec fn suite_setup_texts(suite: E2eSuite, os: MachineOs, sc: GuestScripts) -> Seq<
    Seq<char>,
> {
    match (suite, os_family(os)) {
        (E2eSuite::Podman, OsFamily::CentosStream) => seq![
            sc.centos_stream_podman_setup@,
            sc.common_podman_setup@,
        ],
        (E2eSuite::Podman, OsFamily::Ubuntu) => seq![
            sc.ubuntu_podman_setup@,
            sc.common_podman_setup@,
        ],
    }
}

/// The lines that put the tools on the path and enter the guest's source.
pub open spec fn enter_source_text() -> Seq<char> {
    "export PATH=\"${HOME}/.local/bin:${HOME}/.local/share/mise/shims:${PATH}\"\ncd \"${OPENSHELL_GUEST_SOURCE_DIR}\"\nmise trust mise.toml\nmise install --locked\n"@
}

/// The script that prepares a machine for a suite: the guest environment,
/// then the OS, development, suite and common setup, the source sync, and
/// the tool installation.
pub open spec fn development_setup_text(
    os: MachineOs,
    suite: E2eSuite,
    source: Seq<u8>,
    cache_mount: Option<Seq<char>>,
    sc: GuestScripts,
) -> Result<Seq<char>, Seq<char>> {
    match guest_environment_text(source, cache_mount) {
        Err(e) => Err(e),
        Ok(env) => Ok(
            env + "\n"@ + join_texts(
                os_setup_texts(os, sc) + development_setup_texts(os, sc) + suite_setup_texts(
                    suite,
                    os,
                    sc,
                ) + seq![sc.common_development_setup@, sc.sync_development_source@],
                "\n"@,
            ) + "\n"@ + enter_source_text() + "mise reshim\n"@,
        ),
    }
}

/// The scripts that prepare the operating system.
pub fn os_setup_scripts(os: MachineOs, scripts: &GuestScripts) -> (v: Vec<&str>)
    ensures
        str_texts(v@) == os_setup_texts(os, *scripts),
{
    let mut v: Vec<&str> = Vec::new();
    match os.family() {
        OsFamily::CentosStream => v.push(scripts.centos_stream_os_setup.as_str()),
        OsFamily::Ubuntu => v.push(scripts.ubuntu_os_setup.as_str()),
    }
    assert(str_texts(v@) =~= os_setup_texts(os, *scripts));
    v
}

/// The scripts that install the development dependencies.
pub fn development_setup_scripts(os: MachineOs, scripts: &GuestScripts) -> (v: Vec<&str>)
    ensures
        str_texts(v@) == development_setup_texts(os, *scripts),
{
    let mut v: Vec<&str> = Vec::new();
    match os.family() {
        OsFamily::CentosStream => v.push(scripts.centos_stream_development_setup.as_str()),
        OsFamily::Ubuntu => v.push(scripts.ubuntu_development_setup.as_str()),
    }
    assert(str_texts(v@) =~= development_setup_texts(os, *scripts));
    v
}

/// The scripts that prepare a suite.
pub fn suite_setup_scripts(suite: E2eSuite, os: MachineOs, scripts: &GuestScripts) -> (v: Vec<&str>)
    ensures
        str_texts(v@) == suite_setup_texts(suite, os, *scripts),
{
    let mut v: Vec<&str> = Vec::new();
    match (suite, os.family()) {
        (E2eSuite::Podman, OsFamily::CentosStream) => {
            v.push(scripts.centos_stream_podman_setup.as_str());
            v.push(scripts.common_podman_setup.as_str());
        },
        (E2eSuite::Podman, OsFamily::Ubuntu) => {
            v.push(scripts.ubuntu_podman_setup.as_str());
            v.push(scripts.common_podman_setup.as_str());
        },
    }
    assert(str_texts(v@) =~= suite_setup_texts(suite, os, *scripts));
    v
}

/// Appends the second list to the first.
fn extend_strs<'a>(v: &mut Vec<&'a str>, more: Vec<&'a str>)
    ensures
        str_texts(final(v)@) == str_texts(old(v)@) + str_texts(more@),
{
    for i in 0..more.len()
        invariant
            str_texts(v@) == str_texts(old(v)@) + str_texts(more@.take(i as int)),
    {
        v.push(more[i]);
        assert(str_texts(old(v)@) + str_texts(more@.take(i + 1)) =~= str_texts(old(v)@)
            + str_texts(more@.take(i as int)) + seq![more@[i as int]@]);
    }
    assert(more@.take(more@.len() as int) == more@);
}

/// The script that prepares a machine to run a suite.
pub fn development_setup_script(
    os: MachineOs,
    suite: E2eSuite,
    source: &[u8],
    cache_mount: Option<&str>,
    scripts: &GuestScripts,
) -> (r: Result<String, String>)
    ensures
        string_result(r) == development_setup_text(
            os,
            suite,
            source@,
            crate::tasks::opt_text(cache_mount),
            *scripts,
        ),
{
    let mut parts = os_setup_scripts(os, scripts);
    extend_strs(&mut parts, development_setup_scripts(os, scripts));
    extend_strs(&mut parts, suite_setup_scripts(suite, os, scripts));
    let ghost before = str_texts(parts@);
    parts.push(scripts.common_development_setup.as_str());
    parts.push(scripts.sync_development_source.as_str());
    assert(str_texts(parts@) =~= before + seq![
        scripts.common_development_setup@,
        scripts.sync_development_source@,
    ]);
    let env = match guest_environment(source, cache_mount) {
        Ok(e) => e,
        Err(e) => return Err(e),
    };
    let joined = join_strs(parts.as_slice(), "\n");
    let mut script = concat3(env.as_str(), "\n", joined.as_str());
    script.append("\n");
    script.append(
        "export PATH=\"${HOME}/.local/bin:${HOME}/.local/share/mise/shims:${PATH}\"\ncd \"${OPENSHELL_GUEST_SOURCE_DIR}\"\nmise trust mise.toml\nmise install --locked\n",
    );
    script.append("mise reshim\n");
    Ok(script)
}

/// The command that runs the selected suite inside the guest.
pub open spec fn guest_command_text(suite: E2eSuite, test: Option<Seq<char>>) -> Seq<char> {
    "cargo xtask e2e --suite "@ + shell_quoted(suite_id(suite)) + match test {
        Some(t) => " --test "@ + shell_quoted(t),
        None => Seq::empty(),
    }
}

/// How the guest runs the suite: on CentOS Stream, followed by the SELinux
/// audit check and exiting with the suite's status; on Ubuntu, in place of
/// the shell.
pub open spec fn invocation_text(os: MachineOs, command: Seq<char>, sc: GuestScripts) -> Seq<char> {
    match os_family(os) {
        OsFamily::CentosStream => "export OPENSHELL_SELINUX_AUDIT_START=\"$(date -u '+%m/%d/%Y %H:%M:%S')\"\nset +e\n"@
            + command + "\ne2e_status=$?\nset -e\n"@ + sc.selinux_audit_validation@
            + "\nexit \"${e2e_status}\""@,
        OsFamily::Ubuntu => "exec "@ + command,
    }
}

/// The script that runs a suite on a prepared machine.
pub open spec fn e2e_guest_text(
    suite: E2eSuite,
    test: Option<Seq<char>>,
    os: MachineOs,
    source: Seq<u8>,
    cache_mount: Option<Seq<char>>,
    sc: GuestScripts,
) -> Result<Seq<char>, Seq<char>> {
    match guest_environment_text(source, cache_mount) {
        Err(e) => Err(e),
        Ok(env) => Ok(
            env + "\n"@ + sc.sync_development_source@ + "\n"@ + enter_source_text()
                + invocation_text(os, guest_command_text(suite, test), sc) + "\n"@,
        ),
    }
}

/// The test script brings the guest's copy of the source up to date before
/// it runs the suite: it starts with the guest environment, then the
/// source-sync script, and only after that comes the suite command. It fails
/// only where the guest environment cannot be written.
pub proof fn lemma_guest_script_syncs_source_before_the_suite(
    suite: E2eSuite,
    test: Option<Seq<char>>,
    os: MachineOs,
    source: Seq<u8>,
    cache_mount: Option<Seq<char>>,
    sc: GuestScripts,
)
    ensures
        match e2e_guest_text(suite, test, os, source, cache_mount, sc) {
            Ok(script) => guest_environment_text(source, cache_mount) is Ok && exists|
                middle: Seq<char>,
                tail: Seq<char>,
            |
                script == guest_environment_text(source, cache_mount)->Ok_0 + "\n"@
                    + sc.sync_development_source@ + "\n"@ + middle + guest_command_text(suite, test)
                    + tail,
            Err(e) => guest_environment_text(source, cache_mount) == Err::<Seq<char>, Seq<char>>(e),
        },
{
    match guest_environment_text(source, cache_mount) {
        Ok(env) => {
            let command = guest_command_text(suite, test);
            let head = env + "\n"@ + sc.sync_development_source@ + "\n"@;
            let script = head + enter_source_text() + invocation_text(os, command, sc) + "\n"@;
            match os_family(os) {
                OsFamily::CentosStream => {
                    let middle = enter_source_text()
                        + "export OPENSHELL_SELINUX_AUDIT_START=\"$(date -u '+%m/%d/%Y %H:%M:%S')\"\nset +e\n"@;
                    let tail = "\ne2e_status=$?\nset -e\n"@ + sc.selinux_audit_validation@
                        + "\nexit \"${e2e_status}\""@ + "\n"@;
                    assert(script == head + middle + command + tail);
                },
                OsFamily::Ubuntu => {
                    let middle = enter_source_text() + "exec "@;
                    let tail = "\n"@;
                    assert(script == head + middle + command + tail);
                },
            }
        },
        Err(_) => {},
    }
}

/// The script that runs the selected suite on a prepared machine.
pub fn e2e_guest_script(
    selection: &E2eSelection,
    os: MachineOs,
    source: &[u8],
    cache_mount: Option<&str>,
    scripts: &GuestScripts,
) -> (r: Result<String, String>)
    ensures
        string_result(r) == e2e_guest_text(
            selection.suite,
            opt_string_text(selection.test),
            os,
            source@,
            crate::tasks::opt_text(cache_mount),
            *scripts,
        ),
{
    let suite_quoted = shell_quote(selection.suite.id());
    let mut command = concat2("cargo xtask e2e --suite ", suite_quoted.as_str());
    match selection.test() {
        Some(t) => {
            let quoted = shell_quote(t);
            command.append(" --test ");
            command.append(quoted.as_str());
        },
        None => {
            assert(command@ + Seq::<char>::empty() == command@);
        },
    }
    assert(command@ == guest_command_text(selection.suite, opt_string_text(selection.test)));
    let invocation = match os.family() {
        OsFamily::CentosStream => {
            let mut s = concat3(
                "export OPENSHELL_SELINUX_AUDIT_START=\"$(date -u '+%m/%d/%Y %H:%M:%S')\"\nset +e\n",
                command.as_str(),
                "\ne2e_status=$?\nset -e\n",
            );
            s.append(scripts.selinux_audit_validation.as_str());
            s.append("\nexit \"${e2e_status}\"");
            s
        },
        OsFamily::Ubuntu => concat2("exec ", command.as_str()),
    };
    let env = match guest_environment(source, cache_mount) {
        Ok(e) => e,
        Err(e) => return Err(e),
    };
    let mut script = concat3(env.as_str(), "\n", scripts.sync_development_source.as_str());
    script.append("\n");
    script.append(
        "export PATH=\"${HOME}/.local/bin:${HOME}/.local/share/mise/shims:${PATH}\"\ncd \"${OPENSHELL_GUEST_SOURCE_DIR}\"\nmise trust mise.toml\nmise install --locked\n",
    );
    script.append(invocation.as_str());
    script.append("\n");
    Ok(script)
}

/// How a run on a machine ends, given how the test and the release of the
/// machine went: the test's outcome, with a release failure reported as the
/// error when the test passed, added to the test's error when it failed, and
/// only warned about when the test ran but failed.
pub open spec fn run_and_release(
    test: Result<RunStatus, Seq<char>>,
    release: Result<(), Seq<char>>,
) -> (Result<RunStatus, Seq<char>>, Option<Seq<char>>) {
    match (test, release) {
        (Ok(status), Ok(())) => (Ok(status), None),
        (Err(e), Ok(())) => (Err(e), None),
        (Err(e), Err(re)) => (Err(e + "; release also failed: "@ + re), None),
        (Ok(status), Err(re)) => if status.code == Some(0i32) {
            (Err(re), None)
        } else {
            (Ok(status), Some("warning: "@ + re))
        },
    }
}

/// Combines the outcome of a test on a machine with the release of the
/// machine; the second result is a warning to print.
pub fn combine_run_and_release(test: Result<RunStatus, String>, release: Result<(), String>) -> (r: (
    Result<RunStatus, String>,
    Option<String>,
))
    ensures
        (text_result(r.0), crate::e2e::opt_string_text(r.1)) == run_and_release(
            text_result(test),
            text_result(release),
        ),
{
    match (test, release) {
        (Ok(status), Ok(())) => (Ok(status), None),
        (Err(e), Ok(())) => (Err(e), None),
        (Err(e), Err(re)) => (Err(concat3(e.as_str(), "; release also failed: ", re.as_str())), None),
        (Ok(status), Err(re)) => if status.success() {
            (Err(re), None)
        } else {
            (Ok(status), Some(concat2("warning: ", re.as_str())))
        },
    }
}

/// What a suite run on a machine needs: the machine to ask for, and the
/// scripts that prepare it and run the suite.
#[derive(Debug)]
pub struct MachinePlan {
    pub request: MachineRequest,
    pub setup_script: String,
    pub test_script: String,
}

/// The key that prepared e2e machines are reused under: the stable hash of
/// the tool configuration and its lock file.
pub open spec fn tools_key(mise_toml: Seq<u8>, mise_lock: Seq<u8>) -> u32 {
    fnv_parts(FNV_OFFSET, seq![mise_toml, mise_lock])
}

/// Where the cache disk is mounted, when the options ask for snapshots.
pub open spec fn cache_mount_text(options: MachineOptions, arch: Arch, suite: E2eSuite, source: Seq<u8>) -> Option<
    Seq<char>,
> {
    if options.snapshot {
        Some(lima_mount_point(cache_disk_name(options.os, arch, suite, source)))
    } else {
        None
    }
}

/// Whether a request asks for what an e2e run on a machine needs.
pub open spec fn e2e_request(
    request: MachineRequest,
    options: MachineOptions,
    arch: Arch,
    suite: E2eSuite,
    source: Seq<u8>,
    key: u32,
) -> bool {
    &&& request.os == options.os
    &&& request.arch == arch
    &&& request.purpose@ == "e2e"@
    &&& request.profile@ == suite_id(suite)
    &&& str_texts(request.forward_env@) == seq!["MISE_GITHUB_TOKEN"@]
    &&& request.keep_on_failure == options.keep
    &&& request.reuse == options_reuse_policy(options, key)
    &&& request.host_mounts@.len() == 1
    &&& request.host_mounts@[0].path@ == source
    &&& !request.host_mounts@[0].writable
    &&& if options.snapshot {
        &&& request.persistent_disks@.len() == 1
        &&& request.persistent_disks@[0].name@ == cache_disk_name(options.os, arch, suite, source)
        &&& request.persistent_disks@[0].size@ == "50GiB"@
        &&& request.persistent_disks@[0].filesystem@ == "ext4"@
    } else {
        request.persistent_disks@.len() == 0
    }
}

/// Plans a suite run on a machine from the checkout at `source`: the
/// architecture is the one asked for, or the host's (named `host_arch_name`);
/// with snapshots a cache disk is attached; and prepared machines are keyed
/// by the tool configuration `mise_toml` and its lock file `mise_lock`.
pub fn plan_e2e_machine(
    selection: &E2eSelection,
    options: &MachineOptions,
    source: &[u8],
    host_arch_name: &str,
    mise_toml: &[u8],
    mise_lock: &[u8],
    scripts: &GuestScripts,
) -> (r: Result<MachinePlan, String>)
    ensures
        match (match options.arch {
            Some(a) => Ok(a),
            None => host_arch_from(host_arch_name@),
        }) {
            Err(e) => r matches Err(m) && m@ == e,
            Ok(arch) => {
                let mount = cache_mount_text(*options, arch, selection.suite, source@);
                match development_setup_text(options.os, selection.suite, source@, mount, *scripts) {
                    Err(e) => r matches Err(m) && m@ == e,
                    Ok(setup) => match e2e_guest_text(
                        selection.suite,
                        opt_string_text(selection.test),
                        options.os,
                        source@,
                        mount,
                        *scripts,
                    ) {
                        Err(e) => r matches Err(m) && m@ == e,
                        Ok(test) => r matches Ok(p) && p.setup_script@ == setup && p.test_script@
                            == test && e2e_request(
                            p.request,
                            *options,
                            arch,
                            selection.suite,
                            source@,
                            tools_key(mise_toml@, mise_lock@),
                        ),
                    },
                }
            },
        },
{
    let arch = match options.arch {
        Some(a) => a,
        None => match host_arch(host_arch_name) {
            Ok(a) => a,
            Err(e) => return Err(e),
        },
    };
    let suite = selection.suite();
    let (cache_disk, cache_mount) = if options.snapshot {
        let disk = development_cache_disk(options.os, arch, suite, source);
        let mount = options.provider.persistent_disk_mount_point(&disk);
        (Some(disk), Some(mount))
    } else {
        (None, None)
    };
    let mount_ref: Option<&str> = match &cache_mount {
        Some(m) => Some(m.as_str()),
        None => None,
    };
    let setup_script = match development_setup_script(options.os, suite, source, mount_ref, scripts) {
        Ok(s) => s,
        Err(e) => return Err(e),
    };
    let test_script = match e2e_guest_script(selection, options.os, source, mount_ref, scripts) {
        Ok(s) => s,
        Err(e) => return Err(e),
    };
    let key = hash_part(hash_part(FNV_OFFSET, mise_toml), mise_lock);
    proof {
        reveal_with_fuel(fnv_parts, 3);
        assert(seq![mise_toml@, mise_lock@].drop_last() == seq![mise_toml@]);
        assert(seq![mise_toml@].drop_last() == Seq::<Seq<u8>>::empty());
    }
    let mut forward_env: Vec<&'static str> = Vec::new();
    forward_env.push("MISE_GITHUB_TOKEN");
    assert(str_texts(forward_env@) =~= seq!["MISE_GITHUB_TOKEN"@]);
    let mut host_mounts: Vec<HostMount> = Vec::new();
    host_mounts.push(HostMount::read_only(source));
    let mut persistent_disks: Vec<PersistentDisk> = Vec::new();
    match cache_disk {
        Some(d) => persistent_disks.push(d),
        None => {},
    }
    let request = MachineRequest {
        os: options.os,
        arch,
        purpose: "e2e",
        profile: suite.id(),
        forward_env,
        keep_on_failure: options.keep,
        reuse: options.reuse_policy(key),
        host_mounts,
        persistent_disks,
    };
    Ok(MachinePlan { request, setup_script, test_script })
}

} // verus!
