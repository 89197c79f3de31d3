//! Lima machines: their names, snapshot tags and `limactl` command lines, and
//! what `limactl` prints.

use vstd::prelude::*;
use crate::machine::{
    FNV_OFFSET, HostMount, MachineRequest, PersistentDisk, Provider, fnv_parts, hash_part,
    hash_request_resources, request_resources_hash, reuse_key,
};
use crate::platform::{Arch, MachineOs, os_id};
use crate::tasks::{CommandLine, RunStatus, command_args, command_envs, utf8};
use crate::text::{
    chars_of, concat2, concat3, contains_text, decimal, decode_lossy, find_char, find_text,
    first_index_of, hex_digits, join_strs, join_texts, lossy_utf8, push_decimal, push_hex,
    push_signed_decimal, same_text, signed_decimal, split_lines, str_texts, string_of_range,
    text_lines, trim, trimmed_equals,
};

verus! {

/// The version prefix of every snapshot tag; a new version retires old snapshots.
pub const BASE_SNAPSHOT_VERSION: &'static str = "base-v5";

/// The virtual-machine backend a Lima instance runs on.
#[derive(Debug, Clone, Copy, PartialEq, Eq, Structural)]
pub enum Backend {
    Default,
    Qemu,
}

/// The name of a backend within machine names.
pub open spec fn backend_name(b: Backend) -> Seq<char> {
    match b {
        Backend::Default => "def"@,
        Backend::Qemu => "qemu"@,
    }
}

impl Backend {
    pub fn name(self) -> (n: &'static str)
        ensures
            n@ == backend_name(self),
    {
        match self {
            Backend::Default => "def",
            Backend::Qemu => "qemu",
        }
    }

    /// The `--vm-type` Lima is given, if any.
    pub fn lima(self) -> (t: Option<&'static str>)
        ensures
            self == Backend::Default ==> t is None,
            self == Backend::Qemu ==> (t matches Some(v) && v@ == "qemu"@),
    {
        match self {
            Backend::Default => None,
            Backend::Qemu => Some("qemu"),
        }
    }
}

/// The architecture label used in machine names.
pub open spec fn arch_label(a: Arch) -> Seq<char> {
    match a {
        Arch::Amd64 => "amd64"@,
        Arch::Arm64 => "arm64"@,
    }
}

/// The architecture name Lima expects.
pub open spec fn lima_arch(a: Arch) -> Seq<char> {
    match a {
        Arch::Amd64 => "x86_64"@,
        Arch::Arm64 => "aarch64"@,
    }
}

/// The byte strings that key a machine name: OS, purpose, profile,
/// architecture, backend, and the process id for an ephemeral machine.
pub open spec fn instance_key(request: MachineRequest, backend: Backend, ephemeral: bool, pid: u32) -> Seq<
    Seq<u8>,
> {
    seq![
        utf8(os_id(request.os)),
        utf8(request.purpose@),
        utf8(request.profile@),
        utf8(arch_label(request.arch)),
        utf8(backend_name(backend)),
        utf8(
            if ephemeral {
                decimal(pid as nat)
            } else {
                Seq::empty()
            },
        ),
    ]
}

/// The hash that makes a machine name unique to its configuration.
pub open spec fn instance_hash(request: MachineRequest, backend: Backend, ephemeral: bool, pid: u32) -> u32 {
    request_resources_hash(fnv_parts(FNV_OFFSET, instance_key(request, backend, ephemeral, pid)), request)
}

/// The name of the Lima instance for a request.
pub open spec fn instance_name_text(
    request: MachineRequest,
    backend: Backend,
    ephemeral: bool,
    pid: u32,
) -> Seq<char> {
    "openshell-"@ + request.purpose@ + "-"@ + os_id(request.os) + "-"@ + hex_digits(
        instance_hash(request, backend, ephemeral, pid) as nat,
        8,
    )
}

/// Eight hexadecimal digits are eight characters.
pub proof fn lemma_hex_digits_len(n: nat, width: nat)
    ensures
        hex_digits(n, width).len() == width,
    decreases width,
{
    if width > 0 {
        lemma_hex_digits_len(n / 16, (width - 1) as nat);
    }
}

fn arch_label_of(arch: Arch) -> (s: &'static str)
    ensures
        s@ == arch_label(arch),
{
    match arch {
        Arch::Amd64 => "amd64",
        Arch::Arm64 => "arm64",
    }
}

/// The name of the Lima instance for a request: its purpose and OS, then
/// eight hexadecimal digits of a hash of everything that configures it.
/// An ephemeral machine's hash includes `pid`, the id of the running process.
pub fn instance_name(request: &MachineRequest, backend: Backend, ephemeral: bool, pid: u32) -> (name:
    String)
    ensures
        name@ == instance_name_text(*request, backend, ephemeral, pid),
        name@.len() == 20 + request.purpose@.len() + os_id(request.os).len(),
{
    let mut pid_text = String::new();
    if ephemeral {
        push_decimal(&mut pid_text, pid as u64);
    }
    let mut h = FNV_OFFSET;
    h = hash_part(h, request.os.id().as_bytes());
    h = hash_part(h, request.purpose.as_bytes());
    h = hash_part(h, request.profile.as_bytes());
    h = hash_part(h, arch_label_of(request.arch).as_bytes());
    h = hash_part(h, backend.name().as_bytes());
    h = hash_part(h, pid_text.as_str().as_bytes());
    proof {
        let k = instance_key(*request, backend, ephemeral, pid);
        reveal_with_fuel(fnv_parts, 7);
        assert(k.drop_last().drop_last().drop_last().drop_last().drop_last().drop_last() == Seq::<
            Seq<u8>,
        >::empty());
    }
    let h = hash_request_resources(h, request);
    let mut name = String::from_str("openshell-");
    name.append(request.purpose);
    name.append("-");
    name.append(request.os.id());
    name.append("-");
    push_hex(&mut name, h as u64, 8);
    proof {
        lemma_hex_digits_len(h as nat, 8);
        reveal_strlit("openshell-");
        reveal_strlit("-");
    }
    name
}

/// Machines for different architectures never share a name key: the
/// architecture is one of the hashed parts, so requests that differ in
/// architecture are keyed apart whatever else they share.
pub proof fn lemma_instance_key_separates_architectures(
    first: MachineRequest,
    second: MachineRequest,
    first_backend: Backend,
    second_backend: Backend,
    first_ephemeral: bool,
    second_ephemeral: bool,
    first_pid: u32,
    second_pid: u32,
)
    requires
        first.arch != second.arch,
    ensures
        instance_key(first, first_backend, first_ephemeral, first_pid) != instance_key(
            second,
            second_backend,
            second_ephemeral,
            second_pid,
        ),
{
    let a = instance_key(first, first_backend, first_ephemeral, first_pid);
    let b = instance_key(second, second_backend, second_ephemeral, second_pid);
    if a == b {
        assert(a[3] == b[3]);
        vstd::utf8::encode_utf8_decode_utf8(arch_label(first.arch));
        vstd::utf8::encode_utf8_decode_utf8(arch_label(second.arch));
        assert(arch_label(first.arch) == arch_label(second.arch));
        reveal_strlit("amd64");
        reveal_strlit("arm64");
        assert(arch_label(first.arch)[1] != arch_label(second.arch)[1]);
    }
}

/// The Lima template each machine OS starts from.
pub open spec fn template_text(os: MachineOs) -> Seq<char> {
    match os {
        MachineOs::CentosStream10 => "template:centos-stream-10"@,
        MachineOs::Ubuntu24_04 => "template:ubuntu-24.04"@,
        MachineOs::Ubuntu26_04 => "template:ubuntu-26.04"@,
    }
}

/// The Lima template each machine OS starts from.
pub fn lima_template(os: MachineOs) -> (t: &'static str)
    ensures
        t@ == template_text(os),
{
    match os {
        MachineOs::CentosStream10 => "template:centos-stream-10",
        MachineOs::Ubuntu24_04 => "template:ubuntu-24.04",
        MachineOs::Ubuntu26_04 => "template:ubuntu-26.04",
    }
}

/// The four bytes of a number, least significant first.
pub open spec fn le_bytes(k: u32) -> Seq<u8> {
    seq![(k % 256) as u8, ((k / 256) % 256) as u8, ((k / 65536) % 256) as u8, (k / 16777216) as u8]
}

fn to_le_bytes(k: u32) -> (b: Vec<u8>)
    ensures
        b@ == le_bytes(k),
{
    let mut b: Vec<u8> = Vec::new();
    b.push((k % 256) as u8);
    b.push(((k / 256) % 256) as u8);
    b.push(((k / 65536) % 256) as u8);
    b.push((k / 16777216) as u8);
    b
}

/// The byte strings that key a snapshot: OS, template, profile, setup script
/// and the preparation key.
pub open spec fn snapshot_key(request: MachineRequest, setup_script: Seq<char>) -> Seq<Seq<u8>> {
    seq![
        utf8(os_id(request.os)),
        utf8(template_text(request.os)),
        utf8(request.profile@),
        utf8(setup_script),
        le_bytes(reuse_key(request.reuse)),
    ]
}

/// The hash that makes a snapshot tag unique to what the snapshot holds.
pub open spec fn snapshot_hash(request: MachineRequest, setup_script: Seq<char>) -> u32 {
    request_resources_hash(fnv_parts(FNV_OFFSET, snapshot_key(request, setup_script)), request)
}

/// The snapshot tag for a prepared machine.
pub open spec fn snapshot_tag_text(request: MachineRequest, setup_script: Seq<char>) -> Seq<char> {
    "base-v5-"@ + hex_digits(snapshot_hash(request, setup_script) as nat, 8)
}

/// The tag of the snapshot of a prepared machine: the snapshot version, then
/// eight hexadecimal digits of a hash of everything the snapshot depends on.
pub fn snapshot_tag(request: &MachineRequest, setup_script: &str) -> (tag: String)
    ensures
        tag@ == snapshot_tag_text(*request, setup_script@),
{
    let key = to_le_bytes(request.reuse.preparation_key());
    let mut h = FNV_OFFSET;
    h = hash_part(h, request.os.id().as_bytes());
    h = hash_part(h, lima_template(request.os).as_bytes());
    h = hash_part(h, request.profile.as_bytes());
    h = hash_part(h, setup_script.as_bytes());
    h = hash_part(h, key.as_slice());
    proof {
        let k = snapshot_key(*request, setup_script@);
        reveal_with_fuel(fnv_parts, 6);
        assert(k.drop_last().drop_last().drop_last().drop_last().drop_last() == Seq::<
            Seq<u8>,
        >::empty());
    }
    let h = hash_request_resources(h, request);
    let mut tag = String::from_str(BASE_SNAPSHOT_VERSION);
    tag.append("-");
    push_hex(&mut tag, h as u64, 8);
    proof {
        reveal_strlit("base-v5-");
        reveal_strlit("base-v5");
        reveal_strlit("-");
        assert("base-v5"@ + "-"@ == "base-v5-"@);
    }
    tag
}

/// The Lima machine provider.
#[derive(Debug, Clone, Copy, PartialEq, Eq, Structural)]
pub struct LimaProvider;

/// Where Lima mounts a persistent disk inside the machine.
pub open spec fn lima_mount_point(disk_name: Seq<char>) -> Seq<char> {
    "/mnt/lima-"@ + disk_name
}

impl LimaProvider {
    /// Where Lima mounts a persistent disk inside the machine.
    pub fn persistent_disk_mount_point(&self, disk: &PersistentDisk) -> (p: String)
        ensures
            p@ == lima_mount_point(disk.name@),
    {
        concat2("/mnt/lima-", disk.name.as_str())
    }
}

impl Provider {
    /// Where the provider mounts a persistent disk inside the machine.
    pub fn persistent_disk_mount_point(&self, disk: &PersistentDisk) -> (p: String)
        ensures
            *self == Provider::Lima ==> p@ == lima_mount_point(disk.name@),
    {
        match self {
            Provider::Lima => LimaProvider.persistent_disk_mount_point(disk),
        }
    }
}

/// The lines of a command's output, decoded as `String::from_utf8_lossy` does.
pub open spec fn output_lines(output: Seq<u8>) -> Seq<Seq<char>> {
    text_lines(lossy_utf8(output))
}

/// The status a `NAME<TAB>STATUS` line gives for `instance`, if it names it.
pub open spec fn line_status(line: Seq<char>, instance: Seq<char>) -> Option<Seq<char>> {
    match first_index_of(line, '\t') {
        Some(i) => if line.take(i) == instance {
            Some(line.skip(i + 1))
        } else {
            None
        },
        None => None,
    }
}

/// The status of `instance` in the first line that names it.
pub open spec fn status_in_lines(lines: Seq<Seq<char>>, instance: Seq<char>) -> Option<Seq<char>>
    decreases lines.len(),
{
    if lines.len() == 0 {
        None
    } else {
        match line_status(lines[0], instance) {
            Some(s) => Some(s),
            None => status_in_lines(lines.drop_first(), instance),
        }
    }
}

/// Reads the status of `instance` from `limactl list` output, one
/// `NAME<TAB>STATUS` line per instance.
pub fn parse_instance_status(output: &[u8], instance: &str) -> (status: Option<String>)
    ensures
        match status_in_lines(output_lines(output@), instance@) {
            Some(s) => status matches Some(t) && t@ == s,
            None => status is None,
        },
{
    let text = decode_lossy(output);
    let chars = chars_of(text.as_str());
    let lines = split_lines(chars.as_slice());
    let wanted = chars_of(instance);
    let ghost all = output_lines(output@);
    assert(all.skip(0) == all);
    for i in 0..lines.len()
        invariant
            all == output_lines(output@),
            lines@.len() == all.len(),
            forall|k: int| 0 <= k < lines@.len() ==> #[trigger] lines@[k]@ == all[k],
            wanted@ == instance@,
            status_in_lines(all, instance@) == status_in_lines(all.skip(i as int), instance@),
    {
        assert(all.skip(i as int).drop_first() == all.skip(i + 1));
        assert(all.skip(i as int)[0] == all[i as int]);
        let line = &lines[i];
        assert(line@ == all[i as int]);
        match find_char(line.as_slice(), '\t') {
            Some(tab) => {
                let name = vstd::slice::slice_subrange(line.as_slice(), 0, tab);
                assert(name@ == line@.take(tab as int));
                if name.len() == wanted.len() && same_chars(name, wanted.as_slice()) {
                    assert(tab < line.len());
                    let status = string_of_range(line.as_slice(), tab + 1, line.len());
                    assert(line@.subrange(tab + 1, line@.len() as int) == line@.skip(tab + 1));
                    assert(line_status(all[i as int], instance@) == Some(status@));
                    return Some(status);
                }
                assert(line_status(all[i as int], instance@) is None);
            },
            None => {
                assert(line_status(all[i as int], instance@) is None);
            },
        }
    }
    assert(all.skip(all.len() as int) == Seq::<Seq<char>>::empty());
    None
}

/// Whether two character slices are equal.
fn same_chars(a: &[char], b: &[char]) -> (eq: bool)
    ensures
        eq == (a@ == b@),
{
    if a.len() != b.len() {
        return false;
    }
    for i in 0..a.len()
        invariant
            a@.len() == b@.len(),
            forall|j: int| 0 <= j < i ==> a@[j] == b@[j],
    {
        if a[i] != b[i] {
            return false;
        }
    }
    assert(a@ == b@);
    true
}

/// Whether some line of a command's output, trimmed, is exactly `word`.
pub open spec fn has_trimmed_line(output: Seq<u8>, word: Seq<char>) -> bool {
    exists|i: int| 0 <= i < output_lines(output).len() && trim(#[trigger] output_lines(output)[i]) == word
}

/// Whether some line of `output`, with surrounding white space trimmed, is
/// exactly `word`; this is how `limactl` lists drivers and snapshots.
pub fn output_has_line(output: &[u8], word: &str) -> (found: bool)
    ensures
        found == has_trimmed_line(output@, word@),
{
    let text = decode_lossy(output);
    let chars = chars_of(text.as_str());
    let lines = split_lines(chars.as_slice());
    let wanted = chars_of(word);
    let ghost all = output_lines(output@);
    for i in 0..lines.len()
        invariant
            all == output_lines(output@),
            lines@.len() == all.len(),
            forall|k: int| 0 <= k < lines@.len() ==> #[trigger] lines@[k]@ == all[k],
            wanted@ == word@,
            forall|k: int| 0 <= k < i ==> trim(#[trigger] all[k]) != word@,
    {
        if trimmed_equals(lines[i].as_slice(), wanted.as_slice()) {
            assert(trim(all[i as int]) == word@);
            assert(trim(output_lines(output@)[i as int]) == word@);
            return true;
        }
    }
    assert(!has_trimmed_line(output@, word@)) by {
        if has_trimmed_line(output@, word@) {
            let k = choose|k: int|
                0 <= k < output_lines(output@).len() && trim(#[trigger] output_lines(output@)[k])
                    == word@;
            assert(trim(all[k]) != word@);
        }
    }
    false
}

/// The text that names a disk in `limactl disk list --json` output.
pub open spec fn disk_name_needle(name: Seq<char>) -> Seq<char> {
    "\"name\":\""@ + name + "\""@
}

/// Whether a line of `limactl disk list --json` output names the disk.
pub open spec fn disk_listed(output: Seq<u8>, name: Seq<char>) -> bool {
    exists|i: int|
        0 <= i < output_lines(output).len() && contains_text(
            #[trigger] output_lines(output)[i],
            disk_name_needle(name),
        )
}

/// Whether `limactl disk list --json` output lists a disk called `name`.
pub fn disk_list_contains(output: &[u8], name: &str) -> (found: bool)
    ensures
        found == disk_listed(output@, name@),
{
    let needle_text = concat3("\"name\":\"", name, "\"");
    let needle = chars_of(needle_text.as_str());
    let text = decode_lossy(output);
    let chars = chars_of(text.as_str());
    let lines = split_lines(chars.as_slice());
    let ghost all = output_lines(output@);
    for i in 0..lines.len()
        invariant
            all == output_lines(output@),
            lines@.len() == all.len(),
            forall|k: int| 0 <= k < lines@.len() ==> #[trigger] lines@[k]@ == all[k],
            needle@ == disk_name_needle(name@),
            forall|k: int| 0 <= k < i ==> !contains_text(#[trigger] all[k], disk_name_needle(name@)),
    {
        if find_text(lines[i].as_slice(), needle.as_slice()) {
            assert(contains_text(all[i as int], disk_name_needle(name@)));
            assert(contains_text(output_lines(output@)[i as int], disk_name_needle(name@)));
            return true;
        }
    }
    assert(!disk_listed(output@, name@)) by {
        if disk_listed(output@, name@) {
            let k = choose|k: int|
                0 <= k < output_lines(output@).len() && contains_text(
                    #[trigger] output_lines(output@)[k],
                    disk_name_needle(name@),
                );
            assert(!contains_text(all[k], disk_name_needle(name@)));
        }
    }
    false
}

/// Whether a character may appear in a Lima disk name.
pub open spec fn disk_name_char(c: char) -> bool {
    ('a' <= c <= 'z') || ('A' <= c <= 'Z') || ('0' <= c <= '9') || c == '-' || c == '_'
}

/// Whether a text is a valid Lima disk name: not empty, and only ASCII
/// letters, digits, `-` and `_`.
pub open spec fn valid_disk_name(name: Seq<char>) -> bool {
    name.len() > 0 && forall|i: int| 0 <= i < name.len() ==> disk_name_char(#[trigger] name[i])
}

/// Accepts a Lima disk name made only of ASCII letters, digits, `-` and `_`.
pub fn validate_disk_name(name: &str) -> (r: Result<(), String>)
    ensures
        r is Ok <==> valid_disk_name(name@),
        r matches Err(e) ==> e@ == "invalid Lima disk name: "@ + name@,
{
    let chars = chars_of(name);
    let mut ok = chars.len() > 0;
    for i in 0..chars.len()
        invariant
            chars@ == name@,
            ok == (chars@.len() > 0 && forall|j: int| 0 <= j < i ==> disk_name_char(#[trigger] chars@[j])),
    {
        let c = chars[i];
        if !(('a' <= c && c <= 'z') || ('A' <= c && c <= 'Z') || ('0' <= c && c <= '9') || c == '-'
            || c == '_') {
            ok = false;
        }
    }
    if ok {
        Ok(())
    } else {
        Err(concat2("invalid Lima disk name: ", name))
    }
}

/// How an exit status is reported: its exit code, or `signal` when a signal
/// ended the command.
pub open spec fn exit_code_text(status: RunStatus) -> Seq<char> {
    match status.code {
        Some(c) => signed_decimal(c as int),
        None => "signal"@,
    }
}

/// The exit code of a finished command, as reported in error messages.
pub fn display_exit_code(status: RunStatus) -> (s: String)
    ensures
        s@ == exit_code_text(status),
{
    match status.code {
        Some(c) => {
            let mut s = String::new();
            push_signed_decimal(&mut s, c);
            s
        },
        None => String::from_str("signal"),
    }
}

/// The outcome of a checked command: success, or the error that names what
/// failed and its exit code.
pub open spec fn checked_outcome(description: Seq<char>, status: RunStatus) -> Result<(), Seq<char>> {
    if status.code == Some(0i32) {
        Ok(())
    } else {
        Err(description + " failed with exit code "@ + exit_code_text(status))
    }
}

/// The outcome of a command that must succeed.
pub fn check_status(description: &str, status: RunStatus) -> (r: Result<(), String>)
    ensures
        crate::tasks::text_result(r) == checked_outcome(description@, status),
{
    if status.success() {
        Ok(())
    } else {
        let code = display_exit_code(status);
        Err(concat3(description, " failed with exit code ", code.as_str()))
    }
}

/// The message for a command that could not be started.
pub fn spawn_failure(description: &str, error: &str) -> (s: String)
    ensures
        s@ == "failed to execute "@ + description@ + ": "@ + error@,
{
    let mut s = concat3("failed to execute ", description, ": ");
    s.append(error);
    s
}

/// The UTF-8 bytes of each text, as command arguments.
pub open spec fn utf8_args(texts: Seq<Seq<char>>) -> Seq<Seq<u8>> {
    texts.map_values(|t: Seq<char>| utf8(t))
}

/// A `limactl` command with the given arguments.
pub fn limactl(args: &[&str]) -> (c: CommandLine)
    ensures
        c.program@ == "limactl"@,
        command_args(c) == utf8_args(str_texts(args@)),
        command_envs(c) == Seq::<(Seq<char>, Seq<char>)>::empty(),
{
    let mut c = CommandLine::new("limactl");
    for i in 0..args.len()
        invariant
            c.program@ == "limactl"@,
            command_args(c) == utf8_args(str_texts(args@.take(i as int))),
            command_envs(c) == Seq::<(Seq<char>, Seq<char>)>::empty(),
    {
        c.arg(args[i]);
        assert(utf8_args(str_texts(args@.take(i + 1))) == utf8_args(str_texts(args@.take(i as int))).push(
            utf8(args@[i as int]@),
        ));
    }
    assert(args@.take(args@.len() as int) == args@);
    c
}

/// A persistent disk and whether Lima should format it when attaching it.
#[derive(Debug, Clone, PartialEq, Eq)]
pub struct AttachedDisk {
    pub request: PersistentDisk,
    pub format: bool,
}

/// The text of a flag.
pub open spec fn bool_text(b: bool) -> Seq<char> {
    if b {
        "true"@
    } else {
        "false"@
    }
}

/// The JSON object that describes one attached disk to Lima.
pub open spec fn disk_entry(d: AttachedDisk) -> Seq<char> {
    "{\"name\":\""@ + d.request.name@ + "\",\"format\":"@ + bool_text(d.format) + ",\"fsType\":\""@
        + d.request.filesystem@ + "\"}"@
}

/// The JSON entries of the attached disks, or the error for the first one
/// whose name is invalid.
pub open spec fn disk_entries(disks: Seq<AttachedDisk>) -> Result<Seq<Seq<char>>, Seq<char>>
    decreases disks.len(),
{
    if disks.len() == 0 {
        Ok(Seq::empty())
    } else {
        match disk_entries(disks.drop_last()) {
            Err(e) => Err(e),
            Ok(entries) => {
                let d = disks.last();
                if valid_disk_name(d.request.name@) {
                    Ok(entries.push(disk_entry(d)))
                } else {
                    Err("invalid Lima disk name: "@ + d.request.name@)
                }
            },
        }
    }
}

/// The arguments that attach the disks, or the error for the first invalid
/// disk name.
pub open spec fn disk_args(disks: Seq<AttachedDisk>) -> Result<Seq<Seq<u8>>, Seq<char>> {
    if disks.len() == 0 {
        Ok(Seq::empty())
    } else {
        match disk_entries(disks) {
            Err(e) => Err(e),
            Ok(entries) => Ok(
                seq![
                    utf8("--set"@),
                    utf8(".additionalDisks = ["@ + join_texts(entries, ","@) + "]"@),
                ],
            ),
        }
    }
}

/// Adds the arguments that attach `disks` to a new instance.
pub fn configure_disks(command: &mut CommandLine, disks: &[AttachedDisk]) -> (r: Result<(), String>)
    ensures
        final(command).program == old(command).program,
        command_envs(*final(command)) == command_envs(*old(command)),
        match disk_args(disks@) {
            Ok(args) => r is Ok && command_args(*final(command)) == command_args(*old(command))
                + args,
            Err(e) => (r matches Err(m) && m@ == e) && command_args(*final(command)) == command_args(
                *old(command),
            ),
        },
{
    if disks.len() == 0 {
        assert(command_args(*command) + Seq::<Seq<u8>>::empty() == command_args(*command));
        return Ok(());
    }
    let mut entries = String::new();
    for i in 0..disks.len()
        invariant
            disks@.len() > 0,
            disk_entries(disks@.take(i as int)) matches Ok(es) && entries@ == join_texts(es, ","@),
    {
        assert(disks@.take(i + 1).drop_last() == disks@.take(i as int));
        let d = &disks[i];
        match validate_disk_name(d.request.name.as_str()) {
            Ok(()) => {},
            Err(e) => {
                proof {
                    lemma_disk_entries_error_persists(disks@, i + 1);
                    assert(disks@.take(disks@.len() as int) == disks@);
                }
                return Err(e);
            },
        }
        if i > 0 {
            entries.append(",");
        }
        entries.append("{\"name\":\"");
        entries.append(d.request.name.as_str());
        entries.append("\",\"format\":");
        entries.append(if d.format { "true" } else { "false" });
        entries.append(",\"fsType\":\"");
        entries.append(d.request.filesystem);
        entries.append("\"}");
        proof {
            let es = disk_entries(disks@.take(i as int))->Ok_0;
            assert(es.len() == i) by {
                lemma_disk_entries_len(disks@.take(i as int));
            }
            assert(es.push(disk_entry(*d)).drop_last() == es);
        }
    }
    assert(disks@.take(disks@.len() as int) == disks@);
    let mut value = String::from_str(".additionalDisks = [");
    value.append(entries.as_str());
    value.append("]");
    command.arg("--set");
    command.arg(value.as_str());
    Ok(())
}

/// The entries of valid disks are one per disk.
pub proof fn lemma_disk_entries_len(disks: Seq<AttachedDisk>)
    ensures
        disk_entries(disks) matches Ok(es) ==> es.len() == disks.len(),
    decreases disks.len(),
{
    if disks.len() > 0 {
        lemma_disk_entries_len(disks.drop_last());
    }
}

/// Once a prefix of the disks holds an invalid name, every longer prefix
/// reports that same error.
pub proof fn lemma_disk_entries_error_persists(disks: Seq<AttachedDisk>, n: int)
    requires
        0 < n <= disks.len(),
        disk_entries(disks.take(n)) is Err,
    ensures
        disk_entries(disks) == disk_entries(disks.take(n)),
    decreases disks.len() - n,
{
    if n < disks.len() {
        assert(disks.take(n + 1).drop_last() == disks.take(n));
        lemma_disk_entries_error_persists(disks, n + 1);
    } else {
        assert(disks.take(n) == disks);
    }
}

/// The argument that mounts a host directory: its path, with `:w` when the
/// mount is writable.
pub open spec fn mount_arg(m: HostMount) -> Seq<u8> {
    if m.writable {
        m.path@ + utf8(":w"@)
    } else {
        m.path@
    }
}

/// `--mount-only` and the mount argument for each host mount.
pub open spec fn mount_only_args(mounts: Seq<HostMount>) -> Seq<Seq<u8>>
    decreases mounts.len(),
{
    if mounts.len() == 0 {
        Seq::empty()
    } else {
        mount_only_args(mounts.drop_last()) + seq![utf8("--mount-only"@), mount_arg(mounts.last())]
    }
}

/// The mount-mode arguments of a new instance: plain mode without host
/// mounts; otherwise the guest agent with Lima's containerd disabled and only
/// the requested mounts.
pub open spec fn mount_mode_args(mounts: Seq<HostMount>) -> Seq<Seq<u8>> {
    if mounts.len() == 0 {
        seq![utf8("--plain"@)]
    } else {
        seq![utf8("--containerd"@), utf8("none"@)] + mount_only_args(mounts)
    }
}

/// The argument that mounts `mount` into the instance.
pub fn mount_argument(mount: &HostMount) -> (arg: Vec<u8>)
    ensures
        arg@ == mount_arg(*mount),
{
    let mut arg = mount.path.clone();
    if mount.writable {
        let mut suffix = ":w".as_bytes_vec();
        arg.append(&mut suffix);
    }
    arg
}

/// Adds the mount-mode arguments for the host mounts of a new instance.
pub fn configure_mount_mode(command: &mut CommandLine, host_mounts: &[HostMount])
    ensures
        final(command).program == old(command).program,
        command_envs(*final(command)) == command_envs(*old(command)),
        command_args(*final(command)) == command_args(*old(command)) + mount_mode_args(host_mounts@),
{
    let ghost start = command_args(*command);
    if host_mounts.len() == 0 {
        command.arg("--plain");
        return;
    }
    command.arg("--containerd");
    command.arg("none");
    for i in 0..host_mounts.len()
        invariant
            command.program == old(command).program,
            command_envs(*command) == command_envs(*old(command)),
            start == command_args(*old(command)),
            command_args(*command) == start + seq![utf8("--containerd"@), utf8("none"@)]
                + mount_only_args(host_mounts@.take(i as int)),
    {
        assert(host_mounts@.take(i + 1).drop_last() == host_mounts@.take(i as int));
        command.arg("--mount-only");
        command.arg_bytes(mount_argument(&host_mounts[i]));
    }
    assert(host_mounts@.take(host_mounts@.len() as int) == host_mounts@);
}

/// The command that runs a shell script on `instance` from standard input,
/// passing on only the host environment variables named in `forward_env`.
pub fn guest_shell_command(instance: &str, forward_env: &[&str]) -> (c: CommandLine)
    ensures
        c.program@ == "limactl"@,
        command_args(c) == utf8_args(
            seq!["--tty=false"@, "shell"@] + if forward_env@.len() > 0 {
                seq!["--preserve-env"@]
            } else {
                Seq::empty()
            } + seq![instance@, "bash"@, "-s"@],
        ),
        command_envs(c) == if forward_env@.len() > 0 {
            seq![
                ("LIMA_SHELLENV_BLOCK"@, "*"@),
                ("LIMA_SHELLENV_ALLOW"@, join_texts(str_texts(forward_env@), ","@)),
            ]
        } else {
            Seq::empty()
        },
{
    let mut c = limactl(&["--tty=false", "shell"]);
    if forward_env.len() > 0 {
        c.arg("--preserve-env");
        c.env("LIMA_SHELLENV_BLOCK", String::from_str("*"));
        c.env("LIMA_SHELLENV_ALLOW", join_strs(forward_env, ","));
    }
    c.arg(instance);
    c.arg("bash");
    c.arg("-s");
    proof {
        let pre = if forward_env@.len() > 0 {
            seq!["--preserve-env"@]
        } else {
            Seq::<Seq<char>>::empty()
        };
        assert(utf8_args(seq!["--tty=false"@, "shell"@] + pre + seq![instance@, "bash"@, "-s"@])
            =~= command_args(c));
    }
    c
}

/// The arguments that create a new instance, or the error for the first
/// invalid disk name.
pub open spec fn start_instance_args(
    instance: Seq<char>,
    request: MachineRequest,
    disks: Seq<AttachedDisk>,
    backend: Backend,
) -> Result<Seq<Seq<u8>>, Seq<char>> {
    match disk_args(disks) {
        Err(e) => Err(e),
        Ok(attach) => Ok(
            utf8_args(
                seq![
                    "--tty=false"@,
                    "start"@,
                    "--name"@,
                    instance,
                    "--arch"@,
                    lima_arch(request.arch),
                    "--cpus"@,
                    "4"@,
                    "--memory"@,
                    "8"@,
                    "--disk"@,
                    "30"@,
                ] + if backend == Backend::Qemu {
                    seq!["--vm-type"@, "qemu"@]
                } else {
                    Seq::empty()
                },
            ) + mount_mode_args(request.host_mounts@) + attach + seq![
                utf8(template_text(request.os)),
            ],
        ),
    }
}

fn lima_arch_of(arch: Arch) -> (s: &'static str)
    ensures
        s@ == lima_arch(arch),
{
    match arch {
        Arch::Amd64 => "x86_64",
        Arch::Arm64 => "aarch64",
    }
}

/// The command that creates and starts a new instance with 4 CPUs, 8 GiB of
/// memory and a 30 GiB disk.
pub fn start_instance_command(
    instance: &str,
    request: &MachineRequest,
    disks: &[AttachedDisk],
    backend: Backend,
) -> (r: Result<CommandLine, String>)
    ensures
        match start_instance_args(instance@, *request, disks@, backend) {
            Ok(args) => r matches Ok(c) && c.program@ == "limactl"@ && command_args(c) == args
                && command_envs(c) == Seq::<(Seq<char>, Seq<char>)>::empty(),
            Err(e) => r matches Err(m) && m@ == e,
        },
{
    let mut c = limactl(
        &[
            "--tty=false",
            "start",
            "--name",
            instance,
            "--arch",
            lima_arch_of(request.arch),
            "--cpus",
            "4",
            "--memory",
            "8",
            "--disk",
            "30",
        ],
    );
    match backend.lima() {
        Some(vm_type) => {
            c.arg("--vm-type");
            c.arg(vm_type);
        },
        None => {},
    }
    proof {
        let qemu = if backend == Backend::Qemu {
            seq!["--vm-type"@, "qemu"@]
        } else {
            Seq::<Seq<char>>::empty()
        };
        assert(command_args(c) =~= utf8_args(
            seq![
                "--tty=false"@,
                "start"@,
                "--name"@,
                instance@,
                "--arch"@,
                lima_arch(request.arch),
                "--cpus"@,
                "4"@,
                "--memory"@,
                "8"@,
                "--disk"@,
                "30"@,
            ] + qemu,
        ));
    }
    configure_mount_mode(&mut c, request.host_mounts.as_slice());
    match configure_disks(&mut c, disks) {
        Ok(()) => {},
        Err(e) => return Err(e),
    }
    c.arg(lima_template(request.os));
    Ok(c)
}

/// The value after `--arch` in the command that creates an instance is the
/// host architecture name, as Rust spells it, of exactly the requested
/// architecture: it reads back as `request.arch`.
pub proof fn lemma_start_command_names_requested_arch(
    instance: Seq<char>,
    request: MachineRequest,
    disks: Seq<AttachedDisk>,
    backend: Backend,
)
    ensures
        start_instance_args(instance, request, disks, backend) matches Ok(args) ==> args.len() > 5
            && args[4] == utf8("--arch"@) && crate::e2e_machine::host_arch_from(
            vstd::utf8::decode_utf8(args[5]),
        ) == Ok::<Arch, Seq<char>>(request.arch),
{
    match start_instance_args(instance, request, disks, backend) {
        Ok(args) => {
            let head = seq![
                "--tty=false"@,
                "start"@,
                "--name"@,
                instance,
                "--arch"@,
                lima_arch(request.arch),
                "--cpus"@,
                "4"@,
                "--memory"@,
                "8"@,
                "--disk"@,
                "30"@,
            ] + if backend == Backend::Qemu {
                seq!["--vm-type"@, "qemu"@]
            } else {
                Seq::empty()
            };
            let front = utf8_args(head);
            assert(head[4] == "--arch"@);
            assert(head[5] == lima_arch(request.arch));
            assert(front[4] == utf8("--arch"@));
            assert(front[5] == utf8(lima_arch(request.arch)));
            assert(args[4] == front[4]);
            assert(args[5] == front[5]);
            vstd::utf8::encode_utf8_decode_utf8(lima_arch(request.arch));
            reveal_strlit("x86_64");
            reveal_strlit("aarch64");
        },
        Err(_) => {},
    }
}

} // verus!
