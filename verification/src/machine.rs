//! Machine options shared by the tasks that run on a target machine, and the
//! stable hashes that key machines and snapshots to their configuration.

use vstd::prelude::*;
use crate::platform::{Arch, MachineOs, arch_from_text, parse_arch};
use crate::tasks::{Argument, arg_text, opt_text, text_result};
use crate::text::{concat2, concat3, same_text};

verus! {

/// The machine OS used when a provider is chosen without an OS.
pub const DEFAULT_MACHINE_OS: MachineOs = MachineOs::Ubuntu26_04;

/// The service that provides target machines.
#[derive(Debug, Clone, Copy, PartialEq, Eq, Structural)]
pub enum Provider {
    Lima,
}

impl Default for Provider {
    fn default() -> (p: Provider)
        ensures
            p == Provider::Lima,
    {
        Provider::Lima
    }
}

/// What the value of `--provider` parses to; `None` stands for a value that
/// is not valid UTF-8.
pub open spec fn provider_from_text(value: Option<Seq<char>>) -> Result<Provider, Seq<char>> {
    match value {
        Some(v) => if v == "lima"@ {
            Ok(Provider::Lima)
        } else {
            Err("unsupported machine provider: "@ + v + " (expected lima)"@)
        },
        None => Err("--provider must be valid UTF-8"@),
    }
}

impl Provider {
    /// Parses the value of `--provider`; `value` is `None` when the argument is
    /// not valid UTF-8.
    pub fn parse(value: Option<&str>) -> (r: Result<Provider, String>)
        ensures
            text_result(r) == provider_from_text(opt_text(value)),
    {
        match value {
            Some(v) => if same_text(v, "lima") {
                Ok(Provider::Lima)
            } else {
                Err(concat3("unsupported machine provider: ", v, " (expected lima)"))
            },
            None => Err(String::from_str("--provider must be valid UTF-8")),
        }
    }
}

/// Whether a machine is thrown away after use or kept prepared for reuse.
#[derive(Debug, Clone, Copy, PartialEq, Eq, Structural)]
pub enum ReusePolicy {
    Ephemeral,
    ReusePrepared { rebuild: bool, preparation_key: u32 },
}

/// Whether the policy reuses prepared machines.
pub open spec fn reuse_enabled(p: ReusePolicy) -> bool {
    p is ReusePrepared
}

/// Whether the policy asks for the prepared machine to be built anew.
pub open spec fn reuse_rebuild(p: ReusePolicy) -> bool {
    match p {
        ReusePolicy::Ephemeral => false,
        ReusePolicy::ReusePrepared { rebuild, .. } => rebuild,
    }
}

/// The key that prepared machines are matched by; zero when nothing is reused.
pub open spec fn reuse_key(p: ReusePolicy) -> u32 {
    match p {
        ReusePolicy::Ephemeral => 0,
        ReusePolicy::ReusePrepared { preparation_key, .. } => preparation_key,
    }
}

impl ReusePolicy {
    pub fn enabled(self) -> (b: bool)
        ensures
            b == reuse_enabled(self),
    {
        match self {
            ReusePolicy::Ephemeral => false,
            ReusePolicy::ReusePrepared { .. } => true,
        }
    }

    pub fn rebuild(self) -> (b: bool)
        ensures
            b == reuse_rebuild(self),
    {
        match self {
            ReusePolicy::Ephemeral => false,
            ReusePolicy::ReusePrepared { rebuild, .. } => rebuild,
        }
    }

    pub fn preparation_key(self) -> (k: u32)
        ensures
            k == reuse_key(self),
    {
        match self {
            ReusePolicy::Ephemeral => 0,
            ReusePolicy::ReusePrepared { preparation_key, .. } => preparation_key,
        }
    }
}

/// The machine options that a task was given.
#[derive(Debug, Clone, Copy, PartialEq, Eq, Structural)]
pub struct MachineOptions {
    pub arch: Option<Arch>,
    pub keep: bool,
    pub provider: Provider,
    pub rebuild: bool,
    pub snapshot: bool,
    pub os: MachineOs,
}

/// The reuse policy that machine options ask for.
pub open spec fn options_reuse_policy(o: MachineOptions, preparation_key: u32) -> ReusePolicy {
    if o.snapshot {
        ReusePolicy::ReusePrepared { rebuild: o.rebuild, preparation_key }
    } else {
        ReusePolicy::Ephemeral
    }
}

impl MachineOptions {
    /// Snapshots make the machine reusable under `preparation_key`; without
    /// them the machine is ephemeral.
    pub fn reuse_policy(&self, preparation_key: u32) -> (p: ReusePolicy)
        ensures
            p == options_reuse_policy(*self, preparation_key),
    {
        if self.snapshot {
            ReusePolicy::ReusePrepared { rebuild: self.rebuild, preparation_key }
        } else {
            ReusePolicy::Ephemeral
        }
    }
}

/// The reuse policy of machine options is enabled exactly when snapshots are,
/// rebuilds exactly when both snapshots and rebuilding were asked for, and is
/// keyed by the given key only when it is enabled.
pub proof fn lemma_reuse_policy_reflects_options(o: MachineOptions, preparation_key: u32)
    ensures
        reuse_enabled(options_reuse_policy(o, preparation_key)) == o.snapshot,
        reuse_rebuild(options_reuse_policy(o, preparation_key)) == (o.snapshot && o.rebuild),
        reuse_key(options_reuse_policy(o, preparation_key)) == if o.snapshot {
            preparation_key
        } else {
            0
        },
{
}

/// Machine options collected while the arguments are read.
#[derive(Debug, Clone, Copy, PartialEq, Eq, Structural)]
pub struct MachineOptionsBuilder {
    pub arch: Option<Arch>,
    pub keep: bool,
    pub provider: Option<Provider>,
    pub rebuild: bool,
    pub snapshot: bool,
}

/// A builder that has seen no machine option.
pub open spec fn empty_builder() -> MachineOptionsBuilder {
    MachineOptionsBuilder { arch: None, keep: false, provider: None, rebuild: false, snapshot: false }
}

impl Default for MachineOptionsBuilder {
    fn default() -> (b: MachineOptionsBuilder)
        ensures
            b == empty_builder(),
    {
        MachineOptionsBuilder { arch: None, keep: false, provider: None, rebuild: false, snapshot: false }
    }
}

/// The argument at `pos`, if there is one.
pub open spec fn arg_at(args: Seq<Argument>, pos: int) -> Option<Argument> {
    if 0 <= pos < args.len() {
        Some(args[pos])
    } else {
        None
    }
}

/// What reading `argument` does to a builder, given the argument after it.
///
/// The result is the outcome (`true` when the argument is a machine option),
/// the builder after it, and whether the next argument was taken as its value.
pub open spec fn builder_reads(
    b: MachineOptionsBuilder,
    argument: Seq<char>,
    next: Option<Argument>,
) -> (Result<bool, Seq<char>>, MachineOptionsBuilder, bool) {
    if argument == "--arch"@ {
        match next {
            None => (Err("--arch requires a value"@), b, false),
            Some(a) => match arch_from_text(arg_text(a)) {
                Err(e) => (Err(e), b, true),
                Ok(arch) => {
                    let b2 = MachineOptionsBuilder { arch: Some(arch), ..b };
                    if b.arch is Some {
                        (Err("--arch may only be specified once"@), b2, true)
                    } else {
                        (Ok(true), b2, true)
                    }
                },
            },
        }
    } else if argument == "--provider"@ {
        match next {
            None => (Err("--provider requires a value"@), b, false),
            Some(a) => match provider_from_text(arg_text(a)) {
                Err(e) => (Err(e), b, true),
                Ok(p) => {
                    let b2 = MachineOptionsBuilder { provider: Some(p), ..b };
                    if b.provider is Some {
                        (Err("--provider may only be specified once"@), b2, true)
                    } else {
                        (Ok(true), b2, true)
                    }
                },
            },
        }
    } else if argument == "--keep-machine"@ {
        (Ok(true), MachineOptionsBuilder { keep: true, ..b }, false)
    } else if argument == "--rebuild-machine"@ {
        (Ok(true), MachineOptionsBuilder { rebuild: true, ..b }, false)
    } else if argument == "--snapshot"@ {
        (Ok(true), MachineOptionsBuilder { snapshot: true, ..b }, false)
    } else {
        (Ok(false), b, false)
    }
}

/// The first machine option, in the order they are reported, that needs a
/// machine to be selected.
pub open spec fn first_machine_option(b: MachineOptionsBuilder) -> Option<Seq<char>> {
    if b.arch is Some {
        Some("--arch"@)
    } else if b.keep {
        Some("--keep-machine"@)
    } else if b.rebuild {
        Some("--rebuild-machine"@)
    } else if b.snapshot {
        Some("--snapshot"@)
    } else {
        None
    }
}

/// The machine options a builder yields, if any machine was asked for.
pub open spec fn builder_finish(b: MachineOptionsBuilder, os: Option<MachineOs>) -> Result<
    Option<MachineOptions>,
    Seq<char>,
> {
    let chosen = match os {
        Some(o) => Some(o),
        None => if b.provider is Some {
            Some(DEFAULT_MACHINE_OS)
        } else {
            None
        },
    };
    match chosen {
        None => match first_machine_option(b) {
            Some(option) => Err(option + " requires --os or --provider"@),
            None => Ok(None),
        },
        Some(o) => if b.rebuild && !b.snapshot {
            Err("--rebuild-machine requires --snapshot"@)
        } else {
            Ok(
                Some(
                    MachineOptions {
                        arch: b.arch,
                        keep: b.keep,
                        provider: match b.provider {
                            Some(p) => p,
                            None => Provider::Lima,
                        },
                        rebuild: b.rebuild,
                        snapshot: b.snapshot,
                        os: o,
                    },
                ),
            )
        },
    }
}

impl MachineOptionsBuilder {
    /// Reads one argument if it is a machine option, taking its value from
    /// `args` at `pos` when it needs one. Returns whether it was a machine
    /// option.
    pub fn parse_argument(&mut self, argument: &str, args: &[Argument], pos: &mut usize) -> (r:
        Result<bool, String>)
        ensures
            ({
                let (outcome, b, took) = builder_reads(
                    *old(self),
                    argument@,
                    arg_at(args@, *old(pos) as int),
                );
                &&& text_result(r) == outcome
                &&& *final(self) == b
                &&& *final(pos) == if took {
                    *old(pos) + 1
                } else {
                    *old(pos) as int
                }
            }),
    {
        if same_text(argument, "--arch") {
            if *pos >= args.len() {
                return Err(String::from_str("--arch requires a value"));
            }
            let value = &args[*pos];
            *pos = *pos + 1;
            let arch = match parse_arch(value.to_str()) {
                Ok(a) => a,
                Err(e) => return Err(e),
            };
            let had = self.arch.is_some();
            self.arch = Some(arch);
            if had {
                return Err(String::from_str("--arch may only be specified once"));
            }
        } else if same_text(argument, "--provider") {
            if *pos >= args.len() {
                return Err(String::from_str("--provider requires a value"));
            }
            let value = &args[*pos];
            *pos = *pos + 1;
            let provider = match Provider::parse(value.to_str()) {
                Ok(p) => p,
                Err(e) => return Err(e),
            };
            let had = self.provider.is_some();
            self.provider = Some(provider);
            if had {
                return Err(String::from_str("--provider may only be specified once"));
            }
        } else if same_text(argument, "--keep-machine") {
            self.keep = true;
        } else if same_text(argument, "--rebuild-machine") {
            self.rebuild = true;
        } else if same_text(argument, "--snapshot") {
            self.snapshot = true;
        } else {
            return Ok(false);
        }
        Ok(true)
    }

    /// The machine options, or `None` when no machine was asked for; `os` is
    /// the OS given on the command line, if any.
    pub fn finish(self, os: Option<MachineOs>) -> (r: Result<Option<MachineOptions>, String>)
        ensures
            text_result(r) == builder_finish(self, os),
    {
        let chosen = match os {
            Some(o) => o,
            None => {
                if self.provider.is_some() {
                    DEFAULT_MACHINE_OS
                } else {
                    let option = if self.arch.is_some() {
                        Some("--arch")
                    } else if self.keep {
                        Some("--keep-machine")
                    } else if self.rebuild {
                        Some("--rebuild-machine")
                    } else if self.snapshot {
                        Some("--snapshot")
                    } else {
                        None
                    };
                    return match option {
                        Some(option) => Err(concat2(option, " requires --os or --provider")),
                        None => Ok(None),
                    };
                }
            },
        };
        if self.rebuild && !self.snapshot {
            return Err(String::from_str("--rebuild-machine requires --snapshot"));
        }
        let provider = match self.provider {
            Some(p) => p,
            None => Provider::Lima,
        };
        Ok(
            Some(
                MachineOptions {
                    arch: self.arch,
                    keep: self.keep,
                    provider,
                    rebuild: self.rebuild,
                    snapshot: self.snapshot,
                    os: chosen,
                },
            ),
        )
    }
}

/// The FNV-1a offset basis that every stable hash starts from.
pub const FNV_OFFSET: u32 = 0x811c9dc5;

/// The FNV-1a prime.
pub const FNV_PRIME: u32 = 0x01000193;

/// One FNV-1a step: fold one byte into the hash.
pub open spec fn fnv_step(hash: u32, byte: u8) -> u32 {
    vstd::wrapping::u32_specs::wrapping_mul(hash ^ (byte as u32), FNV_PRIME)
}

/// FNV-1a over `bytes`, starting from `hash`.
pub open spec fn fnv_bytes(hash: u32, bytes: Seq<u8>) -> u32
    decreases bytes.len(),
{
    if bytes.len() == 0 {
        hash
    } else {
        fnv_step(fnv_bytes(hash, bytes.drop_last()), bytes.last())
    }
}

/// FNV-1a over each part in turn, each part followed by a `0xff` byte.
pub open spec fn fnv_parts(hash: u32, parts: Seq<Seq<u8>>) -> u32
    decreases parts.len(),
{
    if parts.len() == 0 {
        hash
    } else {
        fnv_step(fnv_bytes(fnv_parts(hash, parts.drop_last()), parts.last()), 0xff)
    }
}

/// The parts laid end to end, each followed by a `0xff` byte.
pub open spec fn framed(parts: Seq<Seq<u8>>) -> Seq<u8>
    decreases parts.len(),
{
    if parts.len() == 0 {
        Seq::empty()
    } else {
        framed(parts.drop_last()) + parts.last() + seq![0xffu8]
    }
}

/// Hashing two byte sequences in turn is hashing their concatenation.
pub proof fn lemma_fnv_bytes_concat(hash: u32, a: Seq<u8>, b: Seq<u8>)
    ensures
        fnv_bytes(hash, a + b) == fnv_bytes(fnv_bytes(hash, a), b),
    decreases b.len(),
{
    if b.len() == 0 {
        assert(a + b == a);
    } else {
        lemma_fnv_bytes_concat(hash, a, b.drop_last());
        assert((a + b).drop_last() == a + b.drop_last());
        assert((a + b).last() == b.last());
    }
}

/// The stable hash of several parts is plain FNV-1a of the parts laid end to
/// end, each closed by a `0xff` byte; the closing byte is what keeps
/// `["ab", "c"]` apart from `["a", "bc"]`.
pub proof fn lemma_stable_hash_is_fnv_of_framed_parts(hash: u32, parts: Seq<Seq<u8>>)
    ensures
        fnv_parts(hash, parts) == fnv_bytes(hash, framed(parts)),
    decreases parts.len(),
{
    if parts.len() > 0 {
        lemma_stable_hash_is_fnv_of_framed_parts(hash, parts.drop_last());
        let front = framed(parts.drop_last());
        lemma_fnv_bytes_concat(hash, front, parts.last());
        lemma_fnv_bytes_concat(hash, front + parts.last(), seq![0xffu8]);
        let y = fnv_bytes(hash, front + parts.last());
        assert(seq![0xffu8].drop_last() == Seq::<u8>::empty());
        assert(fnv_bytes(y, Seq::<u8>::empty()) == y);
        assert(fnv_bytes(y, seq![0xffu8]) == fnv_step(y, 0xff));
        assert(framed(parts) == (front + parts.last()) + seq![0xffu8]);
    }
}

/// Folds `bytes` into `hash`, one FNV-1a step per byte.
fn fnv_extend(hash: u32, bytes: &[u8]) -> (h: u32)
    ensures
        h == fnv_bytes(hash, bytes@),
{
    let mut h = hash;
    for i in 0..bytes.len()
        invariant
            h == fnv_bytes(hash, bytes@.take(i as int)),
    {
        assert(bytes@.take(i + 1).drop_last() == bytes@.take(i as int));
        h = (h ^ (bytes[i] as u32)).wrapping_mul(FNV_PRIME);
    }
    assert(bytes@.take(bytes@.len() as int) == bytes@);
    h
}

/// One FNV-1a step.
fn fnv_byte(hash: u32, byte: u8) -> (h: u32)
    ensures
        h == fnv_step(hash, byte),
{
    (hash ^ (byte as u32)).wrapping_mul(FNV_PRIME)
}

/// The stable FNV-1a hash of a path's bytes, which keeps mounted-worktree
/// names the same across processes.
pub fn path_hash(path: &[u8]) -> (h: u32)
    ensures
        h == fnv_bytes(FNV_OFFSET, path@),
{
    fnv_extend(FNV_OFFSET, path)
}

/// Folds one part into a stable hash: its bytes, then a `0xff` byte.
pub(crate) fn hash_part(hash: u32, part: &[u8]) -> (h: u32)
    ensures
        h == fnv_step(fnv_bytes(hash, part@), 0xff),
{
    fnv_byte(fnv_extend(hash, part), 0xff)
}

/// The bytes of each part.
pub open spec fn part_bytes(parts: Seq<&[u8]>) -> Seq<Seq<u8>> {
    parts.map_values(|p: &[u8]| p@)
}

/// The stable hash of several byte strings, each closed by a `0xff` byte.
pub fn stable_hash(parts: &[&[u8]]) -> (h: u32)
    ensures
        h == fnv_parts(FNV_OFFSET, part_bytes(parts@)),
{
    let mut h = FNV_OFFSET;
    for i in 0..parts.len()
        invariant
            h == fnv_parts(FNV_OFFSET, part_bytes(parts@.take(i as int))),
    {
        assert(part_bytes(parts@.take(i + 1)).drop_last() == part_bytes(parts@.take(i as int)));
        h = fnv_extend(h, parts[i]);
        h = fnv_byte(h, 0xff);
    }
    assert(parts@.take(parts@.len() as int) == parts@);
    assert(part_bytes(parts@.take(parts@.len() as int)) == part_bytes(parts@));
    h
}

/// A host directory mounted into the machine.
#[derive(Debug, Clone, PartialEq, Eq)]
pub struct HostMount {
    /// The path's bytes, as the host OS encodes them.
    pub path: Vec<u8>,
    pub writable: bool,
}

impl HostMount {
    /// A read-only mount of `path`.
    pub fn read_only(path: &[u8]) -> (m: HostMount)
        ensures
            m.path@ == path@,
            !m.writable,
    {
        HostMount { path: vstd::slice::slice_to_vec(path), writable: false }
    }
}

/// A named disk that outlives the machine it is attached to.
#[derive(Debug, Clone, PartialEq, Eq)]
pub struct PersistentDisk {
    pub name: String,
    pub size: String,
    pub filesystem: &'static str,
}

impl PersistentDisk {
    /// A copy of the disk description.
    pub fn duplicate(&self) -> (d: PersistentDisk)
        ensures
            d == *self,
    {
        PersistentDisk { name: self.name.clone(), size: self.size.clone(), filesystem: self.filesystem }
    }

    /// An ext4 disk with the given name and size.
    pub fn ext4(name: &str, size: &str) -> (d: PersistentDisk)
        ensures
            d.name@ == name@,
            d.size@ == size@,
            d.filesystem@ == "ext4"@,
    {
        PersistentDisk { name: String::from_str(name), size: String::from_str(size), filesystem: "ext4" }
    }
}

/// What a task asks a provider for.
#[derive(Debug, Clone)]
pub struct MachineRequest {
    pub os: MachineOs,
    pub arch: Arch,
    pub purpose: &'static str,
    pub profile: &'static str,
    pub forward_env: Vec<&'static str>,
    pub keep_on_failure: bool,
    pub reuse: ReusePolicy,
    pub host_mounts: Vec<HostMount>,
    pub persistent_disks: Vec<PersistentDisk>,
}

/// The byte of a flag: 1 for true, 0 for false.
pub open spec fn flag_byte(b: bool) -> u8 {
    if b {
        1
    } else {
        0
    }
}

/// Folds the host mounts into a hash: each path, then its writable flag and a
/// `0xff` byte.
pub open spec fn mounts_hash(hash: u32, mounts: Seq<HostMount>) -> u32
    decreases mounts.len(),
{
    if mounts.len() == 0 {
        hash
    } else {
        let m = mounts.last();
        fnv_bytes(
            fnv_bytes(mounts_hash(hash, mounts.drop_last()), m.path@),
            seq![flag_byte(m.writable), 0xffu8],
        )
    }
}

/// Folds one text field of a disk into a hash, closed by a `0xfe` byte.
pub open spec fn disk_field_hash(hash: u32, text: Seq<char>) -> u32 {
    fnv_step(fnv_bytes(hash, vstd::utf8::encode_utf8(text)), 0xfe)
}

/// Folds the persistent disks into a hash: name, size and filesystem of each,
/// then a `0xff` byte.
pub open spec fn disks_hash(hash: u32, disks: Seq<PersistentDisk>) -> u32
    decreases disks.len(),
{
    if disks.len() == 0 {
        hash
    } else {
        let d = disks.last();
        let h = disks_hash(hash, disks.drop_last());
        fnv_step(
            disk_field_hash(disk_field_hash(disk_field_hash(h, d.name@), d.size@), d.filesystem@),
            0xff,
        )
    }
}

/// The hash extended by the host mounts and persistent disks of a request.
pub open spec fn request_resources_hash(hash: u32, request: MachineRequest) -> u32 {
    disks_hash(mounts_hash(hash, request.host_mounts@), request.persistent_disks@)
}

fn disk_field(hash: u32, text: &str) -> (h: u32)
    ensures
        h == disk_field_hash(hash, text@),
{
    let h = fnv_extend(hash, text.as_bytes());
    fnv_byte(h, 0xfe)
}

/// Extends `hash` by everything a request mounts or attaches, so that
/// machines and snapshots are keyed to their complete resource configuration.
pub fn hash_request_resources(hash: u32, request: &MachineRequest) -> (h: u32)
    ensures
        h == request_resources_hash(hash, *request),
{
    let mounts = &request.host_mounts;
    let mut h = hash;
    for i in 0..mounts.len()
        invariant
            h == mounts_hash(hash, mounts@.take(i as int)),
    {
        assert(mounts@.take(i + 1).drop_last() == mounts@.take(i as int));
        let m = &mounts[i];
        h = fnv_extend(h, m.path.as_slice());
        let flag: u8 = if m.writable {
            1
        } else {
            0
        };
        h = fnv_byte(h, flag);
        h = fnv_byte(h, 0xff);
        proof {
            let x = fnv_bytes(mounts_hash(hash, mounts@.take(i as int)), m.path@);
            reveal_with_fuel(fnv_bytes, 3);
            assert(seq![flag, 0xffu8].drop_last() == seq![flag]);
            assert(seq![flag].drop_last() == Seq::<u8>::empty());
            assert(fnv_bytes(x, seq![flag]) == fnv_step(x, flag));
            assert(seq![flag, 0xffu8].last() == 0xffu8);
            assert(fnv_bytes(x, seq![flag, 0xffu8]) == fnv_step(fnv_step(x, flag), 0xff));
        }
    }
    assert(mounts@.take(mounts@.len() as int) == mounts@);
    let after_mounts = h;
    let disks = &request.persistent_disks;
    for i in 0..disks.len()
        invariant
            h == disks_hash(after_mounts, disks@.take(i as int)),
    {
        assert(disks@.take(i + 1).drop_last() == disks@.take(i as int));
        let d = &disks[i];
        h = disk_field(h, d.name.as_str());
        h = disk_field(h, d.size.as_str());
        h = disk_field(h, d.filesystem);
        h = fnv_byte(h, 0xff);
    }
    assert(disks@.take(disks@.len() as int) == disks@);
    h
}

} // verus!
