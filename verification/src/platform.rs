//! Target machine architectures and operating systems.

use vstd::prelude::*;
use crate::tasks::{opt_text, text_result};
use crate::text::{concat2, concat3, same_text};

verus! {

/// CPU architecture of a target machine.
#[derive(Debug, Clone, Copy, PartialEq, Eq, Structural)]
pub enum Arch {
    Amd64,
    Arm64,
}

/// The architecture a command-line value names, if any.
pub open spec fn named_arch(value: Seq<char>) -> Option<Arch> {
    if value == "amd64"@ || value == "x86_64"@ {
        Some(Arch::Amd64)
    } else if value == "arm64"@ || value == "aarch64"@ {
        Some(Arch::Arm64)
    } else {
        None
    }
}

/// What the value of `--arch` parses to; `None` stands for a value that is
/// not valid UTF-8.
pub open spec fn arch_from_text(value: Option<Seq<char>>) -> Result<Arch, Seq<char>> {
    match value {
        Some(v) => match named_arch(v) {
            Some(a) => Ok(a),
            None => Err("unsupported architecture: "@ + v),
        },
        None => Err("--arch must be valid UTF-8"@),
    }
}

/// Parses the value of `--arch`; `value` is `None` when the argument is not
/// valid UTF-8.
pub fn parse_arch(value: Option<&str>) -> (r: Result<Arch, String>)
    ensures
        text_result(r) == arch_from_text(opt_text(value)),
{
    match value {
        Some(v) => {
            if same_text(v, "amd64") || same_text(v, "x86_64") {
                Ok(Arch::Amd64)
            } else if same_text(v, "arm64") || same_text(v, "aarch64") {
                Ok(Arch::Arm64)
            } else {
                Err(concat2("unsupported architecture: ", v))
            }
        },
        None => Err(String::from_str("--arch must be valid UTF-8")),
    }
}

/// Operating-system family of a target machine.
#[derive(Debug, Clone, Copy, PartialEq, Eq, Structural)]
pub enum OsFamily {
    CentosStream,
    Ubuntu,
}

/// Operating system installed on a target machine.
#[derive(Debug, Clone, Copy, PartialEq, Eq, Structural)]
pub enum MachineOs {
    CentosStream10,
    Ubuntu24_04,
    Ubuntu26_04,
}

/// The identifier of each machine OS, as written on the command line.
pub open spec fn os_id(os: MachineOs) -> Seq<char> {
    match os {
        MachineOs::CentosStream10 => "centos-stream-10"@,
        MachineOs::Ubuntu24_04 => "ubuntu-24.04"@,
        MachineOs::Ubuntu26_04 => "ubuntu-26.04"@,
    }
}

/// The compact name of each machine OS, used in resource names.
pub open spec fn os_short_name(os: MachineOs) -> Seq<char> {
    match os {
        MachineOs::CentosStream10 => "centos10"@,
        MachineOs::Ubuntu24_04 => "ubuntu2404"@,
        MachineOs::Ubuntu26_04 => "ubuntu2604"@,
    }
}

/// The family each machine OS belongs to.
pub open spec fn os_family(os: MachineOs) -> OsFamily {
    match os {
        MachineOs::CentosStream10 => OsFamily::CentosStream,
        MachineOs::Ubuntu24_04 | MachineOs::Ubuntu26_04 => OsFamily::Ubuntu,
    }
}

impl MachineOs {
    pub fn id(self) -> (id: &'static str)
        ensures
            id@ == os_id(self),
    {
        match self {
            MachineOs::CentosStream10 => "centos-stream-10",
            MachineOs::Ubuntu24_04 => "ubuntu-24.04",
            MachineOs::Ubuntu26_04 => "ubuntu-26.04",
        }
    }

    pub fn short_name(self) -> (name: &'static str)
        ensures
            name@ == os_short_name(self),
    {
        match self {
            MachineOs::CentosStream10 => "centos10",
            MachineOs::Ubuntu24_04 => "ubuntu2404",
            MachineOs::Ubuntu26_04 => "ubuntu2604",
        }
    }

    pub fn family(self) -> (family: OsFamily)
        ensures
            family == os_family(self),
    {
        match self {
            MachineOs::CentosStream10 => OsFamily::CentosStream,
            MachineOs::Ubuntu24_04 | MachineOs::Ubuntu26_04 => OsFamily::Ubuntu,
        }
    }
}

/// The machine OS a command-line value names, if any.
pub open spec fn named_machine_os(value: Seq<char>) -> Option<MachineOs> {
    if value == "centos-stream-10"@ {
        Some(MachineOs::CentosStream10)
    } else if value == "ubuntu-24.04"@ {
        Some(MachineOs::Ubuntu24_04)
    } else if value == "ubuntu-26.04"@ {
        Some(MachineOs::Ubuntu26_04)
    } else {
        None
    }
}

/// What a machine OS given as the value of `option` parses to; `None` stands
/// for a value that is not valid UTF-8.
pub open spec fn machine_os_from_text(value: Option<Seq<char>>, option: Seq<char>) -> Result<
    MachineOs,
    Seq<char>,
> {
    match value {
        Some(v) => match named_machine_os(v) {
            Some(os) => Ok(os),
            None => Err(
                "unsupported machine OS: "@ + v
                    + " (expected centos-stream-10, ubuntu-24.04, or ubuntu-26.04)"@,
            ),
        },
        None => Err(option + " must be valid UTF-8"@),
    }
}

/// Parses a machine OS given as the value of `option`; `value` is `None`
/// when the argument is not valid UTF-8.
pub fn parse_machine_os(value: Option<&str>, option: &str) -> (r: Result<MachineOs, String>)
    ensures
        text_result(r) == machine_os_from_text(opt_text(value), option@),
{
    match value {
        Some(v) => {
            if same_text(v, "centos-stream-10") {
                Ok(MachineOs::CentosStream10)
            } else if same_text(v, "ubuntu-24.04") {
                Ok(MachineOs::Ubuntu24_04)
            } else if same_text(v, "ubuntu-26.04") {
                Ok(MachineOs::Ubuntu26_04)
            } else {
                Err(
                    concat3(
                        "unsupported machine OS: ",
                        v,
                        " (expected centos-stream-10, ubuntu-24.04, or ubuntu-26.04)",
                    ),
                )
            }
        },
        None => Err(concat2(option, " must be valid UTF-8")),
    }
}

/// Reading back the identifier of a machine OS gives that OS: `parse_machine_os`
/// accepts exactly what `MachineOs::id` writes.
pub proof fn lemma_machine_os_id_parses_back(os: MachineOs)
    ensures
        named_machine_os(os_id(os)) == Some(os),
{
    reveal_strlit("centos-stream-10");
    reveal_strlit("ubuntu-24.04");
    reveal_strlit("ubuntu-26.04");
    assert("ubuntu-24.04"@.len() != "centos-stream-10"@.len());
    assert("ubuntu-26.04"@.len() != "centos-stream-10"@.len());
    assert("ubuntu-26.04"@[8] != "ubuntu-24.04"@[8]);
}

/// Distinct machine OSes have distinct identifiers and distinct short names.
pub proof fn lemma_machine_os_names_are_distinct(a: MachineOs, b: MachineOs)
    requires
        a != b,
    ensures
        os_id(a) != os_id(b),
        os_short_name(a) != os_short_name(b),
{
    reveal_strlit("centos-stream-10");
    reveal_strlit("ubuntu-24.04");
    reveal_strlit("ubuntu-26.04");
    reveal_strlit("centos10");
    reveal_strlit("ubuntu2404");
    reveal_strlit("ubuntu2604");
    assert(os_id(a)[0] != os_id(b)[0] || os_id(a)[8] != os_id(b)[8]);
    assert(os_short_name(a)[0] != os_short_name(b)[0] || os_short_name(a)[7] != os_short_name(b)[7]);
}

} // verus!
