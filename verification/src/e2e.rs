//! The `e2e` task: which suite to run, and whether on a target machine.

use vstd::prelude::*;
use crate::machine::{
    MachineOptions, MachineOptionsBuilder, arg_at, builder_finish, builder_reads, empty_builder,
};
use crate::platform::{MachineOs, machine_os_from_text, parse_machine_os};
use crate::tasks::{Argument, CommandLine, arg_text, command_args, command_envs, opt_text, text_result, utf8};
use crate::text::{concat2, concat3, same_text};

verus! {

/// An end-to-end test suite.
#[derive(Debug, Clone, Copy, PartialEq, Eq, Structural)]
pub enum E2eSuite {
    Podman,
}

/// What the value of `--suite` parses to; `None` stands for a value that is
/// not valid UTF-8.
pub open spec fn suite_from_text(value: Option<Seq<char>>) -> Result<E2eSuite, Seq<char>> {
    match value {
        Some(v) => if v == "podman"@ {
            Ok(E2eSuite::Podman)
        } else {
            Err("unsupported e2e suite: "@ + v + " (expected podman)"@)
        },
        None => Err("--suite must be valid UTF-8"@),
    }
}

/// The identifier of each suite.
pub open spec fn suite_id(suite: E2eSuite) -> Seq<char> {
    match suite {
        E2eSuite::Podman => "podman"@,
    }
}

impl E2eSuite {
    pub fn id(self) -> (id: &'static str)
        ensures
            id@ == suite_id(self),
    {
        match self {
            E2eSuite::Podman => "podman",
        }
    }

    /// Parses the value of `--suite`; `value` is `None` when the argument is
    /// not valid UTF-8.
    pub fn parse(value: Option<&str>) -> (r: Result<E2eSuite, String>)
        ensures
            text_result(r) == suite_from_text(opt_text(value)),
    {
        match value {
            Some(v) => if same_text(v, "podman") {
                Ok(E2eSuite::Podman)
            } else {
                Err(concat3("unsupported e2e suite: ", v, " (expected podman)"))
            },
            None => Err(String::from_str("--suite must be valid UTF-8")),
        }
    }

    /// The script that runs the suite directly.
    pub fn script(self) -> (s: &'static str)
        ensures
            s@ == "e2e/rust/e2e-podman.sh"@,
    {
        match self {
            E2eSuite::Podman => "e2e/rust/e2e-podman.sh",
        }
    }

    /// The environment variable that selects a single test of the suite.
    pub fn test_environment(self) -> (s: &'static str)
        ensures
            s@ == "OPENSHELL_E2E_PODMAN_TEST"@,
    {
        match self {
            E2eSuite::Podman => "OPENSHELL_E2E_PODMAN_TEST",
        }
    }
}

/// A suite, and optionally the one test of it to run.
#[derive(Debug, Clone, PartialEq, Eq)]
pub struct E2eSelection {
    pub suite: E2eSuite,
    pub test: Option<String>,
}

/// The text of an optional string.
pub open spec fn opt_string_text(s: Option<String>) -> Option<Seq<char>> {
    match s {
        Some(t) => Some(t@),
        None => None,
    }
}

impl E2eSelection {
    pub fn suite(&self) -> (s: E2eSuite)
        ensures
            s == self.suite,
    {
        self.suite
    }

    pub fn test(&self) -> (t: Option<&str>)
        ensures
            opt_text(t) == opt_string_text(self.test),
    {
        match &self.test {
            Some(t) => Some(t.as_str()),
            None => None,
        }
    }
}

/// What has been read of the `e2e` arguments so far: the suite, the OS, the
/// test name and the machine options.
pub type E2eScan = (Option<E2eSuite>, Option<MachineOs>, Option<Seq<char>>, MachineOptionsBuilder);

/// Reads the `e2e` arguments from position `pos` on, after `scan`.
pub open spec fn e2e_scan(args: Seq<Argument>, pos: int, scan: E2eScan) -> Result<E2eScan, Seq<char>>
    decreases args.len() - pos,
{
    if pos < 0 || pos >= args.len() {
        Ok(scan)
    } else {
        let (suite, os, test, builder) = scan;
        match arg_text(args[pos]) {
            None => Err("e2e options must be valid UTF-8"@),
            Some(t) => if t == "--suite"@ {
                match arg_at(args, pos + 1) {
                    None => Err("--suite requires a value"@),
                    Some(v) => match suite_from_text(arg_text(v)) {
                        Err(e) => Err(e),
                        Ok(s) => if suite is Some {
                            Err("--suite may only be specified once"@)
                        } else {
                            e2e_scan(args, pos + 2, (Some(s), os, test, builder))
                        },
                    },
                }
            } else if t == "--test"@ {
                match arg_at(args, pos + 1) {
                    None => Err("--test requires a value"@),
                    Some(v) => match arg_text(v) {
                        None => Err("--test must be valid UTF-8"@),
                        Some(name) => if name.len() == 0 {
                            Err("--test may not be empty"@)
                        } else if test is Some {
                            Err("--test may only be specified once"@)
                        } else {
                            e2e_scan(args, pos + 2, (suite, os, Some(name), builder))
                        },
                    },
                }
            } else if t == "--os"@ {
                match arg_at(args, pos + 1) {
                    None => Err("--os requires a value"@),
                    Some(v) => match machine_os_from_text(arg_text(v), "--os"@) {
                        Err(e) => Err(e),
                        Ok(o) => if os is Some {
                            Err("--os may only be specified once"@)
                        } else {
                            e2e_scan(args, pos + 2, (suite, Some(o), test, builder))
                        },
                    },
                }
            } else {
                let (outcome, b, took) = builder_reads(builder, t, arg_at(args, pos + 1));
                match outcome {
                    Err(e) => Err(e),
                    Ok(true) => e2e_scan(
                        args,
                        pos + 1 + if took {
                            1int
                        } else {
                            0
                        },
                        (suite, os, test, b),
                    ),
                    Ok(false) => Err("unknown e2e option: "@ + t),
                }
            },
        }
    }
}

/// The parsed command that a complete reading of the arguments yields.
pub open spec fn e2e_outcome(scanned: Result<E2eScan, Seq<char>>) -> Result<
    (E2eSuite, Option<Seq<char>>, Option<MachineOptions>),
    Seq<char>,
> {
    match scanned {
        Err(e) => Err(e),
        Ok((suite, os, test, builder)) => match suite {
            None => Err("e2e requires --suite <suite>"@),
            Some(s) => match builder_finish(builder, os) {
                Err(e) => Err(e),
                Ok(machine) => Ok((s, test, machine)),
            },
        },
    }
}

/// What the `e2e` arguments parse to: the suite, the test name and the
/// machine options (`None` to run the suite locally).
pub open spec fn e2e_parse(args: Seq<Argument>) -> Result<
    (E2eSuite, Option<Seq<char>>, Option<MachineOptions>),
    Seq<char>,
> {
    e2e_outcome(e2e_scan(args, 0, (None, None, None, empty_builder())))
}

/// A parsed `e2e` command line.
#[derive(Debug, Clone, PartialEq, Eq)]
pub struct E2eCommand {
    pub selection: E2eSelection,
    pub machine: Option<MachineOptions>,
}

impl E2eCommand {
    /// Parses the arguments of the `e2e` task.
    #[verifier::spinoff_prover]
    pub fn parse(args: &[Argument]) -> (r: Result<E2eCommand, String>)
        ensures
            match r {
                Ok(c) => e2e_parse(args@) == Ok::<_, Seq<char>>(
                    (c.selection.suite, opt_string_text(c.selection.test), c.machine),
                ),
                Err(e) => e2e_parse(args@) == Err::<(E2eSuite, Option<Seq<char>>, Option<MachineOptions>), _>(e@),
            },
    {
        let mut suite: Option<E2eSuite> = None;
        let mut os: Option<MachineOs> = None;
        let mut test: Option<String> = None;
        let mut machine = MachineOptionsBuilder::default();
        let mut pos: usize = 0;
        while pos < args.len()
            invariant
                pos <= args@.len(),
                e2e_parse(args@) == e2e_outcome(
                    e2e_scan(args@, pos as int, (suite, os, opt_string_text(test), machine)),
                ),
            decreases args@.len() - pos,
        {
            let argument = &args[pos];
            let ghost here = pos as int;
            pos = pos + 1;
            let text = match argument.to_str() {
                Some(t) => t,
                None => {
                    assert(arg_text(args@[here]) is None);
                    return Err(String::from_str("e2e options must be valid UTF-8"));
                },
            };
            if same_text(text, "--suite") {
                if pos >= args.len() {
                    assert(arg_at(args@, here + 1) is None);
                    return Err(String::from_str("--suite requires a value"));
                }
                let value = &args[pos];
                pos = pos + 1;
                let parsed = match E2eSuite::parse(value.to_str()) {
                    Ok(s) => s,
                    Err(e) => return Err(e),
                };
                if suite.is_some() {
                    return Err(String::from_str("--suite may only be specified once"));
                }
                suite = Some(parsed);
            } else if same_text(text, "--test") {
                if pos >= args.len() {
                    return Err(String::from_str("--test requires a value"));
                }
                let value = &args[pos];
                pos = pos + 1;
                let name = match value {
                    Argument::Utf8(s) => s.clone(),
                    Argument::Raw(_) => return Err(String::from_str("--test must be valid UTF-8")),
                };
                if name.as_str().is_empty() {
                    return Err(String::from_str("--test may not be empty"));
                }
                if test.is_some() {
                    return Err(String::from_str("--test may only be specified once"));
                }
                test = Some(name);
            } else if same_text(text, "--os") {
                if pos >= args.len() {
                    return Err(String::from_str("--os requires a value"));
                }
                let value = &args[pos];
                pos = pos + 1;
                let parsed = match parse_machine_os(value.to_str(), "--os") {
                    Ok(o) => o,
                    Err(e) => return Err(e),
                };
                if os.is_some() {
                    return Err(String::from_str("--os may only be specified once"));
                }
                os = Some(parsed);
            } else {
                let consumed = match machine.parse_argument(text, args, &mut pos) {
                    Ok(b) => b,
                    Err(e) => return Err(e),
                };
                if !consumed {
                    return Err(concat2("unknown e2e option: ", text));
                }
            }
        }
        let suite = match suite {
            Some(s) => s,
            None => return Err(String::from_str("e2e requires --suite <suite>")),
        };
        let machine = match machine.finish(os) {
            Ok(m) => m,
            Err(e) => return Err(e),
        };
        Ok(E2eCommand { selection: E2eSelection { suite, test }, machine })
    }
}

/// The command that runs a suite on this machine through `mise`.
pub fn local_command(selection: &E2eSelection) -> (c: CommandLine)
    ensures
        c.program@ == "mise"@,
        command_args(c) == seq![utf8("exec"@), utf8("--"@), utf8("e2e/rust/e2e-podman.sh"@)],
        command_envs(c) == match opt_string_text(selection.test) {
            Some(t) => seq![("OPENSHELL_E2E_PODMAN_TEST"@, t)],
            None => Seq::empty(),
        },
{
    let mut c = CommandLine::new("mise");
    c.arg("exec");
    c.arg("--");
    c.arg(selection.suite.script());
    match &selection.test {
        Some(t) => c.env(selection.suite.test_environment(), t.clone()),
        None => {},
    }
    c
}

} // verus!
