//! Command-line arguments and the outcome of commands that ran.

use vstd::prelude::*;
use crate::text::same_text;

verus! {

/// One command-line argument: UTF-8 text, or the raw bytes of an argument
/// that is not valid UTF-8.
#[derive(Debug, Clone, PartialEq, Eq)]
pub enum Argument {
    Utf8(String),
    Raw(Vec<u8>),
}

/// The text of an argument, if it is valid UTF-8.
pub open spec fn arg_text(a: Argument) -> Option<Seq<char>> {
    match a {
        Argument::Utf8(s) => Some(s@),
        Argument::Raw(_) => None,
    }
}

/// An argument, seen through its text or its bytes.
pub enum ArgumentView {
    Utf8(Seq<char>),
    Raw(Seq<u8>),
}

impl View for Argument {
    type V = ArgumentView;

    open spec fn view(&self) -> ArgumentView {
        match self {
            Argument::Utf8(s) => ArgumentView::Utf8(s@),
            Argument::Raw(b) => ArgumentView::Raw(b@),
        }
    }
}

impl Argument {
    /// A copy of the argument.
    pub fn duplicate(&self) -> (r: Argument)
        ensures
            r@ == self@,
    {
        match self {
            Argument::Utf8(s) => Argument::Utf8(s.clone()),
            Argument::Raw(b) => Argument::Raw(vstd::slice::slice_to_vec(b.as_slice())),
        }
    }

    /// The argument as text, if it is valid UTF-8.
    pub fn to_str(&self) -> (r: Option<&str>)
        ensures
            r is None <==> arg_text(*self) is None,
            r matches Some(s) ==> arg_text(*self) == Some(s@),
    {
        match self {
            Argument::Utf8(s) => Some(s.as_str()),
            Argument::Raw(_) => None,
        }
    }
}

/// A string result, seen through the characters of its error.
pub open spec fn text_result<T>(r: Result<T, String>) -> Result<T, Seq<char>> {
    match r {
        Ok(v) => Ok(v),
        Err(e) => Err(e@),
    }
}

/// A text result, seen through the characters of its value and its error.
pub open spec fn string_result(r: Result<String, String>) -> Result<Seq<char>, Seq<char>> {
    match r {
        Ok(v) => Ok(v@),
        Err(e) => Err(e@),
    }
}

/// The text of an optional string slice.
pub open spec fn opt_text(v: Option<&str>) -> Option<Seq<char>> {
    match v {
        Some(s) => Some(s@),
        None => None,
    }
}

/// Whether an argument asks for help.
pub open spec fn is_help(a: Argument) -> bool {
    arg_text(a) == Some("-h"@) || arg_text(a) == Some("--help"@)
}

/// Whether an argument is `-h` or `--help`.
pub fn is_help_argument(argument: &Argument) -> (b: bool)
    ensures
        b == is_help(*argument),
{
    match argument.to_str() {
        Some(s) => same_text(s, "-h") || same_text(s, "--help"),
        None => false,
    }
}

/// Whether a task's first argument asks for its help text.
pub fn help_requested(args: &[Argument]) -> (b: bool)
    ensures
        b == (args@.len() > 0 && is_help(args@[0])),
{
    args.len() > 0 && is_help_argument(&args[0])
}

/// How a finished command ended: its exit code, or none when a signal ended it.
#[derive(Debug, Clone, Copy, PartialEq, Eq, Structural)]
pub struct RunStatus {
    pub code: Option<i32>,
}

impl RunStatus {
    /// Whether the command exited with code zero.
    pub fn success(&self) -> (b: bool)
        ensures
            b == (self.code == Some(0i32)),
    {
        match self.code {
            Some(c) => c == 0,
            None => false,
        }
    }
}

/// The exit code a task passes on for a command that ended with `status`.
pub open spec fn task_exit_code(status: RunStatus) -> u8 {
    match status.code {
        Some(c) => if 0 <= c <= 255 {
            c as u8
        } else {
            1
        },
        None => 1,
    }
}

/// The process exit code for a finished command: its own code when it fits in
/// a byte, otherwise failure.
pub fn exit_code(status: RunStatus) -> (code: u8)
    ensures
        code == task_exit_code(status),
{
    match status.code {
        Some(c) => if 0 <= c && c <= 255 {
            c as u8
        } else {
            1
        },
        None => 1,
    }
}

/// The UTF-8 bytes of a text.
pub open spec fn utf8(text: Seq<char>) -> Seq<u8> {
    vstd::utf8::encode_utf8(text)
}

/// A program to run, with its arguments and the environment variables it is
/// given in addition to those it inherits.
#[derive(Debug, Clone, PartialEq, Eq)]
pub struct CommandLine {
    pub program: String,
    /// Each argument's bytes, as the OS receives them.
    pub args: Vec<Vec<u8>>,
    pub envs: Vec<(String, String)>,
}

/// The bytes of each argument of a command.
pub open spec fn command_args(c: CommandLine) -> Seq<Seq<u8>> {
    c.args@.map_values(|a: Vec<u8>| a@)
}

/// The names and values of the environment variables a command sets.
pub open spec fn command_envs(c: CommandLine) -> Seq<(Seq<char>, Seq<char>)> {
    c.envs@.map_values(|e: (String, String)| (e.0@, e.1@))
}

impl CommandLine {
    /// A command that runs `program` with no arguments.
    pub fn new(program: &str) -> (c: CommandLine)
        ensures
            c.program@ == program@,
            command_args(c) == Seq::<Seq<u8>>::empty(),
            command_envs(c) == Seq::<(Seq<char>, Seq<char>)>::empty(),
    {
        let c = CommandLine { program: String::from_str(program), args: Vec::new(), envs: Vec::new() };
        assert(command_args(c) == Seq::<Seq<u8>>::empty());
        assert(command_envs(c) == Seq::<(Seq<char>, Seq<char>)>::empty());
        c
    }

    /// Appends one argument given as text.
    pub fn arg(&mut self, text: &str)
        ensures
            final(self).program == old(self).program,
            command_args(*final(self)) == command_args(*old(self)).push(utf8(text@)),
            command_envs(*final(self)) == command_envs(*old(self)),
    {
        let bytes = text.as_bytes_vec();
        self.args.push(bytes);
        assert(command_args(*self) == command_args(*old(self)).push(utf8(text@)));
    }

    /// Appends one argument given as bytes.
    pub fn arg_bytes(&mut self, bytes: Vec<u8>)
        ensures
            final(self).program == old(self).program,
            command_args(*final(self)) == command_args(*old(self)).push(bytes@),
            command_envs(*final(self)) == command_envs(*old(self)),
    {
        let ghost b = bytes@;
        self.args.push(bytes);
        assert(command_args(*self) == command_args(*old(self)).push(b));
    }

    /// Sets an environment variable for the command.
    pub fn env(&mut self, name: &str, value: String)
        ensures
            final(self).program == old(self).program,
            command_args(*final(self)) == command_args(*old(self)),
            command_envs(*final(self)) == command_envs(*old(self)).push((name@, value@)),
    {
        let ghost v = value@;
        self.envs.push((String::from_str(name), value));
        assert(command_envs(*self) == command_envs(*old(self)).push((name@, v)));
    }
}

/// A development task.
#[derive(Debug, Clone, Copy, PartialEq, Eq, Structural)]
pub enum Task {
    Help,
    E2e,
    ReleaseSmokeTest,
}

/// The task a first argument names; no argument asks for help.
pub open spec fn task_from(first: Option<Argument>) -> Result<Task, Seq<char>> {
    match first {
        None => Ok(Task::Help),
        Some(a) => match arg_text(a) {
            None => Err("task name must be valid UTF-8"@),
            Some(t) => if t == "help"@ || t == "-h"@ || t == "--help"@ {
                Ok(Task::Help)
            } else if t == "e2e"@ {
                Ok(Task::E2e)
            } else if t == "release-smoke-test"@ {
                Ok(Task::ReleaseSmokeTest)
            } else {
                Err("invalid task name: "@ + t)
            },
        },
    }
}

/// Reads the task named by the first command-line argument.
pub fn parse_task(first: Option<&Argument>) -> (r: Result<Task, String>)
    ensures
        text_result(r) == task_from(
            match first {
                Some(a) => Some(*a),
                None => None,
            },
        ),
{
    match first {
        None => Ok(Task::Help),
        Some(a) => match a.to_str() {
            None => Err(String::from_str("task name must be valid UTF-8")),
            Some(t) => if same_text(t, "help") || same_text(t, "-h") || same_text(t, "--help") {
                Ok(Task::Help)
            } else if same_text(t, "e2e") {
                Ok(Task::E2e)
            } else if same_text(t, "release-smoke-test") {
                Ok(Task::ReleaseSmokeTest)
            } else {
                Err(crate::text::concat2("invalid task name: ", t))
            },
        },
    }
}

} // verus!
