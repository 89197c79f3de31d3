//! Acquiring a Lima machine, as a state machine: each step takes what the
//! last command did and says what to print and which command to run next.
//! The caller runs the commands; every decision is made here.

use vstd::prelude::*;
use crate::lima::{
    AttachedDisk, Backend, check_status, checked_outcome, disk_list_contains, disk_listed,
    display_exit_code, exit_code_text, guest_shell_command, has_trimmed_line, instance_name,
    instance_name_text, limactl, output_has_line, output_lines, parse_instance_status,
    snapshot_tag, snapshot_tag_text, spawn_failure, start_instance_args, start_instance_command,
    status_in_lines, utf8_args, valid_disk_name, validate_disk_name,
};
use crate::machine::{MachineRequest, PersistentDisk, ReusePolicy, reuse_enabled, reuse_rebuild};
use crate::tasks::{CommandLine, RunStatus, command_args, command_envs};
use crate::text::{concat2, concat3, join_texts, str_texts};

verus! {

/// Where an acquisition stands: which command it waits for.
#[derive(Debug, Clone, Copy, PartialEq, Eq, Structural)]
pub enum LimaPhase {
    CheckingLima,
    ListingDisks,
    CreatingDisk,
    ListingDrivers,
    Inspecting,
    ListingSnapshots,
    RestoreInspecting,
    RestoreStopping,
    RestoreApplying,
    RestoreStarting,
    DeletingStale,
    Creating,
    SettingUp,
    PrepInspecting,
    PrepStopping,
    DisablingFormat,
    Snapshotting,
    PrepStarting,
    StopCleanupInspecting,
    StopCleanupStopping,
    DeleteCleanupInspecting,
    DeleteCleanupDeleting,
    Finished,
}

/// What happened to the last command: it ran to its end (with what it
/// printed, when its output was asked for), or it could not be run, with the
/// error's text.
#[derive(Debug, Clone, PartialEq, Eq)]
pub enum LimaEvent {
    Finished(RunStatus, Vec<u8>),
    Failed(String),
}

/// A provisioned Lima machine.
#[derive(Debug, Clone)]
pub struct LimaMachine {
    pub name: String,
    pub reusable: bool,
    pub forward_env: Vec<&'static str>,
}

/// What to do next.
#[derive(Debug)]
pub enum LimaWork {
    /// Run the command and report how it exited.
    Run(CommandLine),
    /// Run the command and report how it exited and what it printed.
    Capture(CommandLine),
    /// Run the command with the script on its standard input and report how
    /// it exited, or the error that stopped it.
    RunScript(CommandLine, String),
    /// The acquisition is over.
    Done(Result<LimaMachine, String>),
}

/// One step: lines to print on standard output and on standard error, then
/// the work to do.
#[derive(Debug)]
pub struct LimaStep {
    pub stdout: Vec<String>,
    pub stderr: Vec<String>,
    pub work: LimaWork,
}

/// An acquisition in progress.
pub struct LimaProvisioning {
    request: MachineRequest,
    setup_script: String,
    pid: u32,
    phase: LimaPhase,
    disks: Vec<AttachedDisk>,
    disk_list: Vec<u8>,
    reusable: bool,
    name: String,
    snapshot: String,
    status: Option<String>,
    error: String,
}

/// What an acquisition holds: the request and setup script, the process id,
/// the phase, the disks attached so far, the listed disks, whether the
/// machine is reusable, its name and snapshot tag, the status found for it,
/// and the error that a cleanup is reporting.
pub struct ProvisioningView {
    pub request: MachineRequest,
    pub setup_script: Seq<char>,
    pub pid: u32,
    pub phase: LimaPhase,
    pub disks: Seq<AttachedDisk>,
    pub disk_list: Seq<u8>,
    pub reusable: bool,
    pub name: Seq<char>,
    pub snapshot: Seq<char>,
    pub status: Option<Seq<char>>,
    pub error: Seq<char>,
}

/// The text of an optional string.
pub open spec fn opt_text(s: Option<String>) -> Option<Seq<char>> {
    match s {
        Some(t) => Some(t@),
        None => None,
    }
}

impl View for LimaProvisioning {
    type V = ProvisioningView;

    closed spec fn view(&self) -> ProvisioningView {
        ProvisioningView {
            request: self.request,
            setup_script: self.setup_script@,
            pid: self.pid,
            phase: self.phase,
            disks: self.disks@,
            disk_list: self.disk_list@,
            reusable: self.reusable,
            name: self.name@,
            snapshot: self.snapshot@,
            status: opt_text(self.status),
            error: self.error@,
        }
    }
}

/// An event, seen through the text of its error.
pub enum EventView {
    Finished(RunStatus, Seq<u8>),
    Failed(Seq<char>),
}

impl View for LimaEvent {
    type V = EventView;

    open spec fn view(&self) -> EventView {
        match self {
            LimaEvent::Finished(status, out) => EventView::Finished(*status, out@),
            LimaEvent::Failed(e) => EventView::Failed(e@),
        }
    }
}

/// A command: its program, arguments and added environment variables.
pub type CommandView = (Seq<char>, Seq<Seq<u8>>, Seq<(Seq<char>, Seq<char>)>);

/// The view of a command.
pub open spec fn command_view(c: CommandLine) -> CommandView {
    (c.program@, command_args(c), command_envs(c))
}

/// A `limactl` command with the given arguments and no added environment.
pub open spec fn lima_command(args: Seq<Seq<char>>) -> CommandView {
    ("limactl"@, utf8_args(args), Seq::empty())
}

/// A provisioned machine: its name, whether it is reusable, and the host
/// environment variables its scripts receive.
pub type MachineView = (Seq<char>, bool, Seq<Seq<char>>);

/// The work of a step.
pub enum WorkView {
    Run(CommandView),
    Capture(CommandView),
    RunScript(CommandView, Seq<char>),
    Done(Result<MachineView, Seq<char>>),
}

/// A step: what it prints on standard output and standard error, and its work.
pub struct StepView {
    pub stdout: Seq<Seq<char>>,
    pub stderr: Seq<Seq<char>>,
    pub work: WorkView,
}

/// The text of each string.
pub open spec fn texts(v: Seq<String>) -> Seq<Seq<char>> {
    v.map_values(|s: String| s@)
}

impl View for LimaStep {
    type V = StepView;

    open spec fn view(&self) -> StepView {
        StepView {
            stdout: texts(self.stdout@),
            stderr: texts(self.stderr@),
            work: work_view(self.work),
        }
    }
}

/// The view of a provisioned machine, or of the error that ended the
/// acquisition.
pub open spec fn machine_result(r: Result<LimaMachine, String>) -> Result<MachineView, Seq<char>> {
    match r {
        Ok(m) => Ok((m.name@, m.reusable, str_texts(m.forward_env@))),
        Err(e) => Err(e@),
    }
}

/// The view of the work of a step.
pub open spec fn work_view(w: LimaWork) -> WorkView {
    match w {
        LimaWork::Run(c) => WorkView::Run(command_view(c)),
        LimaWork::Capture(c) => WorkView::Capture(command_view(c)),
        LimaWork::RunScript(c, script) => WorkView::RunScript(command_view(c), script@),
        LimaWork::Done(r) => WorkView::Done(machine_result(r)),
    }
}

/// The outcome of a command run for its exit status only.
pub open spec fn run_outcome(e: EventView, description: Seq<char>) -> Result<(), Seq<char>> {
    match e {
        EventView::Finished(status, _) => checked_outcome(description, status),
        EventView::Failed(err) => Err("failed to execute "@ + description + ": "@ + err),
    }
}

/// The outcome of a command run for its output: the output, or an error
/// that starts with `what` and adds the error text when it could not run.
pub open spec fn capture_outcome(e: EventView, what: Seq<char>) -> Result<Seq<u8>, Seq<char>> {
    match e {
        EventView::Finished(status, out) => if status.code == Some(0i32) {
            Ok(out)
        } else {
            Err(what)
        },
        EventView::Failed(err) => Err(what + ": "@ + err),
    }
}

/// The outcome of the setup script.
pub open spec fn setup_outcome(e: EventView) -> Result<(), Seq<char>> {
    match e {
        EventView::Finished(status, _) => if status.code == Some(0i32) {
            Ok(())
        } else {
            Err("VM setup failed with exit code "@ + exit_code_text(status))
        },
        EventView::Failed(err) => Err(err),
    }
}

/// The acquisition ends with `result`.
pub open spec fn end_with(
    s: ProvisioningView,
    out: Seq<Seq<char>>,
    err: Seq<Seq<char>>,
    result: Result<MachineView, Seq<char>>,
) -> (ProvisioningView, StepView) {
    (
        ProvisioningView { phase: LimaPhase::Finished, ..s },
        StepView { stdout: out, stderr: err, work: WorkView::Done(result) },
    )
}

/// The acquisition ends with the machine it prepared.
pub open spec fn end_ready(s: ProvisioningView, out: Seq<Seq<char>>, err: Seq<Seq<char>>) -> (
    ProvisioningView,
    StepView,
) {
    end_with(s, out, err, Ok((s.name, s.reusable, str_texts(s.request.forward_env@))))
}

/// The acquisition waits in `phase` for a command run for its status.
pub open spec fn await_run(
    s: ProvisioningView,
    phase: LimaPhase,
    out: Seq<Seq<char>>,
    err: Seq<Seq<char>>,
    args: Seq<Seq<char>>,
) -> (ProvisioningView, StepView) {
    (
        ProvisioningView { phase, ..s },
        StepView { stdout: out, stderr: err, work: WorkView::Run(lima_command(args)) },
    )
}

/// The acquisition waits in `phase` for a command run for its output.
pub open spec fn await_capture(
    s: ProvisioningView,
    phase: LimaPhase,
    out: Seq<Seq<char>>,
    err: Seq<Seq<char>>,
    args: Seq<Seq<char>>,
) -> (ProvisioningView, StepView) {
    (
        ProvisioningView { phase, ..s },
        StepView { stdout: out, stderr: err, work: WorkView::Capture(lima_command(args)) },
    )
}

/// The arguments that list the instances with their status.
pub open spec fn list_args() -> Seq<Seq<char>> {
    seq!["list"@, "--format"@, "{{.Name}}\t{{.Status}}"@]
}

/// The arguments that stop an instance.
pub open spec fn stop_args(name: Seq<char>) -> Seq<Seq<char>> {
    seq!["--tty=false"@, "stop"@, name]
}

/// The arguments that delete an instance.
pub open spec fn delete_args(name: Seq<char>) -> Seq<Seq<char>> {
    seq!["--tty=false"@, "delete"@, "--force"@, name]
}

/// The arguments that start an existing instance.
pub open spec fn restart_args(name: Seq<char>) -> Seq<Seq<char>> {
    seq!["--tty=false"@, "start"@, name]
}

/// The error that names the instance being inspected.
pub open spec fn inspect_error(name: Seq<char>) -> Seq<char> {
    "failed to inspect Lima instance "@ + name
}

/// The stale-instance deletion, when there is an instance, or the creation
/// of a new one.
pub open spec fn replace_instance(s: ProvisioningView, out: Seq<Seq<char>>, err: Seq<Seq<char>>) -> (
    ProvisioningView,
    StepView,
) {
    if s.status is Some {
        await_run(
            s,
            LimaPhase::DeletingStale,
            out.push("==> Rebuilding Lima instance "@ + s.name),
            err,
            delete_args(s.name),
        )
    } else {
        create_instance(s, out, err)
    }
}

/// Creating a new instance with the attached disks.
pub open spec fn create_instance(s: ProvisioningView, out: Seq<Seq<char>>, err: Seq<Seq<char>>) -> (
    ProvisioningView,
    StepView,
) {
    let out2 = out.push("==> Creating Lima instance "@ + s.name);
    let backend = if s.reusable {
        Backend::Qemu
    } else {
        Backend::Default
    };
    match start_instance_args(s.name, s.request, s.disks, backend) {
        Err(m) => fresh_failure(s, out2, err, m),
        Ok(args) => (
            ProvisioningView { phase: LimaPhase::Creating, ..s },
            StepView {
                stdout: out2,
                stderr: err,
                work: WorkView::Run(("limactl"@, args, Seq::empty())),
            },
        ),
    }
}

/// A failure while preparing a new instance: the instance is kept when the
/// request asks for that, and otherwise removed if it exists.
pub open spec fn fresh_failure(
    s: ProvisioningView,
    out: Seq<Seq<char>>,
    err: Seq<Seq<char>>,
    m: Seq<char>,
) -> (ProvisioningView, StepView) {
    if s.request.keep_on_failure {
        end_with(
            s,
            out,
            err.push("VM kept for inspection after provisioning failure: "@ + s.name),
            Err(m),
        )
    } else {
        await_capture(
            ProvisioningView { error: m, ..s },
            LimaPhase::DeleteCleanupInspecting,
            out,
            err.push("==> Removing incomplete Lima instance "@ + s.name),
            list_args(),
        )
    }
}

/// A failure while restoring a snapshot: the instance is kept when the
/// request asks for that, and otherwise stopped if it runs.
pub open spec fn restore_failure(
    s: ProvisioningView,
    out: Seq<Seq<char>>,
    err: Seq<Seq<char>>,
    m: Seq<char>,
) -> (ProvisioningView, StepView) {
    if s.request.keep_on_failure {
        end_with(
            s,
            out,
            err.push("VM kept for inspection after provisioning failure: "@ + s.name),
            Err(m),
        )
    } else {
        await_capture(
            ProvisioningView { error: m, ..s },
            LimaPhase::StopCleanupInspecting,
            out,
            err.push("==> Stopping Lima instance "@ + s.name + " after failed snapshot restore"@),
            list_args(),
        )
    }
}

/// The error a failed preparation reports once its cleanup ran: the
/// original error, with the cleanup's error when it failed too.
pub open spec fn cleanup_error(error: Seq<char>, cleanup: Result<(), Seq<char>>) -> Seq<char> {
    match cleanup {
        Ok(()) => error,
        Err(ce) => error + "; cleanup also failed: "@ + ce,
    }
}

/// The end of a failed acquisition whose cleanup ran.
pub open spec fn after_cleanup(s: ProvisioningView, cleanup: Result<(), Seq<char>>) -> (
    ProvisioningView,
    StepView,
) {
    end_with(s, Seq::empty(), Seq::empty(), Err(cleanup_error(s.error, cleanup)))
}

/// After the prepared instance is stopped: turn off disk formatting when a
/// disk was new, then snapshot.
pub open spec fn after_prep_stop(s: ProvisioningView) -> (ProvisioningView, StepView) {
    if exists|i: int| 0 <= i < s.disks.len() && (#[trigger] s.disks[i]).format {
        await_run(
            s,
            LimaPhase::DisablingFormat,
            Seq::empty(),
            Seq::empty(),
            seq![
                "--tty=false"@,
                "edit"@,
                s.name,
                "--set"@,
                ".additionalDisks[].format = false"@,
            ],
        )
    } else {
        take_snapshot(s)
    }
}

/// Creating the snapshot of a prepared instance.
pub open spec fn take_snapshot(s: ProvisioningView) -> (ProvisioningView, StepView) {
    await_run(
        s,
        LimaPhase::Snapshotting,
        seq!["==> Creating Lima snapshot "@ + s.snapshot],
        Seq::empty(),
        seq!["--tty=false"@, "snapshot"@, "create"@, s.name, "--tag"@, s.snapshot],
    )
}

/// Applying the snapshot to the stopped instance.
pub open spec fn apply_snapshot(s: ProvisioningView) -> (ProvisioningView, StepView) {
    await_run(
        s,
        LimaPhase::RestoreApplying,
        seq!["==> Restoring Lima snapshot "@ + s.snapshot],
        Seq::empty(),
        seq!["--tty=false"@, "snapshot"@, "apply"@, s.name, "--tag"@, s.snapshot],
    )
}

/// Choosing the backend once it is known whether QEMU is available, and
/// inspecting the instance of that name.
pub open spec fn choose_backend(
    s: ProvisioningView,
    out: Seq<Seq<char>>,
    err: Seq<Seq<char>>,
    qemu: bool,
) -> (ProvisioningView, StepView) {
    let enabled = reuse_enabled(s.request.reuse);
    let reusable = enabled && qemu;
    let err2 = if enabled && !qemu {
        err.push("warning: QEMU is not available; using Lima's default backend without snapshots"@)
    } else {
        err
    };
    let backend = if reusable {
        Backend::Qemu
    } else {
        Backend::Default
    };
    await_capture(
        ProvisioningView {
            reusable,
            name: instance_name_text(s.request, backend, !reusable, s.pid),
            snapshot: snapshot_tag_text(s.request, s.setup_script),
            ..s
        },
        LimaPhase::Inspecting,
        out,
        err2,
        list_args(),
    )
}

/// After the disks: look for QEMU when the machine may be reused.
pub open spec fn after_disks(s: ProvisioningView, out: Seq<Seq<char>>, err: Seq<Seq<char>>) -> (
    ProvisioningView,
    StepView,
) {
    if reuse_enabled(s.request.reuse) {
        await_capture(s, LimaPhase::ListingDrivers, out, err, seq!["start"@, "--list-drivers"@])
    } else {
        choose_backend(s, out, err, false)
    }
}

/// A disk of the request, attached with or without formatting.
pub open spec fn attach(d: PersistentDisk, format: bool) -> AttachedDisk {
    AttachedDisk { request: d, format }
}

/// Attaching the remaining disks of the request in order: listed disks are
/// attached as they are, the first unlisted one is created.
pub open spec fn attach_disks(s: ProvisioningView, out: Seq<Seq<char>>, err: Seq<Seq<char>>) -> (
    ProvisioningView,
    StepView,
)
    decreases s.request.persistent_disks@.len() - s.disks.len(),
{
    let wanted = s.request.persistent_disks@;
    if s.disks.len() >= wanted.len() {
        after_disks(s, out, err)
    } else {
        let d = wanted[s.disks.len() as int];
        if !valid_disk_name(d.name@) {
            end_with(s, out, err, Err("invalid Lima disk name: "@ + d.name@))
        } else if disk_listed(s.disk_list, d.name@) {
            attach_disks(ProvisioningView { disks: s.disks.push(attach(d, false)), ..s }, out, err)
        } else {
            await_run(
                s,
                LimaPhase::CreatingDisk,
                out.push("==> Creating Lima disk "@ + d.name@ + " ("@ + d.size@ + ")"@),
                err,
                seq!["--tty=false"@, "disk"@, "create"@, d.name@, "--size"@, d.size@],
            )
        }
    }
}

/// The status a `limactl list` output gives for the instance.
pub open spec fn listed_status(s: ProvisioningView, out: Seq<u8>) -> Option<Seq<char>> {
    status_in_lines(output_lines(out), s.name)
}

/// The first step of acquiring a machine: check that Lima is installed.
pub open spec fn provisioning_start(request: MachineRequest, setup_script: Seq<char>, pid: u32) -> (
    ProvisioningView,
    StepView,
) {
    await_run(
        ProvisioningView {
            request,
            setup_script,
            pid,
            phase: LimaPhase::CheckingLima,
            disks: Seq::empty(),
            disk_list: Seq::empty(),
            reusable: false,
            name: Seq::empty(),
            snapshot: Seq::empty(),
            status: None,
            error: Seq::empty(),
        },
        LimaPhase::CheckingLima,
        Seq::empty(),
        Seq::empty(),
        seq!["--version"@],
    )
}

/// What follows an event in each phase of an acquisition.
pub open spec fn provisioning_step(s: ProvisioningView, e: EventView) -> (ProvisioningView, StepView) {
    let none = Seq::<Seq<char>>::empty();
    match s.phase {
        LimaPhase::CheckingLima => match run_outcome(e, "check the Lima installation"@) {
            Err(m) => end_with(s, none, none, Err(m)),
            Ok(()) => if s.request.persistent_disks@.len() == 0 {
                after_disks(s, none, none)
            } else {
                await_capture(
                    s,
                    LimaPhase::ListingDisks,
                    none,
                    none,
                    seq!["--tty=false"@, "disk"@, "list"@, "--json"@],
                )
            },
        },
        LimaPhase::ListingDisks => match capture_outcome(e, "failed to list Lima disks"@) {
            Err(m) => end_with(s, none, none, Err(m)),
            Ok(out) => attach_disks(ProvisioningView { disk_list: out, ..s }, none, none),
        },
        LimaPhase::CreatingDisk => match run_outcome(e, "create the Lima development cache disk"@) {
            Err(m) => end_with(s, none, none, Err(m)),
            Ok(()) => if s.disks.len() < s.request.persistent_disks@.len() {
                attach_disks(
                    ProvisioningView {
                        disks: s.disks.push(
                            attach(s.request.persistent_disks@[s.disks.len() as int], true),
                        ),
                        ..s
                    },
                    none,
                    none,
                )
            } else {
                after_disks(s, none, none)
            },
        },
        LimaPhase::ListingDrivers => match capture_outcome(e, "failed to list Lima VM drivers"@) {
            Err(m) => end_with(s, none, none, Err(m)),
            Ok(out) => choose_backend(s, none, none, has_trimmed_line(out, "qemu"@)),
        },
        LimaPhase::Inspecting => match capture_outcome(e, inspect_error(s.name)) {
            Err(m) => end_with(s, none, none, Err(m)),
            Ok(out) => {
                let status = listed_status(s, out);
                let s2 = ProvisioningView { status, ..s };
                if s.reusable && !reuse_rebuild(s.request.reuse) && (status == Some("Running"@)
                    || status == Some("Stopped"@)) {
                    await_capture(
                        s2,
                        LimaPhase::ListingSnapshots,
                        none,
                        none,
                        seq!["snapshot"@, "list"@, s.name, "--quiet"@],
                    )
                } else {
                    replace_instance(s2, none, none)
                }
            },
        },
        LimaPhase::ListingSnapshots => match capture_outcome(
            e,
            "failed to list Lima snapshots for "@ + s.name,
        ) {
            Err(m) => end_with(s, none, none, Err(m)),
            Ok(out) => if has_trimmed_line(out, s.snapshot) {
                await_capture(s, LimaPhase::RestoreInspecting, none, none, list_args())
            } else {
                replace_instance(s, none, none)
            },
        },
        LimaPhase::RestoreInspecting => match capture_outcome(e, inspect_error(s.name)) {
            Err(m) => restore_failure(s, none, none, m),
            Ok(out) => if listed_status(s, out) == Some("Running"@) {
                await_run(s, LimaPhase::RestoreStopping, none, none, stop_args(s.name))
            } else {
                apply_snapshot(s)
            },
        },
        LimaPhase::RestoreStopping => match run_outcome(e, "stop the Lima test instance"@) {
            Err(m) => restore_failure(s, none, none, m),
            Ok(()) => apply_snapshot(s),
        },
        LimaPhase::RestoreApplying => match run_outcome(e, "restore the Lima test snapshot"@) {
            Err(m) => restore_failure(s, none, none, m),
            Ok(()) => await_run(s, LimaPhase::RestoreStarting, none, none, restart_args(s.name)),
        },
        LimaPhase::RestoreStarting => match run_outcome(
            e,
            "start the prepared Lima test instance"@,
        ) {
            Err(m) => restore_failure(s, none, none, m),
            Ok(()) => end_ready(s, none, none),
        },
        LimaPhase::DeletingStale => match run_outcome(e, "delete the stale Lima test instance"@) {
            Err(m) => end_with(s, none, none, Err(m)),
            Ok(()) => create_instance(s, none, none),
        },
        LimaPhase::Creating => match run_outcome(e, "create the Lima test instance"@) {
            Err(m) => fresh_failure(s, none, none, m),
            Ok(()) => (
                ProvisioningView { phase: LimaPhase::SettingUp, ..s },
                StepView {
                    stdout: none,
                    stderr: none,
                    work: WorkView::RunScript(
                        guest_shell_view(s.name, str_texts(s.request.forward_env@)),
                        s.setup_script,
                    ),
                },
            ),
        },
        LimaPhase::SettingUp => match setup_outcome(e) {
            Err(m) => fresh_failure(s, none, none, m),
            Ok(()) => if !s.reusable {
                end_ready(s, none, none)
            } else {
                await_capture(s, LimaPhase::PrepInspecting, none, none, list_args())
            },
        },
        LimaPhase::PrepInspecting => match capture_outcome(e, inspect_error(s.name)) {
            Err(m) => fresh_failure(s, none, none, m),
            Ok(out) => if listed_status(s, out) == Some("Running"@) {
                await_run(s, LimaPhase::PrepStopping, none, none, stop_args(s.name))
            } else {
                after_prep_stop(s)
            },
        },
        LimaPhase::PrepStopping => match run_outcome(e, "stop the Lima test instance"@) {
            Err(m) => fresh_failure(s, none, none, m),
            Ok(()) => after_prep_stop(s),
        },
        LimaPhase::DisablingFormat => match run_outcome(
            e,
            "disable repeated Lima development cache disk formatting"@,
        ) {
            Err(m) => fresh_failure(s, none, none, m),
            Ok(()) => take_snapshot(s),
        },
        LimaPhase::Snapshotting => match run_outcome(e, "create the Lima test snapshot"@) {
            Err(m) => fresh_failure(s, none, none, m),
            Ok(()) => await_run(s, LimaPhase::PrepStarting, none, none, restart_args(s.name)),
        },
        LimaPhase::PrepStarting => match run_outcome(e, "start the prepared Lima test instance"@) {
            Err(m) => fresh_failure(s, none, none, m),
            Ok(()) => end_ready(s, none, none),
        },
        LimaPhase::StopCleanupInspecting => match capture_outcome(e, inspect_error(s.name)) {
            Err(ce) => after_cleanup(s, Err(ce)),
            Ok(out) => if listed_status(s, out) == Some("Running"@) {
                await_run(s, LimaPhase::StopCleanupStopping, none, none, stop_args(s.name))
            } else {
                after_cleanup(s, Ok(()))
            },
        },
        LimaPhase::StopCleanupStopping => after_cleanup(
            s,
            run_outcome(e, "stop the Lima test instance"@),
        ),
        LimaPhase::DeleteCleanupInspecting => match capture_outcome(e, inspect_error(s.name)) {
            Err(ce) => after_cleanup(s, Err(ce)),
            Ok(out) => if listed_status(s, out) is None {
                after_cleanup(s, Ok(()))
            } else {
                await_run(s, LimaPhase::DeleteCleanupDeleting, none, none, delete_args(s.name))
            },
        },
        LimaPhase::DeleteCleanupDeleting => after_cleanup(
            s,
            run_outcome(e, "delete the incomplete Lima test instance"@),
        ),
        LimaPhase::Finished => end_with(
            s,
            none,
            none,
            Err("the Lima machine acquisition has already finished"@),
        ),
    }
}

/// The command that runs a script on the instance, passing on the named
/// host environment variables.
pub open spec fn guest_shell_view(name: Seq<char>, forward_env: Seq<Seq<char>>) -> CommandView {
    (
        "limactl"@,
        utf8_args(
            seq!["--tty=false"@, "shell"@] + if forward_env.len() > 0 {
                seq!["--preserve-env"@]
            } else {
                Seq::empty()
            } + seq![name, "bash"@, "-s"@],
        ),
        if forward_env.len() > 0 {
            seq![
                ("LIMA_SHELLENV_BLOCK"@, "*"@),
                ("LIMA_SHELLENV_ALLOW"@, join_texts(forward_env, ","@)),
            ]
        } else {
            Seq::empty()
        },
    )
}

/// The bytes of a result's output and the text of its error.
pub open spec fn bytes_result(r: Result<Vec<u8>, String>) -> Result<Seq<u8>, Seq<char>> {
    match r {
        Ok(v) => Ok(v@),
        Err(e) => Err(e@),
    }
}

/// The outcome of a command run for its exit status only.
pub fn run_result(event: &LimaEvent, description: &str) -> (r: Result<(), String>)
    ensures
        crate::tasks::text_result(r) == run_outcome(event@, description@),
{
    match event {
        LimaEvent::Finished(status, _) => check_status(description, *status),
        LimaEvent::Failed(err) => Err(spawn_failure(description, err.as_str())),
    }
}

/// The outcome of a command run for its output.
pub fn capture_result(event: LimaEvent, what: String) -> (r: Result<Vec<u8>, String>)
    ensures
        bytes_result(r) == capture_outcome(event@, what@),
{
    match event {
        LimaEvent::Finished(status, out) => if status.success() {
            Ok(out)
        } else {
            Err(what)
        },
        LimaEvent::Failed(err) => Err(concat3(what.as_str(), ": ", err.as_str())),
    }
}

/// The outcome of the setup script.
fn setup_result(event: LimaEvent) -> (r: Result<(), String>)
    ensures
        crate::tasks::text_result(r) == setup_outcome(event@),
{
    match event {
        LimaEvent::Finished(status, _) => if status.success() {
            Ok(())
        } else {
            let code = display_exit_code(status);
            Err(concat2("VM setup failed with exit code ", code.as_str()))
        },
        LimaEvent::Failed(err) => Err(err),
    }
}

fn list_command() -> (c: CommandLine)
    ensures
        command_view(c) == lima_command(list_args()),
{
    let c = limactl(&["list", "--format", "{{.Name}}\t{{.Status}}"]);
    assert(str_texts(seq!["list", "--format", "{{.Name}}\t{{.Status}}"]) =~= list_args());
    c
}

fn stop_command(name: &str) -> (c: CommandLine)
    ensures
        command_view(c) == lima_command(stop_args(name@)),
{
    let c = limactl(&["--tty=false", "stop", name]);
    assert(str_texts(seq!["--tty=false", "stop", name]) =~= stop_args(name@));
    c
}

fn delete_command(name: &str) -> (c: CommandLine)
    ensures
        command_view(c) == lima_command(delete_args(name@)),
{
    let c = limactl(&["--tty=false", "delete", "--force", name]);
    assert(str_texts(seq!["--tty=false", "delete", "--force", name]) =~= delete_args(name@));
    c
}

fn restart_command(name: &str) -> (c: CommandLine)
    ensures
        command_view(c) == lima_command(restart_args(name@)),
{
    let c = limactl(&["--tty=false", "start", name]);
    assert(str_texts(seq!["--tty=false", "start", name]) =~= restart_args(name@));
    c
}

fn disable_format_command(name: &str) -> (c: CommandLine)
    ensures
        command_view(c) == lima_command(
            seq!["--tty=false"@, "edit"@, name@, "--set"@, ".additionalDisks[].format = false"@],
        ),
{
    let c = limactl(&["--tty=false", "edit", name, "--set", ".additionalDisks[].format = false"]);
    assert(str_texts(seq!["--tty=false", "edit", name, "--set", ".additionalDisks[].format = false"])
        =~= seq!["--tty=false"@, "edit"@, name@, "--set"@, ".additionalDisks[].format = false"@]);
    c
}

fn snapshot_command(verb: &str, name: &str, tag: &str) -> (c: CommandLine)
    ensures
        command_view(c) == lima_command(
            seq!["--tty=false"@, "snapshot"@, verb@, name@, "--tag"@, tag@],
        ),
{
    let c = limactl(&["--tty=false", "snapshot", verb, name, "--tag", tag]);
    assert(str_texts(seq!["--tty=false", "snapshot", verb, name, "--tag", tag]) =~= seq![
        "--tty=false"@,
        "snapshot"@,
        verb@,
        name@,
        "--tag"@,
        tag@,
    ]);
    c
}

fn disk_create_command(name: &str, size: &str) -> (c: CommandLine)
    ensures
        command_view(c) == lima_command(
            seq!["--tty=false"@, "disk"@, "create"@, name@, "--size"@, size@],
        ),
{
    let c = limactl(&["--tty=false", "disk", "create", name, "--size", size]);
    assert(str_texts(seq!["--tty=false", "disk", "create", name, "--size", size]) =~= seq![
        "--tty=false"@,
        "disk"@,
        "create"@,
        name@,
        "--size"@,
        size@,
    ]);
    c
}

/// A copy of the names of the forwarded environment variables.
fn copy_names(names: &Vec<&'static str>) -> (v: Vec<&'static str>)
    ensures
        v@ == names@,
{
    let mut v: Vec<&'static str> = Vec::new();
    for i in 0..names.len()
        invariant
            v@ == names@.take(i as int),
    {
        v.push(names[i]);
        assert(names@.take(i + 1) == names@.take(i as int).push(names@[i as int]));
    }
    assert(names@.take(names@.len() as int) == names@);
    v
}

impl LimaProvisioning {
    fn end_with(self, out: Vec<String>, err: Vec<String>, result: Result<LimaMachine, String>) -> (r: (
        LimaProvisioning,
        LimaStep,
    ))
        ensures
            r.0@ == (ProvisioningView { phase: LimaPhase::Finished, ..self@ }),
            r.1@ == (StepView {
                stdout: texts(out@),
                stderr: texts(err@),
                work: WorkView::Done(machine_result(result)),
            }),
    {
        let mut st = self;
        st.phase = LimaPhase::Finished;
        (st, LimaStep { stdout: out, stderr: err, work: LimaWork::Done(result) })
    }

    fn fail(self, out: Vec<String>, err: Vec<String>, m: String) -> (r: (LimaProvisioning, LimaStep))
        ensures
            (r.0@, r.1@) == end_with(self@, texts(out@), texts(err@), Err(m@)),
    {
        self.end_with(out, err, Err(m))
    }

    fn ready(self, out: Vec<String>, err: Vec<String>) -> (r: (LimaProvisioning, LimaStep))
        ensures
            (r.0@, r.1@) == end_ready(self@, texts(out@), texts(err@)),
    {
        let machine = LimaMachine {
            name: self.name.clone(),
            reusable: self.reusable,
            forward_env: copy_names(&self.request.forward_env),
        };
        self.end_with(out, err, Ok(machine))
    }

    fn wait_run(self, phase: LimaPhase, out: Vec<String>, err: Vec<String>, c: CommandLine) -> (r: (
        LimaProvisioning,
        LimaStep,
    ))
        ensures
            r.0@ == (ProvisioningView { phase, ..self@ }),
            r.1@ == (StepView {
                stdout: texts(out@),
                stderr: texts(err@),
                work: WorkView::Run(command_view(c)),
            }),
    {
        let mut st = self;
        st.phase = phase;
        (st, LimaStep { stdout: out, stderr: err, work: LimaWork::Run(c) })
    }

    fn wait_capture(self, phase: LimaPhase, out: Vec<String>, err: Vec<String>, c: CommandLine) -> (r: (
        LimaProvisioning,
        LimaStep,
    ))
        ensures
            r.0@ == (ProvisioningView { phase, ..self@ }),
            r.1@ == (StepView {
                stdout: texts(out@),
                stderr: texts(err@),
                work: WorkView::Capture(command_view(c)),
            }),
    {
        let mut st = self;
        st.phase = phase;
        (st, LimaStep { stdout: out, stderr: err, work: LimaWork::Capture(c) })
    }
}

/// No lines to print.
fn no_lines() -> (v: Vec<String>)
    ensures
        texts(v@) == Seq::<Seq<char>>::empty(),
{
    let v: Vec<String> = Vec::new();
    assert(texts(v@) =~= Seq::<Seq<char>>::empty());
    v
}

/// The lines with one more at the end.
fn with_line(v: Vec<String>, line: String) -> (r: Vec<String>)
    ensures
        texts(r@) == texts(v@).push(line@),
{
    let mut r = v;
    let ghost before = texts(r@);
    r.push(line);
    assert(texts(r@) =~= before.push(line@));
    r
}

impl LimaProvisioning {
    fn replace_instance(self, out: Vec<String>, err: Vec<String>) -> (r: (LimaProvisioning, LimaStep))
        ensures
            (r.0@, r.1@) == replace_instance(self@, texts(out@), texts(err@)),
    {
        if self.status.is_some() {
            let line = concat2("==> Rebuilding Lima instance ", self.name.as_str());
            let c = delete_command(self.name.as_str());
            self.wait_run(LimaPhase::DeletingStale, with_line(out, line), err, c)
        } else {
            self.create_instance(out, err)
        }
    }

    fn create_instance(self, out: Vec<String>, err: Vec<String>) -> (r: (LimaProvisioning, LimaStep))
        ensures
            (r.0@, r.1@) == create_instance(self@, texts(out@), texts(err@)),
    {
        let out = with_line(out, concat2("==> Creating Lima instance ", self.name.as_str()));
        let backend = if self.reusable {
            Backend::Qemu
        } else {
            Backend::Default
        };
        match start_instance_command(
            self.name.as_str(),
            &self.request,
            self.disks.as_slice(),
            backend,
        ) {
            Err(m) => self.fresh_failure(out, err, m),
            Ok(c) => self.wait_run(LimaPhase::Creating, out, err, c),
        }
    }

    fn fresh_failure(self, out: Vec<String>, err: Vec<String>, m: String) -> (r: (
        LimaProvisioning,
        LimaStep,
    ))
        ensures
            (r.0@, r.1@) == fresh_failure(self@, texts(out@), texts(err@), m@),
    {
        if self.request.keep_on_failure {
            let line = concat2(
                "VM kept for inspection after provisioning failure: ",
                self.name.as_str(),
            );
            self.fail(out, with_line(err, line), m)
        } else {
            let line = concat2("==> Removing incomplete Lima instance ", self.name.as_str());
            let mut st = self;
            st.error = m;
            st.wait_capture(LimaPhase::DeleteCleanupInspecting, out, with_line(err, line), list_command())
        }
    }

    fn restore_failure(self, out: Vec<String>, err: Vec<String>, m: String) -> (r: (
        LimaProvisioning,
        LimaStep,
    ))
        ensures
            (r.0@, r.1@) == restore_failure(self@, texts(out@), texts(err@), m@),
    {
        if self.request.keep_on_failure {
            let line = concat2(
                "VM kept for inspection after provisioning failure: ",
                self.name.as_str(),
            );
            self.fail(out, with_line(err, line), m)
        } else {
            let line = concat3(
                "==> Stopping Lima instance ",
                self.name.as_str(),
                " after failed snapshot restore",
            );
            let mut st = self;
            st.error = m;
            st.wait_capture(LimaPhase::StopCleanupInspecting, out, with_line(err, line), list_command())
        }
    }

    fn after_cleanup(self, cleanup: Result<(), String>) -> (r: (LimaProvisioning, LimaStep))
        ensures
            (r.0@, r.1@) == after_cleanup(self@, crate::tasks::text_result(cleanup)),
    {
        let e = with_cleanup(self.error.clone(), cleanup);
        self.fail(no_lines(), no_lines(), e)
    }

    fn after_prep_stop(self) -> (r: (LimaProvisioning, LimaStep))
        ensures
            (r.0@, r.1@) == after_prep_stop(self@),
    {
        let mut any_new = false;
        for i in 0..self.disks.len()
            invariant
                any_new == exists|j: int| 0 <= j < i && (#[trigger] self.disks@[j]).format,
        {
            if self.disks[i].format {
                any_new = true;
            }
        }
        if any_new {
            let c = disable_format_command(self.name.as_str());
            self.wait_run(LimaPhase::DisablingFormat, no_lines(), no_lines(), c)
        } else {
            self.take_snapshot()
        }
    }

    fn take_snapshot(self) -> (r: (LimaProvisioning, LimaStep))
        ensures
            (r.0@, r.1@) == take_snapshot(self@),
    {
        let out = with_line(no_lines(), concat2("==> Creating Lima snapshot ", self.snapshot.as_str()));
        let c = snapshot_command("create", self.name.as_str(), self.snapshot.as_str());
        self.wait_run(LimaPhase::Snapshotting, out, no_lines(), c)
    }

    fn apply_snapshot(self) -> (r: (LimaProvisioning, LimaStep))
        ensures
            (r.0@, r.1@) == apply_snapshot(self@),
    {
        let out = with_line(no_lines(), concat2("==> Restoring Lima snapshot ", self.snapshot.as_str()));
        let c = snapshot_command("apply", self.name.as_str(), self.snapshot.as_str());
        self.wait_run(LimaPhase::RestoreApplying, out, no_lines(), c)
    }

    fn choose_backend(self, out: Vec<String>, err: Vec<String>, qemu: bool) -> (r: (
        LimaProvisioning,
        LimaStep,
    ))
        ensures
            (r.0@, r.1@) == choose_backend(self@, texts(out@), texts(err@), qemu),
    {
        let enabled = self.request.reuse.enabled();
        let reusable = enabled && qemu;
        let err = if enabled && !qemu {
            with_line(
                err,
                String::from_str(
                    "warning: QEMU is not available; using Lima's default backend without snapshots",
                ),
            )
        } else {
            err
        };
        let backend = if reusable {
            Backend::Qemu
        } else {
            Backend::Default
        };
        let name = instance_name(&self.request, backend, !reusable, self.pid);
        let snapshot = snapshot_tag(&self.request, self.setup_script.as_str());
        let mut st = self;
        st.reusable = reusable;
        st.name = name;
        st.snapshot = snapshot;
        st.wait_capture(LimaPhase::Inspecting, out, err, list_command())
    }

    fn after_disks(self, out: Vec<String>, err: Vec<String>) -> (r: (LimaProvisioning, LimaStep))
        ensures
            (r.0@, r.1@) == after_disks(self@, texts(out@), texts(err@)),
    {
        if self.request.reuse.enabled() {
            let c = limactl(&["start", "--list-drivers"]);
            assert(str_texts(seq!["start", "--list-drivers"]) =~= seq![
                "start"@,
                "--list-drivers"@,
            ]);
            self.wait_capture(LimaPhase::ListingDrivers, out, err, c)
        } else {
            self.choose_backend(out, err, false)
        }
    }

    fn attach_disks(self, out: Vec<String>, err: Vec<String>) -> (r: (LimaProvisioning, LimaStep))
        ensures
            (r.0@, r.1@) == attach_disks(self@, texts(out@), texts(err@)),
        decreases self.request.persistent_disks@.len() - self.disks@.len(),
    {
        let i = self.disks.len();
        if i >= self.request.persistent_disks.len() {
            return self.after_disks(out, err);
        }
        let d = self.request.persistent_disks[i].duplicate();
        match validate_disk_name(d.name.as_str()) {
            Ok(()) => {},
            Err(m) => return self.fail(out, err, m),
        }
        if disk_list_contains(self.disk_list.as_slice(), d.name.as_str()) {
            let mut st = self;
            st.disks.push(AttachedDisk { request: d, format: false });
            st.attach_disks(out, err)
        } else {
            let mut line = concat3("==> Creating Lima disk ", d.name.as_str(), " (");
            line.append(d.size.as_str());
            line.append(")");
            let c = disk_create_command(d.name.as_str(), d.size.as_str());
            self.wait_run(LimaPhase::CreatingDisk, with_line(out, line), err, c)
        }
    }
}

impl LimaProvisioning {
    /// Starts acquiring a Lima machine for `request`, prepared by
    /// `setup_script`; `pid` is the id of the running process, which keys an
    /// ephemeral machine's name. The first step checks that Lima is installed.
    pub fn start(request: MachineRequest, setup_script: String, pid: u32) -> (r: (
        LimaProvisioning,
        LimaStep,
    ))
        ensures
            (r.0@, r.1@) == provisioning_start(request, setup_script@, pid),
    {
        let st = LimaProvisioning {
            request,
            setup_script,
            pid,
            phase: LimaPhase::CheckingLima,
            disks: Vec::new(),
            disk_list: Vec::new(),
            reusable: false,
            name: String::new(),
            snapshot: String::new(),
            status: None,
            error: String::new(),
        };
        let c = limactl(&["--version"]);
        assert(str_texts(seq!["--version"]) =~= seq!["--version"@]);
        assert(st@.disks =~= Seq::<AttachedDisk>::empty());
        assert(st@.disk_list =~= Seq::<u8>::empty());
        assert(st@.name =~= Seq::<char>::empty());
        assert(st@.snapshot =~= Seq::<char>::empty());
        assert(st@.error =~= Seq::<char>::empty());
        assert(st@.request == request);
        assert(st@.setup_script == setup_script@);
        assert(command_view(c) == lima_command(seq!["--version"@]));
        st.wait_run(LimaPhase::CheckingLima, no_lines(), no_lines(), c)
    }

    /// Takes what the last command did and returns the next step.
    pub fn step(self, event: LimaEvent) -> (r: (LimaProvisioning, LimaStep))
        ensures
            (r.0@, r.1@) == provisioning_step(self@, event@),
    {
        match self.phase {
            LimaPhase::CheckingLima => match run_result(&event, "check the Lima installation") {
                Err(m) => self.fail(no_lines(), no_lines(), m),
                Ok(()) => if self.request.persistent_disks.len() == 0 {
                    self.after_disks(no_lines(), no_lines())
                } else {
                    let c = limactl(&["--tty=false", "disk", "list", "--json"]);
                    assert(str_texts(seq!["--tty=false", "disk", "list", "--json"]) =~= seq![
                        "--tty=false"@,
                        "disk"@,
                        "list"@,
                        "--json"@,
                    ]);
                    self.wait_capture(LimaPhase::ListingDisks, no_lines(), no_lines(), c)
                },
            },
            LimaPhase::ListingDisks => match capture_result(
                event,
                String::from_str("failed to list Lima disks"),
            ) {
                Err(m) => self.fail(no_lines(), no_lines(), m),
                Ok(out) => {
                    let mut st = self;
                    st.disk_list = out;
                    st.attach_disks(no_lines(), no_lines())
                },
            },
            LimaPhase::CreatingDisk => match run_result(
                &event,
                "create the Lima development cache disk",
            ) {
                Err(m) => self.fail(no_lines(), no_lines(), m),
                Ok(()) => {
                    let i = self.disks.len();
                    if i < self.request.persistent_disks.len() {
                        let d = self.request.persistent_disks[i].duplicate();
                        let mut st = self;
                        st.disks.push(AttachedDisk { request: d, format: true });
                        st.attach_disks(no_lines(), no_lines())
                    } else {
                        self.after_disks(no_lines(), no_lines())
                    }
                },
            },
            LimaPhase::ListingDrivers => match capture_result(
                event,
                String::from_str("failed to list Lima VM drivers"),
            ) {
                Err(m) => self.fail(no_lines(), no_lines(), m),
                Ok(out) => {
                    let qemu = output_has_line(out.as_slice(), "qemu");
                    self.choose_backend(no_lines(), no_lines(), qemu)
                },
            },
            LimaPhase::Inspecting => {
                let what = concat2("failed to inspect Lima instance ", self.name.as_str());
                match capture_result(event, what) {
                    Err(m) => self.fail(no_lines(), no_lines(), m),
                    Ok(out) => {
                        let status = parse_instance_status(out.as_slice(), self.name.as_str());
                        let restorable = match &status {
                            Some(t) => same_status(t, "Running") || same_status(t, "Stopped"),
                            None => false,
                        };
                        let rebuild = self.request.reuse.rebuild();
                        let mut st = self;
                        st.status = status;
                        if st.reusable && !rebuild && restorable {
                            let c = snapshot_list_command(st.name.as_str());
                            st.wait_capture(LimaPhase::ListingSnapshots, no_lines(), no_lines(), c)
                        } else {
                            st.replace_instance(no_lines(), no_lines())
                        }
                    },
                }
            },
            LimaPhase::ListingSnapshots => {
                let what = concat2("failed to list Lima snapshots for ", self.name.as_str());
                match capture_result(event, what) {
                    Err(m) => self.fail(no_lines(), no_lines(), m),
                    Ok(out) => if output_has_line(out.as_slice(), self.snapshot.as_str()) {
                        self.wait_capture(
                            LimaPhase::RestoreInspecting,
                            no_lines(),
                            no_lines(),
                            list_command(),
                        )
                    } else {
                        self.replace_instance(no_lines(), no_lines())
                    },
                }
            },
            LimaPhase::RestoreInspecting => {
                let what = concat2("failed to inspect Lima instance ", self.name.as_str());
                match capture_result(event, what) {
                    Err(m) => self.restore_failure(no_lines(), no_lines(), m),
                    Ok(out) => if is_running(out.as_slice(), self.name.as_str()) {
                        let c = stop_command(self.name.as_str());
                        self.wait_run(LimaPhase::RestoreStopping, no_lines(), no_lines(), c)
                    } else {
                        self.apply_snapshot()
                    },
                }
            },
            LimaPhase::RestoreStopping => match run_result(&event, "stop the Lima test instance") {
                Err(m) => self.restore_failure(no_lines(), no_lines(), m),
                Ok(()) => self.apply_snapshot(),
            },
            LimaPhase::RestoreApplying => match run_result(&event, "restore the Lima test snapshot") {
                Err(m) => self.restore_failure(no_lines(), no_lines(), m),
                Ok(()) => {
                    let c = restart_command(self.name.as_str());
                    self.wait_run(LimaPhase::RestoreStarting, no_lines(), no_lines(), c)
                },
            },
            LimaPhase::RestoreStarting => match run_result(
                &event,
                "start the prepared Lima test instance",
            ) {
                Err(m) => self.restore_failure(no_lines(), no_lines(), m),
                Ok(()) => self.ready(no_lines(), no_lines()),
            },
            LimaPhase::DeletingStale => match run_result(
                &event,
                "delete the stale Lima test instance",
            ) {
                Err(m) => self.fail(no_lines(), no_lines(), m),
                Ok(()) => self.create_instance(no_lines(), no_lines()),
            },
            LimaPhase::Creating => match run_result(&event, "create the Lima test instance") {
                Err(m) => self.fresh_failure(no_lines(), no_lines(), m),
                Ok(()) => {
                    let c = guest_shell_command(
                        self.name.as_str(),
                        self.request.forward_env.as_slice(),
                    );
                    let script = self.setup_script.clone();
                    let mut st = self;
                    st.phase = LimaPhase::SettingUp;
                    (
                        st,
                        LimaStep {
                            stdout: no_lines(),
                            stderr: no_lines(),
                            work: LimaWork::RunScript(c, script),
                        },
                    )
                },
            },
            LimaPhase::SettingUp => match setup_result(event) {
                Err(m) => self.fresh_failure(no_lines(), no_lines(), m),
                Ok(()) => if !self.reusable {
                    self.ready(no_lines(), no_lines())
                } else {
                    self.wait_capture(LimaPhase::PrepInspecting, no_lines(), no_lines(), list_command())
                },
            },
            LimaPhase::PrepInspecting => {
                let what = concat2("failed to inspect Lima instance ", self.name.as_str());
                match capture_result(event, what) {
                    Err(m) => self.fresh_failure(no_lines(), no_lines(), m),
                    Ok(out) => if is_running(out.as_slice(), self.name.as_str()) {
                        let c = stop_command(self.name.as_str());
                        self.wait_run(LimaPhase::PrepStopping, no_lines(), no_lines(), c)
                    } else {
                        self.after_prep_stop()
                    },
                }
            },
            LimaPhase::PrepStopping => match run_result(&event, "stop the Lima test instance") {
                Err(m) => self.fresh_failure(no_lines(), no_lines(), m),
                Ok(()) => self.after_prep_stop(),
            },
            LimaPhase::DisablingFormat => match run_result(
                &event,
                "disable repeated Lima development cache disk formatting",
            ) {
                Err(m) => self.fresh_failure(no_lines(), no_lines(), m),
                Ok(()) => self.take_snapshot(),
            },
            LimaPhase::Snapshotting => match run_result(&event, "create the Lima test snapshot") {
                Err(m) => self.fresh_failure(no_lines(), no_lines(), m),
                Ok(()) => {
                    let c = restart_command(self.name.as_str());
                    self.wait_run(LimaPhase::PrepStarting, no_lines(), no_lines(), c)
                },
            },
            LimaPhase::PrepStarting => match run_result(
                &event,
                "start the prepared Lima test instance",
            ) {
                Err(m) => self.fresh_failure(no_lines(), no_lines(), m),
                Ok(()) => self.ready(no_lines(), no_lines()),
            },
            LimaPhase::StopCleanupInspecting => {
                let what = concat2("failed to inspect Lima instance ", self.name.as_str());
                match capture_result(event, what) {
                    Err(ce) => self.after_cleanup(Err(ce)),
                    Ok(out) => if is_running(out.as_slice(), self.name.as_str()) {
                        let c = stop_command(self.name.as_str());
                        self.wait_run(LimaPhase::StopCleanupStopping, no_lines(), no_lines(), c)
                    } else {
                        self.after_cleanup(Ok(()))
                    },
                }
            },
            LimaPhase::StopCleanupStopping => {
                let outcome = run_result(&event, "stop the Lima test instance");
                self.after_cleanup(outcome)
            },
            LimaPhase::DeleteCleanupInspecting => {
                let what = concat2("failed to inspect Lima instance ", self.name.as_str());
                match capture_result(event, what) {
                    Err(ce) => self.after_cleanup(Err(ce)),
                    Ok(out) => if parse_instance_status(
                        out.as_slice(),
                        self.name.as_str(),
                    ).is_none() {
                        self.after_cleanup(Ok(()))
                    } else {
                        let c = delete_command(self.name.as_str());
                        self.wait_run(LimaPhase::DeleteCleanupDeleting, no_lines(), no_lines(), c)
                    },
                }
            },
            LimaPhase::DeleteCleanupDeleting => {
                let outcome = run_result(&event, "delete the incomplete Lima test instance");
                self.after_cleanup(outcome)
            },
            LimaPhase::Finished => self.fail(
                no_lines(),
                no_lines(),
                String::from_str("the Lima machine acquisition has already finished"),
            ),
        }
    }
}

/// The error of a failed preparation, followed by the cleanup's own error
/// when the cleanup failed too.
fn with_cleanup(error: String, cleanup: Result<(), String>) -> (e: String)
    ensures
        e@ == cleanup_error(error@, crate::tasks::text_result(cleanup)),
{
    match cleanup {
        Ok(()) => error,
        Err(ce) => concat3(error.as_str(), "; cleanup also failed: ", ce.as_str()),
    }
}

/// Ends a preparation step of `instance`. A success passes through. A failure
/// is reported unchanged when the request keeps failed machines for
/// inspection, and the cleanup is not run; otherwise `cleanup` runs and the
/// failure is reported with the cleanup's error when that failed too. Beside
/// the result come the lines to print on standard error.
pub fn finish_preparation<T, F: FnOnce() -> Result<(), String>>(
    result: Result<T, String>,
    instance: &str,
    keep_on_failure: bool,
    description: &str,
    cleanup: F,
) -> (r: (Result<T, String>, Vec<String>))
    requires
        result is Err && !keep_on_failure ==> call_requires(cleanup, ()),
    ensures
        result is Ok ==> r.0 == result && texts(r.1@) == Seq::<Seq<char>>::empty(),
        result is Err && keep_on_failure ==> crate::tasks::text_result(r.0)
            == crate::tasks::text_result(result) && texts(r.1@) == seq![
            "VM kept for inspection after provisioning failure: "@ + instance@,
        ],
        result is Err && !keep_on_failure ==> exists|c: Result<(), String>|
            call_ensures(cleanup, (), c) && crate::tasks::text_result(r.0) == Err::<T, Seq<char>>(
                cleanup_error(result->Err_0@, crate::tasks::text_result(c)),
            ) && texts(r.1@) == seq!["==> "@ + description@],
{
    match result {
        Ok(value) => (Ok(value), no_lines()),
        Err(error) => if keep_on_failure {
            let line = concat2("VM kept for inspection after provisioning failure: ", instance);
            (Err(error), with_line(no_lines(), line))
        } else {
            let line = concat2("==> ", description);
            let outcome = cleanup();
            (Err(with_cleanup(error, outcome)), with_line(no_lines(), line))
        },
    }
}

/// Whether a status reads exactly `word`.
fn same_status(status: &String, word: &str) -> (b: bool)
    ensures
        b == (status@ == word@),
{
    crate::text::same_text(status.as_str(), word)
}

/// Whether `limactl list` output shows the instance running.
pub fn is_running(output: &[u8], name: &str) -> (b: bool)
    ensures
        b == (status_in_lines(output_lines(output@), name@) == Some("Running"@)),
{
    match parse_instance_status(output, name) {
        Some(t) => same_status(&t, "Running"),
        None => false,
    }
}

fn snapshot_list_command(name: &str) -> (c: CommandLine)
    ensures
        command_view(c) == lima_command(seq!["snapshot"@, "list"@, name@, "--quiet"@]),
{
    let c = limactl(&["snapshot", "list", name, "--quiet"]);
    assert(str_texts(seq!["snapshot", "list", name, "--quiet"]) =~= seq![
        "snapshot"@,
        "list"@,
        name@,
        "--quiet"@,
    ]);
    c
}

/// Whether a phase belongs to the cleanup after a failed preparation.
pub open spec fn is_cleanup(p: LimaPhase) -> bool {
    p == LimaPhase::StopCleanupInspecting || p == LimaPhase::StopCleanupStopping
        || p == LimaPhase::DeleteCleanupInspecting || p == LimaPhase::DeleteCleanupDeleting
}

/// Attaching disks keeps the request and leads to creating a disk, listing
/// drivers, inspecting the instance, or the end.
proof fn lemma_attach_disks_shape(s: ProvisioningView, out: Seq<Seq<char>>, err: Seq<Seq<char>>)
    ensures
        attach_disks(s, out, err).0.request == s.request,
        !is_cleanup(attach_disks(s, out, err).0.phase),
        attach_disks(s, out, err).1.work is Done ==> attach_disks(s, out, err).1.work->Done_0 is Err,
    decreases s.request.persistent_disks@.len() - s.disks.len(),
{
    let wanted = s.request.persistent_disks@;
    if s.disks.len() < wanted.len() {
        let d = wanted[s.disks.len() as int];
        if valid_disk_name(d.name@) && disk_listed(s.disk_list, d.name@) {
            lemma_attach_disks_shape(
                ProvisioningView { disks: s.disks.push(attach(d, false)), ..s },
                out,
                err,
            );
        }
    }
}

/// No step changes what was requested.
pub proof fn lemma_step_keeps_request(s: ProvisioningView, e: EventView)
    ensures
        provisioning_step(s, e).0.request == s.request,
{
    let none = Seq::<Seq<char>>::empty();
    lemma_attach_disks_shape(s, none, none);
    match capture_outcome(e, "failed to list Lima disks"@) {
        Ok(out) => lemma_attach_disks_shape(ProvisioningView { disk_list: out, ..s }, none, none),
        Err(_) => {},
    }
    if s.disks.len() < s.request.persistent_disks@.len() {
        lemma_attach_disks_shape(
            ProvisioningView {
                disks: s.disks.push(attach(s.request.persistent_disks@[s.disks.len() as int], true)),
                ..s
            },
            none,
            none,
        );
    }
}

/// When the request asks to keep a machine whose preparation failed, no step
/// starts a cleanup: the machine is left as it is for inspection.
pub proof fn lemma_kept_machines_are_not_cleaned_up(s: ProvisioningView, e: EventView)
    requires
        s.request.keep_on_failure,
        !is_cleanup(s.phase),
    ensures
        !is_cleanup(provisioning_step(s, e).0.phase),
{
    let none = Seq::<Seq<char>>::empty();
    lemma_attach_disks_shape(s, none, none);
    match capture_outcome(e, "failed to list Lima disks"@) {
        Ok(out) => lemma_attach_disks_shape(ProvisioningView { disk_list: out, ..s }, none, none),
        Err(_) => {},
    }
    if s.disks.len() < s.request.persistent_disks@.len() {
        lemma_attach_disks_shape(
            ProvisioningView {
                disks: s.disks.push(attach(s.request.persistent_disks@[s.disks.len() as int], true)),
                ..s
            },
            none,
            none,
        );
    }
}

/// When the request does not ask to keep it, a new instance whose creation
/// failed is cleaned up: the next step inspects it in order to delete it,
/// and holds on to the failure.
pub proof fn lemma_failed_instances_are_cleaned_up(s: ProvisioningView, e: EventView)
    requires
        !s.request.keep_on_failure,
        s.phase == LimaPhase::Creating,
        run_outcome(e, "create the Lima test instance"@) is Err,
    ensures
        provisioning_step(s, e).0.phase == LimaPhase::DeleteCleanupInspecting,
        provisioning_step(s, e).0.error == run_outcome(e, "create the Lima test instance"@)->Err_0,
{
}

/// A cleanup never hides the failure it cleans up after: when it ends, the
/// error is that failure, followed by the cleanup's own error if it failed too.
pub proof fn lemma_cleanup_reports_the_failure(s: ProvisioningView, e: EventView)
    requires
        is_cleanup(s.phase),
        provisioning_step(s, e).1.work is Done,
    ensures
        provisioning_step(s, e).1.work->Done_0 matches Err(m) && (m == s.error || exists|ce: Seq<
            char,
        >| m == s.error + "; cleanup also failed: "@ + ce),
{
    let m = provisioning_step(s, e).1.work->Done_0->Err_0;
    match s.phase {
        LimaPhase::StopCleanupInspecting => match capture_outcome(e, inspect_error(s.name)) {
            Err(ce) => assert(m == s.error + "; cleanup also failed: "@ + ce),
            Ok(_) => {},
        },
        LimaPhase::DeleteCleanupInspecting => match capture_outcome(e, inspect_error(s.name)) {
            Err(ce) => assert(m == s.error + "; cleanup also failed: "@ + ce),
            Ok(_) => {},
        },
        LimaPhase::StopCleanupStopping => match run_outcome(e, "stop the Lima test instance"@) {
            Err(ce) => assert(m == s.error + "; cleanup also failed: "@ + ce),
            Ok(_) => {},
        },
        _ => match run_outcome(e, "delete the incomplete Lima test instance"@) {
            Err(ce) => assert(m == s.error + "; cleanup also failed: "@ + ce),
            Ok(_) => {},
        },
    }
}

/// Whether a phase lists, restores or starts a prepared snapshot.
pub open spec fn is_restore(p: LimaPhase) -> bool {
    p == LimaPhase::ListingSnapshots || p == LimaPhase::RestoreInspecting || p
        == LimaPhase::RestoreStopping || p == LimaPhase::RestoreApplying || p
        == LimaPhase::RestoreStarting
}

/// A rebuild request is never served from a snapshot: once the instance has
/// been inspected, no step lists or restores snapshots. An instance that
/// `limactl list` shows is deleted, with the rebuild announced, and one it
/// does not show is created afresh (or the acquisition fails).
pub proof fn lemma_rebuild_never_restores_a_snapshot(s: ProvisioningView, e: EventView)
    requires
        s.phase == LimaPhase::Inspecting,
        s.request.reuse matches ReusePolicy::ReusePrepared { rebuild: true, .. },
    ensures
        !is_restore(provisioning_step(s, e).0.phase),
        e matches EventView::Finished(status, out) && status.code == Some(0i32) && status_in_lines(
            output_lines(out),
            s.name,
        ) is Some ==> {
            &&& provisioning_step(s, e).0.phase == LimaPhase::DeletingStale
            &&& provisioning_step(s, e).1.stdout == seq!["==> Rebuilding Lima instance "@ + s.name]
            &&& provisioning_step(s, e).1.work == WorkView::Run(
                (
                    "limactl"@,
                    utf8_args(seq!["--tty=false"@, "delete"@, "--force"@, s.name]),
                    Seq::<(Seq<char>, Seq<char>)>::empty(),
                ),
            )
        },
        e matches EventView::Finished(status, out) && status.code == Some(0i32) && status_in_lines(
            output_lines(out),
            s.name,
        ) is None ==> provisioning_step(s, e).0.phase == LimaPhase::Creating
            || provisioning_step(s, e).0.phase == LimaPhase::DeleteCleanupInspecting
            || provisioning_step(s, e).0.phase == LimaPhase::Finished,
{
}

/// A machine is handed over only after the last preparation command of a
/// path succeeded: starting a restored or a snapshotted instance, or the
/// setup of a machine that is not reused.
pub proof fn lemma_machines_are_handed_over_only_when_ready(s: ProvisioningView, e: EventView)
    requires
        provisioning_step(s, e).1.work matches WorkView::Done(r) && r is Ok,
    ensures
        e matches EventView::Finished(status, _) && status.code == Some(0i32),
        s.phase == LimaPhase::RestoreStarting || s.phase == LimaPhase::PrepStarting || (s.phase
            == LimaPhase::SettingUp && !s.reusable),
{
    let none = Seq::<Seq<char>>::empty();
    lemma_attach_disks_shape(s, none, none);
    match capture_outcome(e, "failed to list Lima disks"@) {
        Ok(out) => lemma_attach_disks_shape(ProvisioningView { disk_list: out, ..s }, none, none),
        Err(_) => {},
    }
    if s.disks.len() < s.request.persistent_disks@.len() {
        lemma_attach_disks_shape(
            ProvisioningView {
                disks: s.disks.push(attach(s.request.persistent_disks@[s.disks.len() as int], true)),
                ..s
            },
            none,
            none,
        );
    }
}

impl LimaMachine {
    /// The name of the Lima instance.
    pub fn name(&self) -> (n: &str)
        ensures
            n@ == self.name@,
    {
        self.name.as_str()
    }

    /// The command that copies the host file at `source` to `destination`
    /// inside the machine.
    pub fn copy_command(&self, source: &[u8], destination: &str) -> (c: CommandLine)
        ensures
            command_view(c) == (
                "limactl"@,
                utf8_args(seq!["--tty=false"@, "copy"@, "--backend=scp"@]).push(source@).push(
                    crate::tasks::utf8(self.name@ + ":"@ + destination@),
                ),
                Seq::<(Seq<char>, Seq<char>)>::empty(),
            ),
    {
        let mut c = limactl(&["--tty=false", "copy", "--backend=scp"]);
        assert(str_texts(seq!["--tty=false", "copy", "--backend=scp"]) =~= seq![
            "--tty=false"@,
            "copy"@,
            "--backend=scp"@,
        ]);
        c.arg_bytes(vstd::slice::slice_to_vec(source));
        let guest_path = concat3(self.name.as_str(), ":", destination);
        c.arg(guest_path.as_str());
        c
    }

    /// The command that runs a script, given on its standard input, inside the
    /// machine.
    pub fn script_command(&self) -> (c: CommandLine)
        ensures
            command_view(c) == guest_shell_view(self.name@, str_texts(self.forward_env@)),
    {
        guest_shell_command(self.name.as_str(), self.forward_env.as_slice())
    }
}

/// Where the release of a machine stands.
#[derive(Debug, Clone, Copy, PartialEq, Eq, Structural)]
pub enum ReleasePhase {
    Inspecting,
    Stopping,
    Deleting,
    Released,
}

/// Releasing a machine after use: a reusable machine is stopped if it runs,
/// any other machine is deleted.
pub struct LimaRelease {
    pub name: String,
    pub phase: ReleasePhase,
}

/// What to do next while releasing a machine.
#[derive(Debug)]
pub enum ReleaseWork {
    /// Run the command and report how it exited.
    Run(CommandLine),
    /// Run the command and report how it exited and what it printed.
    Capture(CommandLine),
    /// The release is over.
    Done(Result<(), String>),
}

/// The view of release work.
pub enum ReleaseWorkView {
    Run(CommandView),
    Capture(CommandView),
    Done(Result<(), Seq<char>>),
}

/// The view of release work.
pub open spec fn release_work_view(w: ReleaseWork) -> ReleaseWorkView {
    match w {
        ReleaseWork::Run(c) => ReleaseWorkView::Run(command_view(c)),
        ReleaseWork::Capture(c) => ReleaseWorkView::Capture(command_view(c)),
        ReleaseWork::Done(r) => ReleaseWorkView::Done(crate::tasks::text_result(r)),
    }
}

/// The first step of releasing a machine.
pub open spec fn release_start(name: Seq<char>, reusable: bool) -> (ReleasePhase, ReleaseWorkView) {
    if reusable {
        (ReleasePhase::Inspecting, ReleaseWorkView::Capture(lima_command(list_args())))
    } else {
        (ReleasePhase::Deleting, ReleaseWorkView::Run(lima_command(delete_args(name))))
    }
}

/// What follows an event while releasing a machine.
pub open spec fn release_step(name: Seq<char>, phase: ReleasePhase, e: EventView) -> (
    ReleasePhase,
    ReleaseWorkView,
) {
    match phase {
        ReleasePhase::Inspecting => match capture_outcome(e, inspect_error(name)) {
            Err(m) => (ReleasePhase::Released, ReleaseWorkView::Done(Err(m))),
            Ok(out) => if status_in_lines(output_lines(out), name) == Some("Running"@) {
                (ReleasePhase::Stopping, ReleaseWorkView::Run(lima_command(stop_args(name))))
            } else {
                (ReleasePhase::Released, ReleaseWorkView::Done(Ok(())))
            },
        },
        ReleasePhase::Stopping => (
            ReleasePhase::Released,
            ReleaseWorkView::Done(run_outcome(e, "stop the Lima test instance"@)),
        ),
        ReleasePhase::Deleting => (
            ReleasePhase::Released,
            ReleaseWorkView::Done(run_outcome(e, "delete the Lima test instance"@)),
        ),
        ReleasePhase::Released => (
            ReleasePhase::Released,
            ReleaseWorkView::Done(Err("the Lima machine has already been released"@)),
        ),
    }
}

impl LimaRelease {
    /// Starts releasing a machine.
    pub fn start(machine: &LimaMachine) -> (r: (LimaRelease, ReleaseWork))
        ensures
            r.0.name@ == machine.name@,
            (r.0.phase, release_work_view(r.1)) == release_start(machine.name@, machine.reusable),
    {
        let name = machine.name.clone();
        if machine.reusable {
            (LimaRelease { name, phase: ReleasePhase::Inspecting }, ReleaseWork::Capture(list_command()))
        } else {
            let c = delete_command(name.as_str());
            (LimaRelease { name, phase: ReleasePhase::Deleting }, ReleaseWork::Run(c))
        }
    }

    /// Takes what the last command did and returns the next step.
    pub fn step(self, event: LimaEvent) -> (r: (LimaRelease, ReleaseWork))
        ensures
            r.0.name@ == self.name@,
            (r.0.phase, release_work_view(r.1)) == release_step(self.name@, self.phase, event@),
    {
        match self.phase {
            ReleasePhase::Inspecting => {
                let what = concat2("failed to inspect Lima instance ", self.name.as_str());
                match capture_result(event, what) {
                    Err(m) => (LimaRelease { phase: ReleasePhase::Released, ..self }, ReleaseWork::Done(Err(m))),
                    Ok(out) => if is_running(out.as_slice(), self.name.as_str()) {
                        let c = stop_command(self.name.as_str());
                        (LimaRelease { phase: ReleasePhase::Stopping, ..self }, ReleaseWork::Run(c))
                    } else {
                        (LimaRelease { phase: ReleasePhase::Released, ..self }, ReleaseWork::Done(Ok(())))
                    },
                }
            },
            ReleasePhase::Stopping => {
                let r = run_result(&event, "stop the Lima test instance");
                (LimaRelease { phase: ReleasePhase::Released, ..self }, ReleaseWork::Done(r))
            },
            ReleasePhase::Deleting => {
                let r = run_result(&event, "delete the Lima test instance");
                (LimaRelease { phase: ReleasePhase::Released, ..self }, ReleaseWork::Done(r))
            },
            ReleasePhase::Released => (
                self,
                ReleaseWork::Done(Err(String::from_str("the Lima machine has already been released"))),
            ),
        }
    }
}

} // verus!
