//! The guest's init agent: what to mount, how to configure the guest's
//! network, what to do for each message of the host, how to run a
//! workspace, and what to answer.
//!
//! The agent itself performs the actions; this module decides them.

use crate::protocol::{CommandOutput, Message, RunCommand, WorkspaceRunOptions};
use crate::tar::{untar_argv, untar_workspace};
use crate::text::{join2, lossy_text, strings_of, texts, trim, trimmed, utf8_lossy};
use std::collections::HashMap;
use vstd::prelude::*;

verus! {

/// The file systems that the agent mounts at start.
#[derive(Clone, Copy, Debug, PartialEq, Eq, Structural)]
pub enum MountPoint {
    /// devtmpfs on `/dev`.
    Dev,
    /// proc on `/proc`.
    Proc,
    /// sysfs on `/sys`.
    Sys,
}

/// One mount to perform: the file system type serves as the source too.
#[derive(Clone, Debug, PartialEq, Eq)]
pub struct MountRequest {
    pub point: MountPoint,
    pub fstype: String,
    pub target: String,
}

/// How a mount ended.
#[derive(Clone, Copy, Debug, PartialEq, Eq, Structural)]
pub enum MountOutcome {
    Mounted,
    /// The kernel reported that the target is busy.
    Busy,
    /// Any other error.
    Failed,
}

/// An error that ends the agent's work.
#[derive(Clone, Copy, Debug, PartialEq, Eq, Structural)]
pub enum GuestAgentError {
    /// A file system could not be mounted.
    MountFailed(MountPoint),
    /// The entry point of a workspace exited with a failure status.
    EntrypointFailed,
}

/// The file system type of a mount point.
pub open spec fn fstype_of(point: MountPoint) -> Seq<char> {
    match point {
        MountPoint::Dev => "devtmpfs"@,
        MountPoint::Proc => "proc"@,
        MountPoint::Sys => "sysfs"@,
    }
}

/// The directory of a mount point.
pub open spec fn target_of(point: MountPoint) -> Seq<char> {
    match point {
        MountPoint::Dev => "/dev"@,
        MountPoint::Proc => "/proc"@,
        MountPoint::Sys => "/sys"@,
    }
}

/// The mount points to mount, in order: `/dev` only where `/dev/null` is
/// missing, then `/proc` and `/sys`.
pub open spec fn mount_points(dev_null_exists: bool) -> Seq<MountPoint> {
    if dev_null_exists {
        seq![MountPoint::Proc, MountPoint::Sys]
    } else {
        seq![MountPoint::Dev, MountPoint::Proc, MountPoint::Sys]
    }
}

/// Whether `m` asks for the mount of `point`.
pub open spec fn is_mount_of(m: MountRequest, point: MountPoint) -> bool {
    &&& m.point == point
    &&& m.fstype@ == fstype_of(point)
    &&& m.target@ == target_of(point)
}

fn mount_request(point: MountPoint) -> (m: MountRequest)
    ensures
        is_mount_of(m, point),
{
    match point {
        MountPoint::Dev => MountRequest {
            point,
            fstype: "devtmpfs".to_owned(),
            target: "/dev".to_owned(),
        },
        MountPoint::Proc => MountRequest {
            point,
            fstype: "proc".to_owned(),
            target: "/proc".to_owned(),
        },
        MountPoint::Sys => MountRequest {
            point,
            fstype: "sysfs".to_owned(),
            target: "/sys".to_owned(),
        },
    }
}

/// The mounts to perform at start, in order, given whether `/dev/null`
/// exists already.
pub fn mount_drives(dev_null_exists: bool) -> (plan: Vec<MountRequest>)
    ensures
        plan@.len() == mount_points(dev_null_exists).len(),
        forall|i: int|
            0 <= i < plan@.len() ==> is_mount_of(
                #[trigger] plan@[i],
                mount_points(dev_null_exists)[i],
            ),
{
    let mut plan: Vec<MountRequest> = Vec::new();
    if !dev_null_exists {
        plan.push(mount_request(MountPoint::Dev));
    }
    plan.push(mount_request(MountPoint::Proc));
    plan.push(mount_request(MountPoint::Sys));
    plan
}

/// The verdict on one mount: a busy `/dev` is mounted already and is
/// accepted; every other failure is fatal.
pub open spec fn mount_verdict(point: MountPoint, outcome: MountOutcome) -> Result<
    (),
    GuestAgentError,
> {
    if outcome == MountOutcome::Mounted || (point == MountPoint::Dev && outcome
        == MountOutcome::Busy) {
        Ok(())
    } else {
        Err(GuestAgentError::MountFailed(point))
    }
}

/// Decides whether the agent goes on after a mount.
pub fn judge_mount(point: MountPoint, outcome: MountOutcome) -> (r: Result<(), GuestAgentError>)
    ensures
        r == mount_verdict(point, outcome),
{
    match outcome {
        MountOutcome::Mounted => Ok(()),
        MountOutcome::Busy => match point {
            MountPoint::Dev => Ok(()),
            _ => Err(GuestAgentError::MountFailed(point)),
        },
        MountOutcome::Failed => Err(GuestAgentError::MountFailed(point)),
    }
}

/// The guest's address with its prefix length.
pub open spec fn guest_address() -> Seq<char> {
    "172.16.0.2/30"@
}

/// The gateway of the guest: the host's end of the TAP device.
pub open spec fn gateway_address() -> Seq<char> {
    "172.16.0.1"@
}

/// The path and the contents of the resolver configuration.
pub open spec fn resolver_file() -> (Seq<char>, Seq<char>) {
    ("/etc/resolv.conf"@, "nameserver 8.8.8.8\n"@)
}

/// The commands that configure the guest's network, in order: bring up
/// the loopback device, bring up `eth0`, give it the guest's address, and
/// route everything through the gateway.
pub open spec fn guest_network_commands() -> Seq<Seq<Seq<char>>> {
    seq![
        seq!["ip"@, "link"@, "set"@, "dev"@, "lo"@, "up"@],
        seq!["ip"@, "link"@, "set"@, "dev"@, "eth0"@, "up"@],
        seq!["ip"@, "addr"@, "add"@, guest_address(), "dev"@, "eth0"@],
        seq!["ip"@, "route"@, "add"@, "default"@, "via"@, gateway_address(), "dev"@, "eth0"@],
    ]
}

/// The network configuration of the guest: commands to run in order, and
/// a file to write after them.
#[derive(Clone, Debug, PartialEq, Eq)]
pub struct GuestNetworkPlan {
    pub commands: Vec<Vec<String>>,
    pub resolver_path: String,
    pub resolver_contents: String,
}

/// The network configuration of the guest.
pub fn configure_network() -> (plan: GuestNetworkPlan)
    ensures
        plan.commands@.len() == guest_network_commands().len(),
        forall|i: int|
            0 <= i < plan.commands@.len() ==> texts(#[trigger] plan.commands@[i]@)
                == guest_network_commands()[i],
        (plan.resolver_path@, plan.resolver_contents@) == resolver_file(),
{
    let mut commands: Vec<Vec<String>> = Vec::new();
    let lo = strings_of(&["ip", "link", "set", "dev", "lo", "up"]);
    assert(texts(lo@) =~= guest_network_commands()[0]);
    commands.push(lo);
    let eth = strings_of(&["ip", "link", "set", "dev", "eth0", "up"]);
    assert(texts(eth@) =~= guest_network_commands()[1]);
    commands.push(eth);
    let addr = strings_of(&["ip", "addr", "add", "172.16.0.2/30", "dev", "eth0"]);
    assert(texts(addr@) =~= guest_network_commands()[2]);
    commands.push(addr);
    let route = strings_of(&["ip", "route", "add", "default", "via", "172.16.0.1", "dev", "eth0"]);
    assert(texts(route@) =~= guest_network_commands()[3]);
    commands.push(route);
    GuestNetworkPlan {
        commands,
        resolver_path: "/etc/resolv.conf".to_owned(),
        resolver_contents: "nameserver 8.8.8.8\n".to_owned(),
    }
}

/// A process to start, with its standard output and standard error
/// captured.
#[derive(Clone, Debug, PartialEq)]
pub struct ProcessSpec {
    pub program: String,
    pub args: Vec<String>,
    pub env: HashMap<String, String>,
    pub working_dir: String,
}

/// The directory in which a command runs: the one it names, else `/`.
pub open spec fn working_dir_of(dir: Option<String>) -> Seq<char> {
    match dir {
        Some(d) => d@,
        None => "/"@,
    }
}

/// The process that carries out `cmd`: its program, arguments and
/// environment as given, in the directory that it names or in `/`.
pub fn handle_run_individual_command(cmd: RunCommand) -> (p: ProcessSpec)
    ensures
        p.program == cmd.command,
        p.args == cmd.args,
        p.env == cmd.env,
        p.working_dir@ == working_dir_of(cmd.working_dir),
{
    let working_dir = match cmd.working_dir {
        Some(d) => d,
        None => "/".to_owned(),
    };
    ProcessSpec { program: cmd.command, args: cmd.args, env: cmd.env, working_dir }
}

/// The directory in which a workspace is unpacked and run.
pub open spec fn workspace_dir() -> Seq<char> {
    "/tmp/workspace"@
}

/// The file in which the archive of a workspace is saved.
pub open spec fn archive_path() -> Seq<char> {
    "/tmp/workspace/code.tar"@
}

/// The absolute path of an entry point given relative to the workspace.
pub open spec fn entrypoint_path(entrypoint: Seq<char>) -> Seq<char> {
    "/tmp/workspace/"@ + entrypoint
}

/// The permissions given to the entry point: `rwxr-xr-x`.
pub const ENTRYPOINT_MODE: u32 = 0o755;

/// One step of running a workspace.
#[derive(Clone, Debug, PartialEq)]
pub enum WorkspaceStep {
    /// Remove the directory with all that is in it, if it exists, and
    /// create it anew.
    ResetDirectory { path: String },
    /// Write the bytes to the file.
    WriteFile { path: String, contents: Vec<u8> },
    /// Run the command and require that it exits with success.
    Extract { argv: Vec<String> },
    /// Set the permission bits of the file.
    SetMode { path: String, mode: u32 },
    /// Run the process and capture what it prints.
    Run { process: ProcessSpec },
}

/// Whether `plan` runs the workspace `w`: a fresh directory, the archive
/// saved in it and unpacked there, the entry point made executable and
/// started with `/bin/sh` inside the directory.
pub open spec fn is_workspace_plan(plan: Seq<WorkspaceStep>, w: WorkspaceRunOptions) -> bool {
    &&& plan.len() == 5
    &&& plan[0] matches WorkspaceStep::ResetDirectory { path } && path@ == workspace_dir()
    &&& plan[1] matches WorkspaceStep::WriteFile { path, contents } && path@ == archive_path()
        && contents == w.data
    &&& plan[2] matches WorkspaceStep::Extract { argv } && texts(argv@) == untar_argv(
        archive_path(),
        workspace_dir(),
    )
    &&& plan[3] matches WorkspaceStep::SetMode { path, mode } && path@ == entrypoint_path(
        w.entrypoint@,
    ) && mode == ENTRYPOINT_MODE
    &&& plan[4] matches WorkspaceStep::Run { process } && process.program@ == "/bin/sh"@ && texts(
        process.args@,
    ) == seq![entrypoint_path(w.entrypoint@)] && process.env@ == Map::<String, String>::empty()
        && process.working_dir@ == workspace_dir()
}

/// The steps that run the workspace `w`, in order. A step that fails ends
/// the run; nothing is answered then.
pub fn handle_run_workspace(w: WorkspaceRunOptions) -> (plan: Vec<WorkspaceStep>)
    ensures
        is_workspace_plan(plan@, w),
{
    let entrypoint = join2("/tmp/workspace/", w.entrypoint.as_str());
    let args = strings_of(&[entrypoint.as_str()]);
    assert(texts(args@) =~= seq![entrypoint_path(w.entrypoint@)]);
    let process = ProcessSpec {
        program: "/bin/sh".to_owned(),
        args,
        env: HashMap::new(),
        working_dir: "/tmp/workspace".to_owned(),
    };
    let mut plan: Vec<WorkspaceStep> = Vec::new();
    plan.push(WorkspaceStep::ResetDirectory { path: "/tmp/workspace".to_owned() });
    plan.push(
        WorkspaceStep::WriteFile { path: "/tmp/workspace/code.tar".to_owned(), contents: w.data },
    );
    plan.push(
        WorkspaceStep::Extract {
            argv: untar_workspace("/tmp/workspace/code.tar", "/tmp/workspace"),
        },
    );
    plan.push(WorkspaceStep::SetMode { path: entrypoint, mode: ENTRYPOINT_MODE });
    plan.push(WorkspaceStep::Run { process });
    plan
}

/// The text that is reported of what a process printed: its standard
/// output, decoded leniently and trimmed.
pub open spec fn reported_output(stdout: Seq<u8>) -> Seq<char> {
    trimmed(lossy_text(stdout))
}

/// The answer to a finished command: what it printed, whatever its exit
/// status was.
pub fn command_reply(stdout: &[u8]) -> (m: Message)
    ensures
        m matches Message::CommandOutput(o) && o.output@ == reported_output(stdout@),
{
    let text = utf8_lossy(stdout);
    Message::CommandOutput(CommandOutput { output: trim(text.as_str()) })
}

/// The answer to a finished workspace: what it printed where the entry
/// point exited with success, and an error, with nothing to send,
/// where it did not.
pub fn workspace_reply(success: bool, stdout: &[u8]) -> (r: Result<Message, GuestAgentError>)
    ensures
        success ==> (r matches Ok(Message::CommandOutput(o)) && o.output@ == reported_output(
            stdout@,
        )),
        !success ==> r == Err::<Message, GuestAgentError>(GuestAgentError::EntrypointFailed),
{
    if success {
        Ok(command_reply(stdout))
    } else {
        Err(GuestAgentError::EntrypointFailed)
    }
}

/// Where the agent stands between start and power-off.
#[derive(Clone, Copy, Debug, PartialEq, Eq, Structural)]
pub enum InitStage {
    /// Mounting the file systems.
    Mounting,
    /// Configuring the network.
    Networking,
    /// Binding the listener and accepting the host's one connection.
    Listening,
    /// Running the message loop.
    Serving,
    /// Flushing the file systems and powering off.
    PoweringOff,
}

/// The stage that follows `stage`, given whether it succeeded. An error
/// before the message loop leads to power-off at once, and so does the
/// end of the loop.
pub open spec fn stage_after(stage: InitStage, ok: bool) -> InitStage {
    if !ok {
        InitStage::PoweringOff
    } else {
        match stage {
            InitStage::Mounting => InitStage::Networking,
            InitStage::Networking => InitStage::Listening,
            InitStage::Listening => InitStage::Serving,
            InitStage::Serving => InitStage::PoweringOff,
            InitStage::PoweringOff => InitStage::PoweringOff,
        }
    }
}

/// The stage that follows `stage`, given whether it succeeded.
pub fn next_stage(stage: InitStage, ok: bool) -> (next: InitStage)
    ensures
        next == stage_after(stage, ok),
{
    if !ok {
        return InitStage::PoweringOff;
    }
    match stage {
        InitStage::Mounting => InitStage::Networking,
        InitStage::Networking => InitStage::Listening,
        InitStage::Listening => InitStage::Serving,
        InitStage::Serving => InitStage::PoweringOff,
        InitStage::PoweringOff => InitStage::PoweringOff,
    }
}

/// What the agent does in one turn of its message loop.
#[derive(Clone, Debug, PartialEq)]
pub enum GuestAction {
    /// Send the message to the host.
    Reply(Message),
    /// Start the process, wait for it, and answer with
    /// [`command_reply`].
    RunCommand(ProcessSpec),
    /// Carry out the steps and answer with [`workspace_reply`].
    RunWorkspace(Vec<WorkspaceStep>),
    /// Nothing to do: wait for the next message.
    Ignore,
    /// Leave the loop and power off.
    Exit,
}

/// One turn of the guest's message loop, for the message received or for
/// `None` where receiving failed. A greeting is answered in kind; a
/// command and a workspace are run; `Shutdown` and a failed receive end
/// the loop; any other message is passed over.
pub fn handle_messages(received: Option<Message>) -> (action: GuestAction)
    ensures
        match received {
            None => action == GuestAction::Exit,
            Some(Message::Shutdown) => action == GuestAction::Exit,
            Some(Message::Hello) => action == GuestAction::Reply(Message::Hello),
            Some(Message::RunCommand(cmd)) => action matches GuestAction::RunCommand(p)
                && p.program == cmd.command && p.args == cmd.args && p.env == cmd.env
                && p.working_dir@ == working_dir_of(cmd.working_dir),
            Some(Message::RunWorkspace(w)) => action matches GuestAction::RunWorkspace(plan)
                && is_workspace_plan(plan@, w),
            Some(Message::CommandOutput(_)) => action == GuestAction::Ignore,
        },
{
    match received {
        None => GuestAction::Exit,
        Some(Message::Shutdown) => GuestAction::Exit,
        Some(Message::Hello) => GuestAction::Reply(Message::Hello),
        Some(Message::RunCommand(cmd)) => GuestAction::RunCommand(
            handle_run_individual_command(cmd),
        ),
        Some(Message::RunWorkspace(w)) => GuestAction::RunWorkspace(handle_run_workspace(w)),
        Some(Message::CommandOutput(_)) => GuestAction::Ignore,
    }
}

} // verus!
