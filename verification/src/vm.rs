//! One virtual machine: its names and paths, the steps that launch it and
//! clean up after it, and the actor that reacts to the messages of its
//! queue.
//!
//! The actor here holds the VM's status and decides; its caller owns the
//! child process and the control channel and carries the decisions out.

use crate::firecracker::{firecracker_args, launch_args};
use crate::network::{
    cleanup_tap_device, delete_link_argv, is_command, is_tap_setup, setup_tap_device, HostCommand,
    NetworkSetupError, NetworkStep, RunOutcome,
};
use crate::protocol::{Message, RunCommand, WorkspaceRunOptions};
use crate::text::{
    decimal_string, decimal_text, ipv4_string, ipv4_text, join2, join3, strings_of, texts,
};
use vstd::prelude::*;

verus! {

/// The number of messages that a VM's queue holds before senders wait.
pub const COMMAND_QUEUE_CAPACITY: usize = 32;

/// The prefix length of the link between host and guest, as a suffix of
/// the address.
pub open spec fn link_mask() -> Seq<char> {
    "/30"@
}

/// The identifier of the VM with sequence number `seq`.
pub open spec fn vm_id(seq: nat) -> Seq<char> {
    "vm-"@ + decimal_text(seq)
}

/// The API socket of the VM with sequence number `seq`.
pub open spec fn api_socket_path(seq: nat) -> Seq<char> {
    "/tmp/firecracker-"@ + decimal_text(seq) + ".socket"@
}

/// The TAP device of the VM with sequence number `seq`.
pub open spec fn tap_name(seq: nat) -> Seq<char> {
    "tap"@ + decimal_text(seq)
}

/// The Unix socket that stands for the vsock device of the VM with
/// sequence number `seq`.
pub open spec fn vsock_uds_path(seq: nat) -> Seq<char> {
    "/tmp/vsock-"@ + vm_id(seq) + ".sock"@
}

/// The host's address on every TAP device.
pub open spec fn host_address() -> Seq<u8> {
    seq![172u8, 16u8, 0u8, 1u8]
}

/// The MAC address of the guest's interface. It is locally administered.
pub open spec fn guest_mac() -> Seq<u8> {
    seq![0x06u8, 0x00u8, 0xACu8, 0x10u8, 0x00u8, 0x02u8]
}

/// The character that writes the hexadecimal digit `d` in upper case.
pub open spec fn hex_digit(d: nat) -> char
    recommends
        d < 16,
{
    if d < 10 {
        (48 + d) as char
    } else {
        (55 + d) as char
    }
}

/// The two hexadecimal digits of a byte.
pub open spec fn hex_pair(b: u8) -> Seq<char> {
    seq![hex_digit(b as nat / 16), hex_digit(b as nat % 16)]
}

/// The text of a MAC address: its six bytes in upper-case hexadecimal
/// with colons between them.
pub open spec fn mac_text(octets: Seq<u8>) -> Seq<char>
    recommends
        octets.len() == 6,
{
    hex_pair(octets[0]) + seq![':'] + hex_pair(octets[1]) + seq![':'] + hex_pair(octets[2]) + seq![
        ':',
    ] + hex_pair(octets[3]) + seq![':'] + hex_pair(octets[4]) + seq![':'] + hex_pair(octets[5])
}

/// Formats a MAC address with the `Display` of `macaddr::MacAddr`, which
/// for six bytes writes each as two upper-case hexadecimal digits and
/// puts a colon between them.
#[verifier::external_body]
fn mac_string(octets: &[u8; 6]) -> (s: String)
    ensures
        s@ == mac_text(octets@),
{
    macaddr::MacAddr::from(*octets).to_string()
}

/// `name` inside the directory `dir`.
pub open spec fn in_dir(dir: Seq<char>, name: Seq<char>) -> Seq<char> {
    dir + "/"@ + name
}

/// The name of a VM's configuration file.
pub open spec fn config_file_name(id: Seq<char>) -> Seq<char> {
    id + "-vm_config.json"@
}

/// The configuration template, relative to the working directory.
pub open spec fn template_name() -> Seq<char> {
    "crates/orchestrator/vm_config_template.json"@
}

/// The kernel image, relative to the working directory.
pub open spec fn kernel_name() -> Seq<char> {
    "vmlinux-kernel"@
}

/// The root file system that every VM gets a copy of, relative to the
/// working directory.
pub open spec fn base_rootfs_name() -> Seq<char> {
    "build/rootfs.ext4"@
}

/// The directory of the VMs' own root file systems, relative to the
/// working directory.
pub open spec fn rootfs_dir_name() -> Seq<char> {
    "filesystems"@
}

/// A VM's own root file system, relative to the working directory.
pub open spec fn rootfs_name(id: Seq<char>) -> Seq<char> {
    "filesystems/"@ + id + ".ext4"@
}

/// The hypervisor's log file of a VM.
pub open spec fn log_name(id: Seq<char>) -> Seq<char> {
    id + "-firecracker.log"@
}

/// The file that receives the hypervisor's standard output.
pub open spec fn stdout_log_name(id: Seq<char>) -> Seq<char> {
    id + ".out.log"@
}

/// The file that receives the hypervisor's standard error.
pub open spec fn stderr_log_name(id: Seq<char>) -> Seq<char> {
    id + ".err.log"@
}

/// `sudo rm -f <path>`.
pub open spec fn remove_socket_argv(path: Seq<char>) -> Seq<Seq<char>> {
    seq!["sudo"@, "rm"@, "-f"@, path]
}

/// What names and addresses one VM.
#[derive(Clone, Debug, PartialEq, Eq)]
pub struct VmConfig {
    pub seq: usize,
    pub id: String,
    pub api_socket: String,
    pub tap: String,
    pub host_ip: [u8; 4],
    pub mac: [u8; 6],
    pub vsock_path: String,
}

impl VmConfig {
    /// Every name of the VM follows from its sequence number, which is at
    /// least 1.
    pub open spec fn wf(&self) -> bool {
        &&& self.seq >= 1
        &&& self.id@ == vm_id(self.seq as nat)
        &&& self.api_socket@ == api_socket_path(self.seq as nat)
        &&& self.tap@ == tap_name(self.seq as nat)
        &&& self.host_ip@ == host_address()
        &&& self.mac@ == guest_mac()
        &&& self.vsock_path@ == vsock_uds_path(self.seq as nat)
    }

    /// The configuration of the VM with sequence number `seq`.
    pub fn new(seq: usize) -> (config: VmConfig)
        requires
            seq >= 1,
        ensures
            config.wf(),
            config.seq == seq,
    {
        let digits = decimal_string(seq as u64);
        let id = join2("vm-", digits.as_str());
        let api_socket = join3("/tmp/firecracker-", digits.as_str(), ".socket");
        let tap = join2("tap", digits.as_str());
        let vsock_path = join3("/tmp/vsock-", id.as_str(), ".sock");
        let host_ip: [u8; 4] = [172, 16, 0, 1];
        let mac: [u8; 6] = [0x06, 0x00, 0xAC, 0x10, 0x00, 0x02];
        assert(host_ip@ =~= host_address());
        assert(mac@ =~= guest_mac());
        VmConfig { seq, id, api_socket, tap, host_ip, mac, vsock_path }
    }
}

/// Two VMs with the same identifier have the same sequence number: the
/// identifiers of distinct VMs differ.
pub proof fn lemma_vm_id_injective(a: nat, b: nat)
    requires
        vm_id(a) == vm_id(b),
    ensures
        a == b,
{
    crate::text::lemma_decimal_text_injective(a, b, "vm-"@);
}

/// What a caller asks of a VM's actor.
#[derive(Clone, Debug, PartialEq)]
pub enum VmMessage {
    StartVm,
    Command(RunCommand),
    WorkspaceCommand(WorkspaceRunOptions),
    Shutdown,
}

/// Where a VM stands in its life.
#[derive(Clone, Copy, Debug, PartialEq, Eq, Structural)]
pub enum VmStatus {
    New,
    Launching,
    Connected,
    Running,
    ShuttingDown,
    Terminated,
}

/// Why a launch failed. Every such failure is fatal to the VM.
#[derive(Clone, Copy, Debug, PartialEq, Eq, Structural)]
pub enum LaunchError {
    /// The configuration file could not be made from the template.
    Config,
    /// The command that removes a stale API socket could not be started.
    ApiSocket,
    /// A stale vsock socket is there and could not be removed.
    VsockSocket,
    /// The TAP device could not be set up.
    Network(NetworkSetupError),
    /// The root file system could not be copied.
    Rootfs,
    /// The hypervisor could not be started.
    Spawn,
}

/// The values that turn the template into the configuration of one VM,
/// with the files to read and to write.
#[derive(Clone, Debug, PartialEq, Eq)]
pub struct ConfigEdit {
    pub template_path: String,
    pub config_path: String,
    pub kernel_image_path: String,
    pub drive_path: String,
    pub tap_name: String,
    pub mac_address: String,
    pub log_path: String,
    pub vsock_uds_path: String,
}

/// One step of a launch.
#[derive(Clone, Debug, PartialEq, Eq)]
pub enum LaunchStep {
    /// Read the template, fill in the values, write the configuration.
    WriteConfig(ConfigEdit),
    /// Run the command; only a command that does not start is an error.
    RemoveApiSocket { argv: Vec<String> },
    /// Remove the file; a file that is not there is no error.
    RemoveVsockSocket { path: String },
    /// Run the commands in order, each judged by the network rules.
    SetupTap { commands: Vec<HostCommand> },
    /// Create the directory if it is missing and copy the file into it.
    CopyRootfs { directory: String, from: String, to: String },
    /// Start the hypervisor with its output redirected to the two files.
    SpawnHypervisor { program: String, args: Vec<String>, stdout: String, stderr: String },
    /// Wait until the socket file exists.
    WaitForSocket { path: String },
    /// Connect to the socket and shake hands with the guest.
    Connect { path: String },
    /// Keep the writing half for sending and start the task that reads.
    StartReader,
}

/// One step of cleaning up after a VM.
#[derive(Clone, Debug, PartialEq, Eq)]
pub enum CleanupStep {
    /// Run the command that removes the TAP device.
    RemoveTap(HostCommand),
    /// Run the command that removes the API socket.
    RemoveApiSocket { argv: Vec<String> },
    /// Remove the vsock socket.
    RemoveVsockSocket { path: String },
    /// End the hypervisor if it still runs, and wait for its exit.
    TerminateChild,
}

/// What the actor's caller does for it.
#[derive(Clone, Debug, PartialEq)]
pub enum VmAction {
    /// Carry out the steps in order and report with
    /// [`VmActor::launch_finished`].
    Launch(Vec<LaunchStep>),
    /// Frame the message and write it to the control channel.
    Send(Message),
    /// Carry out the steps in order and report with
    /// [`VmActor::cleanup_finished`].
    Cleanup(Vec<CleanupStep>),
}

/// What the task that reads the control channel does with one receipt.
#[derive(Clone, Debug, PartialEq)]
pub enum ReaderAction {
    /// Report that the guest said hello.
    ReportHello,
    /// Report what a command printed.
    ReportOutput(String),
    /// Report a message that the host does not expect.
    ReportOther(Message),
    /// End the task.
    Stop,
}

/// Whether `edit` makes the configuration of the VM `config` in the
/// working directory `dir`.
pub open spec fn is_config_edit(edit: ConfigEdit, config: VmConfig, dir: Seq<char>) -> bool {
    &&& edit.template_path@ == in_dir(dir, template_name())
    &&& edit.config_path@ == in_dir(dir, config_file_name(config.id@))
    &&& edit.kernel_image_path@ == in_dir(dir, kernel_name())
    &&& edit.drive_path@ == in_dir(dir, rootfs_name(config.id@))
    &&& edit.tap_name@ == config.tap@
    &&& edit.mac_address@ == mac_text(config.mac@)
    &&& edit.log_path@ == in_dir(dir, log_name(config.id@))
    &&& edit.vsock_uds_path@ == config.vsock_path@
}

/// Whether `plan` launches the VM `config` from the working directory
/// `dir`: the nine steps, in their order.
pub open spec fn is_launch_plan(plan: Seq<LaunchStep>, config: VmConfig, dir: Seq<char>) -> bool {
    &&& plan.len() == 9
    &&& plan[0] matches LaunchStep::WriteConfig(edit) && is_config_edit(edit, config, dir)
    &&& plan[1] matches LaunchStep::RemoveApiSocket { argv } && texts(argv@) == remove_socket_argv(
        config.api_socket@,
    )
    &&& plan[2] matches LaunchStep::RemoveVsockSocket { path } && path@ == config.vsock_path@
    &&& plan[3] matches LaunchStep::SetupTap { commands } && is_tap_setup(
        commands@,
        config.tap@,
        ipv4_text(config.host_ip@),
        link_mask(),
    )
    &&& plan[4] matches LaunchStep::CopyRootfs { directory, from, to } && directory@ == in_dir(
        dir,
        rootfs_dir_name(),
    ) && from@ == in_dir(dir, base_rootfs_name()) && to@ == in_dir(dir, rootfs_name(config.id@))
    &&& plan[5] matches LaunchStep::SpawnHypervisor { program, args, stdout, stderr } && program@
        == in_dir(dir, "firecracker"@) && texts(args@) == launch_args(
        config.api_socket@,
        in_dir(dir, config_file_name(config.id@)),
    ) && stdout@ == stdout_log_name(config.id@) && stderr@ == stderr_log_name(config.id@)
    &&& plan[6] matches LaunchStep::WaitForSocket { path } && path@ == config.vsock_path@
    &&& plan[7] matches LaunchStep::Connect { path } && path@ == config.vsock_path@
    &&& plan[8] == LaunchStep::StartReader
}

/// Whether `plan` cleans up after the VM `config`: its TAP device, its
/// two sockets, and its hypervisor.
pub open spec fn is_cleanup_plan(plan: Seq<CleanupStep>, config: VmConfig) -> bool {
    &&& plan.len() == 4
    &&& plan[0] matches CleanupStep::RemoveTap(c) && is_command(
        c,
        NetworkStep::RemoveTap,
        delete_link_argv(config.tap@),
    )
    &&& plan[1] matches CleanupStep::RemoveApiSocket { argv } && texts(argv@) == remove_socket_argv(
        config.api_socket@,
    )
    &&& plan[2] matches CleanupStep::RemoveVsockSocket { path } && path@ == config.vsock_path@
    &&& plan[3] == CleanupStep::TerminateChild
}

/// Whether commands are passed on to the guest in this status: they are
/// once the control channel is there and until shutdown begins.
pub open spec fn accepts_commands(status: VmStatus) -> bool {
    status == VmStatus::Connected || status == VmStatus::Running
}

/// Whether the VM holds resources to clean up in this status.
pub open spec fn holds_resources(status: VmStatus) -> bool {
    status == VmStatus::Launching || status == VmStatus::Connected || status == VmStatus::Running
}

/// The status after the actor has taken `msg` from its queue.
pub open spec fn next_status(status: VmStatus, msg: VmMessage) -> VmStatus {
    match msg {
        VmMessage::StartVm => if status == VmStatus::New {
            VmStatus::Launching
        } else {
            status
        },
        VmMessage::Command(_) | VmMessage::WorkspaceCommand(_) => if accepts_commands(status) {
            VmStatus::Running
        } else {
            status
        },
        VmMessage::Shutdown => if status == VmStatus::New {
            VmStatus::Terminated
        } else if holds_resources(status) {
            VmStatus::ShuttingDown
        } else {
            status
        },
    }
}

/// The messages that go to the guest when the actor takes `msg` from its
/// queue.
pub open spec fn sent_for(status: VmStatus, msg: VmMessage) -> Seq<Message> {
    if !accepts_commands(status) {
        seq![]
    } else {
        match msg {
            VmMessage::StartVm => seq![],
            VmMessage::Command(c) => seq![Message::RunCommand(c)],
            VmMessage::WorkspaceCommand(w) => seq![Message::RunWorkspace(w)],
            VmMessage::Shutdown => seq![Message::Shutdown],
        }
    }
}

/// The status after a cleanup has ended.
pub open spec fn after_cleanup(status: VmStatus) -> VmStatus {
    if status == VmStatus::ShuttingDown {
        VmStatus::Terminated
    } else {
        status
    }
}

/// The message that carries a command to the guest.
pub open spec fn command_message(msg: VmMessage) -> Message
    recommends
        msg is Command || msg is WorkspaceCommand,
{
    match msg {
        VmMessage::Command(c) => Message::RunCommand(c),
        VmMessage::WorkspaceCommand(w) => Message::RunWorkspace(w),
        _ => Message::Shutdown,
    }
}

/// The messages that go to the guest while the actor takes `msgs` from
/// its queue one after the other, in order.
pub open spec fn sent_for_all(status: VmStatus, msgs: Seq<VmMessage>) -> Seq<Message>
    decreases msgs.len(),
{
    if msgs.len() == 0 {
        seq![]
    } else {
        sent_for(status, msgs[0]) + sent_for_all(next_status(status, msgs[0]), msgs.drop_first())
    }
}

/// While the control channel is open, the commands that callers enqueue
/// reach the guest one for one and in the order in which they were
/// enqueued.
pub proof fn lemma_commands_sent_in_order(status: VmStatus, msgs: Seq<VmMessage>)
    requires
        accepts_commands(status),
        forall|i: int|
            0 <= i < msgs.len() ==> (#[trigger] msgs[i]) is Command || msgs[i] is WorkspaceCommand,
    ensures
        sent_for_all(status, msgs) == msgs.map_values(|m: VmMessage| command_message(m)),
    decreases msgs.len(),
{
    let expected = msgs.map_values(|m: VmMessage| command_message(m));
    if msgs.len() == 0 {
        assert(sent_for_all(status, msgs) =~= expected);
    } else {
        let rest = msgs.drop_first();
        assert(msgs[0] is Command || msgs[0] is WorkspaceCommand);
        assert forall|i: int| 0 <= i < rest.len() implies (#[trigger] rest[i]) is Command
            || rest[i] is WorkspaceCommand by {
            assert(rest[i] == msgs[i + 1]);
        }
        lemma_commands_sent_in_order(next_status(status, msgs[0]), rest);
        assert(sent_for_all(status, msgs) =~= expected);
    }
}

/// Whatever the status of a VM, once `Shutdown` is taken from the queue
/// and the cleanup it may call for has ended, the VM is terminated.
pub proof fn lemma_shutdown_terminates(status: VmStatus)
    ensures
        after_cleanup(next_status(status, VmMessage::Shutdown)) == VmStatus::Terminated,
        holds_resources(status) ==> next_status(status, VmMessage::Shutdown)
            == VmStatus::ShuttingDown,
{
}

/// The messages among `actions` that go to the guest, in order.
pub open spec fn sends_of(actions: Seq<VmAction>) -> Seq<Message>
    decreases actions.len(),
{
    if actions.len() == 0 {
        seq![]
    } else {
        match actions[0] {
            VmAction::Send(m) => seq![m] + sends_of(actions.drop_first()),
            _ => sends_of(actions.drop_first()),
        }
    }
}

/// Whether `actions` is what the actor of `config`, in `status`, asks of
/// its caller when it takes `msg` from its queue.
///
/// `StartVm` launches a new VM and is passed over afterwards. Commands
/// are sent while the channel is open and dropped otherwise. `Shutdown`
/// tells the guest, where the channel is open, and cleans up what the VM
/// holds.
pub open spec fn is_reaction(
    actions: Seq<VmAction>,
    config: VmConfig,
    dir: Seq<char>,
    status: VmStatus,
    msg: VmMessage,
) -> bool {
    match msg {
        VmMessage::StartVm => if status == VmStatus::New {
            &&& actions.len() == 1
            &&& actions[0] matches VmAction::Launch(plan) && is_launch_plan(plan@, config, dir)
        } else {
            actions.len() == 0
        },
        VmMessage::Command(c) => if accepts_commands(status) {
            actions == seq![VmAction::Send(Message::RunCommand(c))]
        } else {
            actions.len() == 0
        },
        VmMessage::WorkspaceCommand(w) => if accepts_commands(status) {
            actions == seq![VmAction::Send(Message::RunWorkspace(w))]
        } else {
            actions.len() == 0
        },
        VmMessage::Shutdown => if accepts_commands(status) {
            &&& actions.len() == 2
            &&& actions[0] == VmAction::Send(Message::Shutdown)
            &&& actions[1] matches VmAction::Cleanup(plan) && is_cleanup_plan(plan@, config)
        } else if status == VmStatus::Launching {
            &&& actions.len() == 1
            &&& actions[0] matches VmAction::Cleanup(plan) && is_cleanup_plan(plan@, config)
        } else {
            actions.len() == 0
        },
    }
}

/// The actor of one VM: its configuration and its status.
#[derive(Clone, Debug, PartialEq, Eq)]
pub struct VmActor {
    pub config: VmConfig,
    pub status: VmStatus,
}

fn in_directory(dir: &str, name: &str) -> (path: String)
    ensures
        path@ == in_dir(dir@, name@),
{
    join3(dir, "/", name)
}

fn remove_socket_command(path: &str) -> (argv: Vec<String>)
    ensures
        texts(argv@) == remove_socket_argv(path@),
{
    let argv = strings_of(&["sudo", "rm", "-f", path]);
    assert(texts(argv@) =~= remove_socket_argv(path@));
    argv
}

impl VmActor {
    /// The actor's configuration is well formed.
    pub open spec fn wf(&self) -> bool {
        self.config.wf()
    }

    /// The actor of a new VM with sequence number `seq`.
    pub fn new(seq: usize) -> (actor: VmActor)
        requires
            seq >= 1,
        ensures
            actor.wf(),
            actor.config.seq == seq,
            actor.status == VmStatus::New,
    {
        VmActor { config: VmConfig::new(seq), status: VmStatus::New }
    }

    /// The name of the VM's configuration file.
    pub fn config_name(&self) -> (name: String)
        ensures
            name@ == config_file_name(self.config.id@),
    {
        join2(self.config.id.as_str(), "-vm_config.json")
    }

    /// The values and files that make the VM's configuration in the
    /// working directory `dir`.
    pub fn edit_vm_config(&self, dir: &str) -> (edit: ConfigEdit)
        ensures
            is_config_edit(edit, self.config, dir@),
    {
        let id = self.config.id.as_str();
        let config_name = self.config_name();
        let rootfs = join3("filesystems/", id, ".ext4");
        let log = join2(id, "-firecracker.log");
        ConfigEdit {
            template_path: in_directory(dir, "crates/orchestrator/vm_config_template.json"),
            config_path: in_directory(dir, config_name.as_str()),
            kernel_image_path: in_directory(dir, "vmlinux-kernel"),
            drive_path: in_directory(dir, rootfs.as_str()),
            tap_name: self.config.tap.clone(),
            mac_address: mac_string(&self.config.mac),
            log_path: in_directory(dir, log.as_str()),
            vsock_uds_path: self.config.vsock_path.clone(),
        }
    }

    /// The steps that launch the VM from the working directory `dir`, in
    /// the order in which they are taken. A step that fails ends the
    /// launch.
    pub fn launch(&self, dir: &str) -> (plan: Vec<LaunchStep>)
        ensures
            is_launch_plan(plan@, self.config, dir@),
    {
        let id = self.config.id.as_str();
        let config_name = self.config_name();
        let config_path = in_directory(dir, config_name.as_str());
        let rootfs = join3("filesystems/", id, ".ext4");
        let host_ip = ipv4_string(&self.config.host_ip);

        let mut plan: Vec<LaunchStep> = Vec::new();
        plan.push(LaunchStep::WriteConfig(self.edit_vm_config(dir)));
        plan.push(
            LaunchStep::RemoveApiSocket {
                argv: remove_socket_command(self.config.api_socket.as_str()),
            },
        );
        plan.push(LaunchStep::RemoveVsockSocket { path: self.config.vsock_path.clone() });
        plan.push(
            LaunchStep::SetupTap {
                commands: setup_tap_device(self.config.tap.as_str(), host_ip.as_str(), "/30"),
            },
        );
        plan.push(
            LaunchStep::CopyRootfs {
                directory: in_directory(dir, "filesystems"),
                from: in_directory(dir, "build/rootfs.ext4"),
                to: in_directory(dir, rootfs.as_str()),
            },
        );
        plan.push(
            LaunchStep::SpawnHypervisor {
                program: in_directory(dir, "firecracker"),
                args: firecracker_args(self.config.api_socket.as_str(), config_path.as_str()),
                stdout: join2(id, ".out.log"),
                stderr: join2(id, ".err.log"),
            },
        );
        plan.push(LaunchStep::WaitForSocket { path: self.config.vsock_path.clone() });
        plan.push(LaunchStep::Connect { path: self.config.vsock_path.clone() });
        plan.push(LaunchStep::StartReader);
        plan
    }

    /// The steps that clean up after the VM: remove its TAP device, remove
    /// its two sockets, end its hypervisor.
    pub fn cleanup(&self) -> (plan: Vec<CleanupStep>)
        ensures
            is_cleanup_plan(plan@, self.config),
    {
        let mut plan: Vec<CleanupStep> = Vec::new();
        plan.push(CleanupStep::RemoveTap(cleanup_tap_device(self.config.tap.as_str())));
        plan.push(
            CleanupStep::RemoveApiSocket {
                argv: remove_socket_command(self.config.api_socket.as_str()),
            },
        );
        plan.push(CleanupStep::RemoveVsockSocket { path: self.config.vsock_path.clone() });
        plan.push(CleanupStep::TerminateChild);
        plan
    }

    /// Takes one message from the queue: the actor moves to its next
    /// status and asks its caller for the actions returned, in order.
    /// What is sent to the guest is what the message calls for, no more
    /// and no less.
    pub fn run(&mut self, msg: VmMessage, dir: &str) -> (actions: Vec<VmAction>)
        ensures
            final(self).config == old(self).config,
            final(self).status == next_status(old(self).status, msg),
            is_reaction(actions@, old(self).config, dir@, old(self).status, msg),
            sends_of(actions@) == sent_for(old(self).status, msg),
    {
        let mut actions: Vec<VmAction> = Vec::new();
        let open = match self.status {
            VmStatus::Connected | VmStatus::Running => true,
            _ => false,
        };
        match msg {
            VmMessage::StartVm => {
                if let VmStatus::New = self.status {
                    actions.push(VmAction::Launch(self.launch(dir)));
                    self.status = VmStatus::Launching;
                    proof {
                        reveal_with_fuel(sends_of, 2);
                    }
                }
            },
            VmMessage::Command(c) => {
                if open {
                    actions.push(VmAction::Send(Message::RunCommand(c)));
                    self.status = VmStatus::Running;
                    proof {
                        reveal_with_fuel(sends_of, 2);
                        assert(actions@ =~= seq![VmAction::Send(Message::RunCommand(c))]);
                        assert(sends_of(actions@) =~= seq![Message::RunCommand(c)]);
                    }
                }
            },
            VmMessage::WorkspaceCommand(w) => {
                if open {
                    actions.push(VmAction::Send(Message::RunWorkspace(w)));
                    self.status = VmStatus::Running;
                    proof {
                        reveal_with_fuel(sends_of, 2);
                        assert(actions@ =~= seq![VmAction::Send(Message::RunWorkspace(w))]);
                        assert(sends_of(actions@) =~= seq![Message::RunWorkspace(w)]);
                    }
                }
            },
            VmMessage::Shutdown => {
                if open {
                    actions.push(VmAction::Send(Message::Shutdown));
                    actions.push(VmAction::Cleanup(self.cleanup()));
                    self.status = VmStatus::ShuttingDown;
                    proof {
                        reveal_with_fuel(sends_of, 3);
                        assert(actions@.drop_first().drop_first() =~= Seq::<VmAction>::empty());
                        assert(sends_of(actions@) =~= seq![Message::Shutdown]);
                    }
                } else {
                    match self.status {
                        VmStatus::New => {
                            self.status = VmStatus::Terminated;
                        },
                        VmStatus::Launching => {
                            actions.push(VmAction::Cleanup(self.cleanup()));
                            self.status = VmStatus::ShuttingDown;
                            proof {
                                reveal_with_fuel(sends_of, 2);
                            }
                        },
                        _ => {},
                    }
                }
            },
        }
        actions
    }

    /// Takes the result of a launch. After a launch that succeeded the VM
    /// is connected. One that failed is fatal to the VM: what the launch
    /// left behind is cleaned up. Outside a launch nothing happens.
    pub fn launch_finished(&mut self, result: Result<(), LaunchError>) -> (actions: Vec<VmAction>)
        ensures
            final(self).config == old(self).config,
            old(self).status != VmStatus::Launching ==> final(self).status == old(self).status
                && actions@.len() == 0,
            old(self).status == VmStatus::Launching && result is Ok ==> final(self).status
                == VmStatus::Connected && actions@.len() == 0,
            old(self).status == VmStatus::Launching && result is Err ==> final(self).status
                == VmStatus::ShuttingDown && actions@.len() == 1 && (
            actions@[0] matches VmAction::Cleanup(plan) && is_cleanup_plan(
                plan@,
                old(self).config,
            )),
    {
        let mut actions: Vec<VmAction> = Vec::new();
        if let VmStatus::Launching = self.status {
            match result {
                Ok(_) => {
                    self.status = VmStatus::Connected;
                },
                Err(_) => {
                    actions.push(VmAction::Cleanup(self.cleanup()));
                    self.status = VmStatus::ShuttingDown;
                },
            }
        }
        actions
    }

    /// Takes the end of a cleanup: a VM that was shutting down is
    /// terminated, whether or not every step of the cleanup succeeded.
    pub fn cleanup_finished(&mut self)
        ensures
            final(self).config == old(self).config,
            final(self).status == after_cleanup(old(self).status),
    {
        if let VmStatus::ShuttingDown = self.status {
            self.status = VmStatus::Terminated;
        }
    }

    /// Whether the actor's loop is over.
    pub fn is_terminated(&self) -> (done: bool)
        ensures
            done == (self.status == VmStatus::Terminated),
    {
        match self.status {
            VmStatus::Terminated => true,
            _ => false,
        }
    }
}

/// The error of a launch whose stale API socket was dealt with as
/// `outcome` says: only a command that did not start is an error.
pub fn remove_existing_socket(outcome: RunOutcome) -> (r: Result<(), LaunchError>)
    ensures
        r == (if outcome == RunOutcome::NotStarted {
            Err::<(), LaunchError>(LaunchError::ApiSocket)
        } else {
            Ok(())
        }),
{
    match outcome {
        RunOutcome::NotStarted => Err(LaunchError::ApiSocket),
        _ => Ok(()),
    }
}

/// What the reading task does with what it received, or with `None`
/// where a frame could not be read or decoded: that ends the task.
pub fn handle_incoming(received: Option<Message>) -> (action: ReaderAction)
    ensures
        match received {
            None => action == ReaderAction::Stop,
            Some(Message::Hello) => action == ReaderAction::ReportHello,
            Some(Message::CommandOutput(o)) => action == ReaderAction::ReportOutput(o.output),
            Some(m) => action == ReaderAction::ReportOther(m),
        },
{
    match received {
        None => ReaderAction::Stop,
        Some(Message::Hello) => ReaderAction::ReportHello,
        Some(Message::CommandOutput(o)) => ReaderAction::ReportOutput(o.output),
        Some(m) => ReaderAction::ReportOther(m),
    }
}

} // verus!
