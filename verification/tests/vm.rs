use secure_exec::network::{NetworkStep, RunOutcome};
use secure_exec::protocol::{CommandOutput, Message, RunCommand, WorkspaceRunOptions};
use secure_exec::vm::{
    handle_incoming, remove_existing_socket, CleanupStep, LaunchError, LaunchStep, ReaderAction,
    VmAction, VmActor, VmConfig, VmMessage, VmStatus, COMMAND_QUEUE_CAPACITY,
};
use std::collections::HashMap;

fn echo(word: &str) -> RunCommand {
    RunCommand {
        command: "echo".to_string(),
        args: vec![word.to_string()],
        env: HashMap::new(),
        working_dir: None,
    }
}

fn connected(seq: usize) -> VmActor {
    let mut actor = VmActor::new(seq);
    let actions = actor.run(VmMessage::StartVm, "/srv");
    assert_eq!(actions.len(), 1);
    assert!(actor.launch_finished(Ok(())).is_empty());
    assert_eq!(actor.status, VmStatus::Connected);
    actor
}

fn check_cleanup(plan: &[CleanupStep], seq: usize) {
    assert_eq!(plan.len(), 4);
    match &plan[0] {
        CleanupStep::RemoveTap(c) => {
            assert_eq!(c.step, NetworkStep::RemoveTap);
            assert_eq!(c.argv.join(" "), format!("sudo ip link del tap{}", seq));
        }
        other => panic!("unexpected step {:?}", other),
    }
    assert_eq!(
        plan[1],
        CleanupStep::RemoveApiSocket {
            argv: vec![
                "sudo".to_string(),
                "rm".to_string(),
                "-f".to_string(),
                format!("/tmp/firecracker-{}.socket", seq)
            ]
        }
    );
    assert_eq!(
        plan[2],
        CleanupStep::RemoveVsockSocket { path: format!("/tmp/vsock-vm-{}.sock", seq) }
    );
    assert_eq!(plan[3], CleanupStep::TerminateChild);
}

#[test]
fn names_follow_from_the_sequence_number() {
    let c = VmConfig::new(1);
    assert_eq!(c.seq, 1);
    assert_eq!(c.id, "vm-1");
    assert_eq!(c.api_socket, "/tmp/firecracker-1.socket");
    assert_eq!(c.tap, "tap1");
    assert_eq!(c.host_ip, [172, 16, 0, 1]);
    assert_eq!(c.mac, [0x06, 0x00, 0xAC, 0x10, 0x00, 0x02]);
    assert_eq!(c.vsock_path, "/tmp/vsock-vm-1.sock");
}

#[test]
fn concurrent_vms_share_no_name() {
    let a = VmConfig::new(1);
    let b = VmConfig::new(2);
    assert_eq!(b.id, "vm-2");
    assert_eq!(b.tap, "tap2");
    assert_ne!(a.id, b.id);
    assert_ne!(a.tap, b.tap);
    assert_ne!(a.api_socket, b.api_socket);
    assert_ne!(a.vsock_path, b.vsock_path);
}

#[test]
fn large_sequence_numbers_are_written_in_full() {
    let c = VmConfig::new(1234567);
    assert_eq!(c.id, "vm-1234567");
    assert_eq!(c.tap, "tap1234567");
}

#[test]
fn queue_capacity() {
    assert_eq!(COMMAND_QUEUE_CAPACITY, 32);
}

#[test]
fn a_new_actor_is_new() {
    let actor = VmActor::new(3);
    assert_eq!(actor.status, VmStatus::New);
    assert_eq!(actor.config, VmConfig::new(3));
    assert_eq!(actor.config_name(), "vm-3-vm_config.json");
    assert!(!actor.is_terminated());
}

#[test]
fn config_edit_names_the_files_and_the_values() {
    let edit = VmActor::new(1).edit_vm_config("/srv/vms");
    assert_eq!(edit.template_path, "/srv/vms/crates/orchestrator/vm_config_template.json");
    assert_eq!(edit.config_path, "/srv/vms/vm-1-vm_config.json");
    assert_eq!(edit.kernel_image_path, "/srv/vms/vmlinux-kernel");
    assert_eq!(edit.drive_path, "/srv/vms/filesystems/vm-1.ext4");
    assert_eq!(edit.tap_name, "tap1");
    assert_eq!(edit.mac_address, "06:00:AC:10:00:02");
    assert_eq!(edit.log_path, "/srv/vms/vm-1-firecracker.log");
    assert_eq!(edit.vsock_uds_path, "/tmp/vsock-vm-1.sock");
}

#[test]
fn launch_takes_nine_steps_in_order() {
    let actor = VmActor::new(1);
    let plan = actor.launch("/srv");
    assert_eq!(plan.len(), 9);
    assert_eq!(plan[0], LaunchStep::WriteConfig(actor.edit_vm_config("/srv")));
    assert_eq!(
        plan[1],
        LaunchStep::RemoveApiSocket {
            argv: vec![
                "sudo".to_string(),
                "rm".to_string(),
                "-f".to_string(),
                "/tmp/firecracker-1.socket".to_string()
            ]
        }
    );
    assert_eq!(plan[2], LaunchStep::RemoveVsockSocket { path: "/tmp/vsock-vm-1.sock".to_string() });
    match &plan[3] {
        LaunchStep::SetupTap { commands } => {
            let lines: Vec<String> = commands.iter().map(|c| c.argv.join(" ")).collect();
            assert_eq!(
                lines,
                vec![
                    "sudo ip link del tap1",
                    "sudo ip tuntap add dev tap1 mode tap",
                    "sudo ip addr add 172.16.0.1/30 dev tap1",
                    "sudo ip link set dev tap1 up",
                ]
            );
        }
        other => panic!("unexpected step {:?}", other),
    }
    assert_eq!(
        plan[4],
        LaunchStep::CopyRootfs {
            directory: "/srv/filesystems".to_string(),
            from: "/srv/build/rootfs.ext4".to_string(),
            to: "/srv/filesystems/vm-1.ext4".to_string(),
        }
    );
    assert_eq!(
        plan[5],
        LaunchStep::SpawnHypervisor {
            program: "/srv/firecracker".to_string(),
            args: vec![
                "--api-sock".to_string(),
                "/tmp/firecracker-1.socket".to_string(),
                "--enable-pci".to_string(),
                "--config-file".to_string(),
                "/srv/vm-1-vm_config.json".to_string(),
            ],
            stdout: "vm-1.out.log".to_string(),
            stderr: "vm-1.err.log".to_string(),
        }
    );
    assert_eq!(plan[6], LaunchStep::WaitForSocket { path: "/tmp/vsock-vm-1.sock".to_string() });
    assert_eq!(plan[7], LaunchStep::Connect { path: "/tmp/vsock-vm-1.sock".to_string() });
    assert_eq!(plan[8], LaunchStep::StartReader);
}

#[test]
fn cleanup_removes_tap_sockets_and_child() {
    check_cleanup(&VmActor::new(1).cleanup(), 1);
    check_cleanup(&VmActor::new(2).cleanup(), 2);
}

#[test]
fn start_launches_a_new_vm() {
    let mut actor = VmActor::new(1);
    let actions = actor.run(VmMessage::StartVm, "/srv");
    assert_eq!(actions, vec![VmAction::Launch(VmActor::new(1).launch("/srv"))]);
    assert_eq!(actor.status, VmStatus::Launching);
    assert!(actor.launch_finished(Ok(())).is_empty());
    assert_eq!(actor.status, VmStatus::Connected);
}

#[test]
fn a_second_start_is_passed_over() {
    let mut actor = connected(1);
    assert!(actor.run(VmMessage::StartVm, "/srv").is_empty());
    assert_eq!(actor.status, VmStatus::Connected);
}

#[test]
fn a_failed_launch_goes_straight_to_cleanup() {
    let mut actor = VmActor::new(4);
    actor.run(VmMessage::StartVm, "/srv");
    let actions = actor.launch_finished(Err(LaunchError::Spawn));
    assert_eq!(actions.len(), 1);
    match &actions[0] {
        VmAction::Cleanup(plan) => check_cleanup(plan, 4),
        other => panic!("unexpected action {:?}", other),
    }
    assert_eq!(actor.status, VmStatus::ShuttingDown);
    actor.cleanup_finished();
    assert_eq!(actor.status, VmStatus::Terminated);
    assert!(actor.is_terminated());
}

#[test]
fn launch_results_outside_a_launch_change_nothing() {
    let mut actor = VmActor::new(1);
    assert!(actor.launch_finished(Ok(())).is_empty());
    assert_eq!(actor.status, VmStatus::New);
    let mut actor = connected(1);
    assert!(actor.launch_finished(Err(LaunchError::Config)).is_empty());
    assert_eq!(actor.status, VmStatus::Connected);
}

#[test]
fn boot_and_command() {
    let mut actor = connected(1);
    let actions = actor.run(VmMessage::Command(echo("hi")), "/srv");
    assert_eq!(actions, vec![VmAction::Send(Message::RunCommand(echo("hi")))]);
    assert_eq!(actor.status, VmStatus::Running);
}

#[test]
fn workspace_command_is_sent_as_run_workspace() {
    let mut actor = connected(1);
    let w = WorkspaceRunOptions { data: vec![1, 2], entrypoint: "run.sh".to_string() };
    let actions = actor.run(VmMessage::WorkspaceCommand(w.clone()), "/srv");
    assert_eq!(actions, vec![VmAction::Send(Message::RunWorkspace(w))]);
    assert_eq!(actor.status, VmStatus::Running);
}

#[test]
fn commands_are_sent_in_the_order_of_the_queue() {
    let mut actor = connected(1);
    let mut sent = Vec::new();
    let words = ["one", "two", "three", "four"];
    for word in words {
        for action in actor.run(VmMessage::Command(echo(word)), "/srv") {
            match action {
                VmAction::Send(m) => sent.push(m),
                other => panic!("unexpected action {:?}", other),
            }
        }
    }
    let expected: Vec<Message> = words.iter().map(|w| Message::RunCommand(echo(w))).collect();
    assert_eq!(sent, expected);
}

#[test]
fn commands_before_the_channel_is_open_are_dropped() {
    let mut actor = VmActor::new(1);
    assert!(actor.run(VmMessage::Command(echo("early")), "/srv").is_empty());
    assert_eq!(actor.status, VmStatus::New);
    actor.run(VmMessage::StartVm, "/srv");
    assert!(actor.run(VmMessage::Command(echo("early")), "/srv").is_empty());
    assert_eq!(actor.status, VmStatus::Launching);
}

#[test]
fn shutdown_cleanliness() {
    let mut actor = connected(1);
    let actions = actor.run(VmMessage::Shutdown, "/srv");
    assert_eq!(actions.len(), 2);
    assert_eq!(actions[0], VmAction::Send(Message::Shutdown));
    match &actions[1] {
        VmAction::Cleanup(plan) => check_cleanup(plan, 1),
        other => panic!("unexpected action {:?}", other),
    }
    assert_eq!(actor.status, VmStatus::ShuttingDown);
    assert!(!actor.is_terminated());
    actor.cleanup_finished();
    assert_eq!(actor.status, VmStatus::Terminated);
    assert!(actor.is_terminated());
}

#[test]
fn shutdown_of_a_running_vm() {
    let mut actor = connected(2);
    actor.run(VmMessage::Command(echo("x")), "/srv");
    assert_eq!(actor.status, VmStatus::Running);
    let actions = actor.run(VmMessage::Shutdown, "/srv");
    assert_eq!(actions.len(), 2);
    assert_eq!(actor.status, VmStatus::ShuttingDown);
}

#[test]
fn shutdown_of_a_vm_that_never_started_has_nothing_to_clean() {
    let mut actor = VmActor::new(1);
    assert!(actor.run(VmMessage::Shutdown, "/srv").is_empty());
    assert_eq!(actor.status, VmStatus::Terminated);
}

#[test]
fn shutdown_during_launch_cleans_up_without_sending() {
    let mut actor = VmActor::new(1);
    actor.run(VmMessage::StartVm, "/srv");
    let actions = actor.run(VmMessage::Shutdown, "/srv");
    assert_eq!(actions.len(), 1);
    assert!(matches!(actions[0], VmAction::Cleanup(_)));
    assert_eq!(actor.status, VmStatus::ShuttingDown);
}

#[test]
fn nothing_happens_after_shutdown() {
    let mut actor = connected(1);
    actor.run(VmMessage::Shutdown, "/srv");
    for status in [VmStatus::ShuttingDown, VmStatus::Terminated] {
        assert_eq!(actor.status, status);
        assert!(actor.run(VmMessage::Command(echo("late")), "/srv").is_empty());
        assert!(actor.run(VmMessage::StartVm, "/srv").is_empty());
        assert!(actor.run(VmMessage::Shutdown, "/srv").is_empty());
        assert_eq!(actor.status, status);
        actor.cleanup_finished();
    }
}

#[test]
fn cleanup_results_outside_a_shutdown_change_nothing() {
    let mut actor = connected(1);
    actor.cleanup_finished();
    assert_eq!(actor.status, VmStatus::Connected);
}

#[test]
fn a_command_that_does_not_start_fails_the_socket_removal() {
    assert_eq!(remove_existing_socket(RunOutcome::Succeeded), Ok(()));
    assert_eq!(remove_existing_socket(RunOutcome::Failed), Ok(()));
    assert_eq!(remove_existing_socket(RunOutcome::NotStarted), Err(LaunchError::ApiSocket));
}

#[test]
fn the_reader_reports_and_stops_on_errors() {
    assert_eq!(handle_incoming(Some(Message::Hello)), ReaderAction::ReportHello);
    assert_eq!(
        handle_incoming(Some(Message::CommandOutput(CommandOutput { output: "hi".to_string() }))),
        ReaderAction::ReportOutput("hi".to_string())
    );
    assert_eq!(
        handle_incoming(Some(Message::Shutdown)),
        ReaderAction::ReportOther(Message::Shutdown)
    );
    assert_eq!(
        handle_incoming(Some(Message::RunCommand(echo("x")))),
        ReaderAction::ReportOther(Message::RunCommand(echo("x")))
    );
    assert_eq!(handle_incoming(None), ReaderAction::Stop);
}
