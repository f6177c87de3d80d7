use secure_exec::guest::{
    command_reply, configure_network, handle_messages, handle_run_individual_command,
    handle_run_workspace, judge_mount, mount_drives, next_stage, workspace_reply, GuestAction,
    GuestAgentError, InitStage, MountOutcome, MountPoint, WorkspaceStep, ENTRYPOINT_MODE,
};
use secure_exec::protocol::{CommandOutput, Message, RunCommand, WorkspaceRunOptions};
use std::collections::HashMap;

fn echo_hi() -> RunCommand {
    RunCommand {
        command: "echo".to_string(),
        args: vec!["hi".to_string()],
        env: HashMap::new(),
        working_dir: None,
    }
}

#[test]
fn mounts_dev_only_when_dev_null_is_missing() {
    let plan = mount_drives(false);
    assert_eq!(plan.len(), 3);
    assert_eq!(plan[0].point, MountPoint::Dev);
    assert_eq!(plan[0].fstype, "devtmpfs");
    assert_eq!(plan[0].target, "/dev");
    assert_eq!(plan[1].point, MountPoint::Proc);
    assert_eq!(plan[1].fstype, "proc");
    assert_eq!(plan[1].target, "/proc");
    assert_eq!(plan[2].point, MountPoint::Sys);
    assert_eq!(plan[2].fstype, "sysfs");
    assert_eq!(plan[2].target, "/sys");

    let plan = mount_drives(true);
    assert_eq!(plan.len(), 2);
    assert_eq!(plan[0].point, MountPoint::Proc);
    assert_eq!(plan[1].point, MountPoint::Sys);
}

#[test]
fn a_busy_dev_is_accepted_and_nothing_else() {
    assert_eq!(judge_mount(MountPoint::Dev, MountOutcome::Mounted), Ok(()));
    assert_eq!(judge_mount(MountPoint::Dev, MountOutcome::Busy), Ok(()));
    assert_eq!(
        judge_mount(MountPoint::Dev, MountOutcome::Failed),
        Err(GuestAgentError::MountFailed(MountPoint::Dev))
    );
    for point in [MountPoint::Proc, MountPoint::Sys] {
        assert_eq!(judge_mount(point, MountOutcome::Mounted), Ok(()));
        assert_eq!(judge_mount(point, MountOutcome::Busy), Err(GuestAgentError::MountFailed(point)));
        assert_eq!(
            judge_mount(point, MountOutcome::Failed),
            Err(GuestAgentError::MountFailed(point))
        );
    }
}

#[test]
fn guest_network_is_bit_exact() {
    let plan = configure_network();
    let lines: Vec<String> = plan.commands.iter().map(|c| c.join(" ")).collect();
    assert_eq!(
        lines,
        vec![
            "ip link set dev lo up",
            "ip link set dev eth0 up",
            "ip addr add 172.16.0.2/30 dev eth0",
            "ip route add default via 172.16.0.1 dev eth0",
        ]
    );
    assert_eq!(plan.resolver_path, "/etc/resolv.conf");
    assert_eq!(plan.resolver_contents, "nameserver 8.8.8.8\n");
}

#[test]
fn a_command_runs_in_the_root_directory_by_default() {
    let p = handle_run_individual_command(echo_hi());
    assert_eq!(p.program, "echo");
    assert_eq!(p.args, vec!["hi"]);
    assert!(p.env.is_empty());
    assert_eq!(p.working_dir, "/");
}

#[test]
fn a_command_keeps_its_directory_and_environment() {
    let mut env = HashMap::new();
    env.insert("KEY".to_string(), "value".to_string());
    let cmd = RunCommand {
        command: "/usr/bin/env".to_string(),
        args: vec![],
        env: env.clone(),
        working_dir: Some("/srv/job".to_string()),
    };
    let p = handle_run_individual_command(cmd);
    assert_eq!(p.program, "/usr/bin/env");
    assert!(p.args.is_empty());
    assert_eq!(p.env, env);
    assert_eq!(p.working_dir, "/srv/job");
}

#[test]
fn workspace_steps_are_five_in_order() {
    let w = WorkspaceRunOptions { data: vec![1, 2, 3], entrypoint: "run.sh".to_string() };
    let plan = handle_run_workspace(w);
    assert_eq!(plan.len(), 5);
    assert_eq!(plan[0], WorkspaceStep::ResetDirectory { path: "/tmp/workspace".to_string() });
    assert_eq!(
        plan[1],
        WorkspaceStep::WriteFile {
            path: "/tmp/workspace/code.tar".to_string(),
            contents: vec![1, 2, 3]
        }
    );
    match &plan[2] {
        WorkspaceStep::Extract { argv } => {
            assert_eq!(argv.join(" "), "tar -xf /tmp/workspace/code.tar -C /tmp/workspace")
        }
        other => panic!("unexpected step {:?}", other),
    }
    assert_eq!(
        plan[3],
        WorkspaceStep::SetMode { path: "/tmp/workspace/run.sh".to_string(), mode: 0o755 }
    );
    match &plan[4] {
        WorkspaceStep::Run { process } => {
            assert_eq!(process.program, "/bin/sh");
            assert_eq!(process.args, vec!["/tmp/workspace/run.sh"]);
            assert!(process.env.is_empty());
            assert_eq!(process.working_dir, "/tmp/workspace");
        }
        other => panic!("unexpected step {:?}", other),
    }
    assert_eq!(ENTRYPOINT_MODE, 0o755);
}

#[test]
fn workspace_entrypoint_may_lie_in_a_subdirectory() {
    let w = WorkspaceRunOptions { data: vec![], entrypoint: "bin/start".to_string() };
    let plan = handle_run_workspace(w);
    assert_eq!(
        plan[3],
        WorkspaceStep::SetMode { path: "/tmp/workspace/bin/start".to_string(), mode: 0o755 }
    );
}

#[test]
fn command_output_is_trimmed() {
    assert_eq!(
        command_reply(b"hi\n"),
        Message::CommandOutput(CommandOutput { output: "hi".to_string() })
    );
    assert_eq!(
        command_reply(b"  two words \r\n\n"),
        Message::CommandOutput(CommandOutput { output: "two words".to_string() })
    );
    assert_eq!(command_reply(b""), Message::CommandOutput(CommandOutput { output: String::new() }));
}

#[test]
fn command_output_is_decoded_leniently() {
    assert_eq!(
        command_reply(b"a\xffb\n"),
        Message::CommandOutput(CommandOutput { output: "a\u{fffd}b".to_string() })
    );
    assert_eq!(
        command_reply("gr\u{fc}n\n".as_bytes()),
        Message::CommandOutput(CommandOutput { output: "gr\u{fc}n".to_string() })
    );
}

#[test]
fn workspace_output_is_sent_on_success_only() {
    assert_eq!(
        workspace_reply(true, b"workspace-ok\n"),
        Ok(Message::CommandOutput(CommandOutput { output: "workspace-ok".to_string() }))
    );
    assert_eq!(workspace_reply(false, b"workspace-ok\n"), Err(GuestAgentError::EntrypointFailed));
    assert_eq!(workspace_reply(false, b""), Err(GuestAgentError::EntrypointFailed));
}

#[test]
fn hello_is_answered_with_hello() {
    assert_eq!(handle_messages(Some(Message::Hello)), GuestAction::Reply(Message::Hello));
}

#[test]
fn shutdown_and_a_failed_receive_end_the_loop() {
    assert_eq!(handle_messages(Some(Message::Shutdown)), GuestAction::Exit);
    assert_eq!(handle_messages(None), GuestAction::Exit);
}

#[test]
fn run_command_starts_the_process() {
    match handle_messages(Some(Message::RunCommand(echo_hi()))) {
        GuestAction::RunCommand(p) => {
            assert_eq!(p.program, "echo");
            assert_eq!(p.args, vec!["hi"]);
            assert_eq!(p.working_dir, "/");
        }
        other => panic!("unexpected action {:?}", other),
    }
}

#[test]
fn run_workspace_yields_the_steps() {
    let w = WorkspaceRunOptions { data: vec![9], entrypoint: "run.sh".to_string() };
    match handle_messages(Some(Message::RunWorkspace(w.clone()))) {
        GuestAction::RunWorkspace(plan) => assert_eq!(plan, handle_run_workspace(w)),
        other => panic!("unexpected action {:?}", other),
    }
}

#[test]
fn other_messages_are_passed_over() {
    let m = Message::CommandOutput(CommandOutput { output: "x".to_string() });
    assert_eq!(handle_messages(Some(m)), GuestAction::Ignore);
}

#[test]
fn stages_follow_one_another_and_errors_power_off() {
    assert_eq!(next_stage(InitStage::Mounting, true), InitStage::Networking);
    assert_eq!(next_stage(InitStage::Networking, true), InitStage::Listening);
    assert_eq!(next_stage(InitStage::Listening, true), InitStage::Serving);
    assert_eq!(next_stage(InitStage::Serving, true), InitStage::PoweringOff);
    assert_eq!(next_stage(InitStage::PoweringOff, true), InitStage::PoweringOff);
    for stage in [
        InitStage::Mounting,
        InitStage::Networking,
        InitStage::Listening,
        InitStage::Serving,
        InitStage::PoweringOff,
    ] {
        assert_eq!(next_stage(stage, false), InitStage::PoweringOff);
    }
}
