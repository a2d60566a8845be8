use xnode_manager::config::handlers::{change, get, nspawn_conf, dropin_conf, parse_conf, validate};
use xnode_manager::config::models::{ConfigurationAction, ContainerSettings};
use xnode_manager::request::handlers::RequestIdAllocator;
use xnode_manager::request::job::{Failure, JobRun, OnFailure, Operation, Outcome, Plan};
use xnode_manager::request::models::RequestIdResult;
use xnode_manager::utils::command::{CommandExecutionMode, CommandOutputError, IoErrorKind, IoFailure};
use xnode_manager::utils::env::Locations;

fn locations() -> Locations {
    Locations {
        containersettings: "/data/containers".to_string(),
        containerstate: "/var/lib/nixos-containers".to_string(),
        containerprofile: "/nix/var/nix/profiles/per-container".to_string(),
        containerconfig: "/etc/nixos-containers".to_string(),
        systemdconfig: "/etc/systemd/system".to_string(),
        osdir: "/etc/nixos".to_string(),
        nix: "/bin/".to_string(),
        nixosrebuild: "/bin/".to_string(),
        systemd: "/bin/".to_string(),
        e2fsprogs: "/bin/".to_string(),
        buildcores: 4,
    }
}

fn settings(flake: &str) -> ContainerSettings {
    ContainerSettings { flake: flake.to_string(), network: None, nvidia_gpus: None }
}

fn set_action(id: &str, update_inputs: Option<Vec<String>>) -> ConfigurationAction {
    ConfigurationAction::SetContainer { container: id.to_string(), settings: settings("{ outputs = _: {}; }"), update_inputs }
}

fn absent() -> Outcome {
    Outcome::Failed { failure: Failure::Io { e: IoFailure { kind: IoErrorKind::NotFound, message: "No such file or directory (os error 2)".to_string() } } }
}

fn words(op: &Operation) -> Vec<String> {
    match op {
        Operation::Run { command, .. } => {
            let mut w = vec![command.program.clone()];
            w.extend(command.args.iter().cloned());
            w
        }
        _ => vec![],
    }
}

/// Carries out a job, answering each step with `answer`, and lists the
/// steps carried out.
fn run(plan: Plan, mut answer: impl FnMut(usize, &Operation) -> Outcome) -> (JobRun, Vec<Operation>) {
    let mut job = JobRun::new(plan);
    let mut seen = vec![];
    let mut n = 0;
    while let Some(step) = job.current() {
        let op = clone_op(&step.op);
        let outcome = answer(n, &op);
        seen.push(op);
        job.report(outcome);
        n += 1;
    }
    (job, seen)
}

fn clone_op(op: &Operation) -> Operation {
    match op {
        Operation::CreateDir { path } => Operation::CreateDir { path: path.clone() },
        Operation::WriteFile { path, content } => Operation::WriteFile { path: path.clone(), content: content.clone() },
        Operation::WriteHostPlatform { path } => Operation::WriteHostPlatform { path: path.clone() },
        Operation::CopyDir { from, to } => Operation::CopyDir { from: from.clone(), to: to.clone() },
        Operation::RemoveDir { path } => Operation::RemoveDir { path: path.clone() },
        Operation::RemoveFile { path } => Operation::RemoveFile { path: path.clone() },
        Operation::Run { command, mode } => {
            let mut c = xnode_manager::utils::command::ExternalCommand::new(command.program.clone());
            for a in &command.args {
                c.arg(a.clone());
            }
            Operation::Run {
                command: c,
                mode: match mode {
                    CommandExecutionMode::Simple => CommandExecutionMode::Simple,
                    CommandExecutionMode::Stream { request_id } => CommandExecutionMode::Stream { request_id: *request_id },
                },
            }
        }
    }
}

#[test]
fn set_success_creates_profile_state_and_conf() {
    let l = locations();
    let (job, seen) = run(change(&vec![set_action("web1", None)], &l, 1), |_, _| Outcome::Done { output: b"x86_64\n".to_vec() });
    assert!(matches!(job.result(), Some(RequestIdResult::Success { body: None })));
    assert_eq!(seen.len(), 16);
    assert!(seen.iter().any(|o| matches!(o, Operation::CreateDir { path } if path == "/nix/var/nix/profiles/per-container/web1")));
    assert!(seen.iter().any(|o| matches!(o, Operation::CreateDir { path } if path == "/var/lib/nixos-containers/web1")));
    assert!(seen.iter().any(|o| matches!(o, Operation::WriteFile { path, content } if path == "/etc/nixos-containers/web1.conf" && content == "EXTRA_NSPAWN_FLAGS=\"\"")));
    assert_eq!(words(&seen[15]), vec!["/bin/systemctl", "reload-or-restart", "container@web1"]);
    assert_eq!(
        words(&seen[14]),
        vec![
            "/bin/nix",
            "build",
            "--profile",
            "/nix/var/nix/profiles/per-container/web1/system",
            "/data/containers/web1#nixosConfigurations.container.config.system.build.toplevel",
        ]
    );
}

#[test]
fn set_with_inputs_updates_them_first() {
    let l = locations();
    let plan = change(&vec![set_action("web1", Some(vec!["nixpkgs".to_string(), "xnode".to_string()]))], &l, 3);
    assert_eq!(plan.steps.len(), 17);
    assert_eq!(
        words(&plan.steps[2].op),
        vec!["/bin/nix", "flake", "update", "nixpkgs", "xnode", "--flake", "/data/containers/web1"]
    );
    assert!(matches!(plan.steps[2].op, Operation::Run { mode: CommandExecutionMode::Stream { request_id: 3 }, .. }));
}

#[test]
fn set_build_failure_reports_stderr_and_stops() {
    let l = locations();
    let (job, seen) = run(change(&vec![set_action("web1", None)], &l, 1), |n, _| {
        if n == 14 {
            Outcome::Failed { failure: Failure::Command { e: CommandOutputError::OutputError { output: b"error: flake has no nixosConfigurations".to_vec() } } }
        } else {
            Outcome::Done { output: b"aarch64\n".to_vec() }
        }
    });
    assert_eq!(seen.len(), 15);
    match job.result() {
        Some(RequestIdResult::Error { error }) => assert_eq!(
            error,
            "Error building configuration /data/containers/web1: error: flake has no nixosConfigurations"
        ),
        _ => panic!("expected an error"),
    }
}

#[test]
fn set_update_failure_writes_no_conf_or_state() {
    let l = locations();
    let plan = change(&vec![set_action("web1", Some(vec!["nixpkgs".to_string()]))], &l, 1);
    let (job, seen) = run(plan, |n, _| {
        if n == 2 {
            Outcome::Failed { failure: Failure::Command { e: CommandOutputError::OutputError { output: b"cannot fetch".to_vec() } } }
        } else {
            Outcome::Done { output: vec![] }
        }
    });
    assert_eq!(seen.len(), 3);
    assert!(!seen.iter().any(|o| matches!(o, Operation::WriteFile { path, .. } if path.ends_with(".conf"))));
    assert!(matches!(job.result(), Some(RequestIdResult::Error { error }) if error == "Error flake updating nixos container web1: cannot fetch"));
}

#[test]
fn remove_with_profile_already_gone_succeeds() {
    let l = locations();
    let plan = change(&vec![ConfigurationAction::RemoveContainer { container: "web1".to_string(), backup: false }], &l, 2);
    let (job, seen) = run(plan, |n, _| if n == 1 { absent() } else { Outcome::Done { output: vec![] } });
    assert_eq!(seen.len(), 8);
    assert!(matches!(&seen[1], Operation::RemoveDir { path } if path == "/nix/var/nix/profiles/per-container/web1"));
    assert!(matches!(job.result(), Some(RequestIdResult::Success { body: None })));
}

#[test]
fn scenario_set_web1_then_listed() {
    let l = locations();
    let mut ids = RequestIdAllocator::from_existing(&vec![]);
    let request_id = ids.allocate().unwrap();
    assert_eq!(request_id, 1);
    let actions = vec![set_action("web1", None)];
    assert!(validate(&actions).is_ok());
    let (job, seen) = run(change(&actions, &l, request_id), |_, _| Outcome::Done { output: b"x86_64\n".to_vec() });
    assert!(matches!(job.result(), Some(RequestIdResult::Success { body: None })));
    assert!(matches!(&seen[0], Operation::CreateDir { path } if path == "/data/containers/web1"));
}

#[test]
fn scenario_remove_ghost_succeeds() {
    let l = locations();
    let plan = change(&vec![ConfigurationAction::RemoveContainer { container: "ghost".to_string(), backup: false }], &l, 1);
    let (job, seen) = run(plan, |_, op| match op {
        Operation::Run { command, .. } if command.args.iter().any(|a| a == "daemon-reload") => Outcome::Done { output: vec![] },
        Operation::Run { .. } => Outcome::Failed { failure: Failure::Command { e: CommandOutputError::OutputError { output: b"Unit not loaded".to_vec() } } },
        _ => absent(),
    });
    assert_eq!(seen.len(), 8);
    assert!(matches!(job.result(), Some(RequestIdResult::Success { body: None })));
}

#[test]
fn remove_steps_and_policies() {
    let l = locations();
    let plan = change(&vec![ConfigurationAction::RemoveContainer { container: "c".to_string(), backup: true }], &l, 9);
    let policies: Vec<OnFailure> = plan.steps.iter().map(|s| s.on_failure).collect();
    assert_eq!(
        policies,
        vec![
            OnFailure::Ignore,
            OnFailure::AbsentOk,
            OnFailure::Ignore,
            OnFailure::AbsentOkRetryNotEmpty,
            OnFailure::AbsentOk,
            OnFailure::AbsentOk,
            OnFailure::Abort,
            OnFailure::AbsentOk,
        ]
    );
    assert_eq!(words(&plan.steps[2].op), vec!["/bin/chattr", "-i", "/var/lib/nixos-containers/c/var/empty"]);
    assert!(matches!(&plan.steps[5].op, Operation::RemoveFile { path } if path == "/etc/systemd/system/container@c.service.d/99-XnodeManager.conf"));
}

#[test]
fn batch_stops_at_the_first_failing_action() {
    let l = locations();
    let actions = vec![
        ConfigurationAction::RemoveContainer { container: "a".to_string(), backup: false },
        ConfigurationAction::UpdateContainer { container: "b".to_string(), inputs: vec!["nixpkgs".to_string()] },
    ];
    let plan = change(&actions, &l, 5);
    assert_eq!(plan.steps.len(), 8 + 11);
    let (job, seen) = run(plan, |n, _| {
        if n == 6 {
            Outcome::Failed { failure: Failure::Command { e: CommandOutputError::OutputError { output: b"reload failed".to_vec() } } }
        } else {
            Outcome::Done { output: vec![] }
        }
    });
    assert_eq!(seen.len(), 7);
    assert!(matches!(job.result(), Some(RequestIdResult::Error { error }) if error == "Error reloading systemd daemon: reload failed"));
}

#[test]
fn invalid_container_ids_are_refused() {
    for id in ["", "a/b", ".", ".."] {
        let e = validate(&vec![set_action(id, None)]).err().unwrap();
        assert_eq!(e.error, format!("Invalid container id: {}", id));
    }
    assert!(validate(&vec![set_action("...", None)]).is_ok());
}

#[test]
fn conf_file_for_network_and_gpus() {
    assert_eq!(
        nspawn_conf(&Some("zone1".to_string()), &Some(vec![0, 1])),
        "EXTRA_NSPAWN_FLAGS=\"--network-zone=zone1 --bind-ro=/dev/nvidia0 --bind-ro=/dev/nvidia1 --bind-ro=/dev/nvidiactl --bind-ro=/dev/nvidia-modeset --bind-ro=/dev/nvidia-uvm --bind-ro=/dev/nvidia-uvm-tools\""
    );
    assert_eq!(nspawn_conf(&None, &None), "EXTRA_NSPAWN_FLAGS=\"\"");
    assert_eq!(dropin_conf(&None), "[Service]");
    assert_eq!(
        dropin_conf(&Some(vec![2])),
        "[Service]\nDeviceAllow=/dev/nvidia2 rw\nDeviceAllow=/dev/nvidiactl rw\nDeviceAllow=/dev/nvidia-caps* rw\nDeviceAllow=/dev/nvidia-modeset rw\nDeviceAllow=/dev/nvidia-uvm rw\nDeviceAllow=/dev/nvidia-uvm-tools rw"
    );
}

#[test]
fn conf_file_reads_back() {
    let text = nspawn_conf(&Some("zone1".to_string()), &Some(vec![3, 12]));
    assert_eq!(parse_conf(&text), (Some("zone1".to_string()), Some(vec![3, 12])));
    assert_eq!(parse_conf(&nspawn_conf(&None, &Some(vec![]))), (None, Some(vec![])));
    assert_eq!(parse_conf("EXTRA_NSPAWN_FLAGS=\"\""), (None, None));
    assert_eq!(parse_conf("nothing quoted"), (None, None));
    assert_eq!(parse_conf("X=\"--bind-ro=/dev/nvidiaX --bind-ro=/dev/sda\""), (None, Some(vec![])));
}

#[test]
fn get_container_configuration() {
    let l = locations();
    let c = get(&l, "web1", Ok("flake".to_string()), None, Ok("EXTRA_NSPAWN_FLAGS=\"--network-zone=z\"".to_string())).ok().unwrap();
    assert_eq!(c.flake, "flake");
    assert_eq!(c.network, Some("z".to_string()));
    assert_eq!(c.nvidia_gpus, None);
    let e = get(&l, "web1", Err(IoFailure { kind: IoErrorKind::NotFound, message: "nf".to_string() }), None, Ok(String::new())).err().unwrap();
    assert_eq!(e.error, "Could not read container flake config /data/containers/web1/flake.nix: nf");
    let e = get(&l, "web1", Ok(String::new()), None, Err(IoFailure { kind: IoErrorKind::Other, message: "denied".to_string() })).err().unwrap();
    assert_eq!(e.error, "Could not read container config /etc/nixos-containers/web1.conf: denied");
}
