use xnode_manager::request::handlers::{
    command_info, get_request_id, request_dir, request_info, step_dir, JobRecord,
    RequestIdAllocator, StepEntry,
};
use xnode_manager::request::job::{Failure, JobRun, OnFailure, Operation, Outcome, Plan, Step};
use xnode_manager::request::models::RequestIdResult;
use xnode_manager::utils::command::{
    CommandExecutionMode, CommandOutputError, ExternalCommand, IoErrorKind, IoFailure,
};
use xnode_manager::utils::output::Output;

fn names(v: &[&str]) -> Vec<String> {
    v.iter().map(|s| s.to_string()).collect()
}

fn io(kind: IoErrorKind, message: &str) -> IoFailure {
    IoFailure { kind, message: message.to_string() }
}

fn step(op: Operation, on_failure: OnFailure, context: &str) -> Step {
    Step { op, on_failure, context: context.to_string() }
}

fn mkdir(path: &str) -> Operation {
    Operation::CreateDir { path: path.to_string() }
}

fn done() -> Outcome {
    Outcome::Done { output: vec![] }
}

#[test]
fn allocated_ids_increase_across_restart() {
    let mut a = RequestIdAllocator::from_existing(&names(&["3", "abc", "10", "7"]));
    let first = a.allocate().unwrap();
    let second = a.allocate().unwrap();
    assert_eq!(first, 11);
    assert_eq!(second, 12);
    // a restart rescans the records the two jobs left
    let mut b = RequestIdAllocator::from_existing(&names(&["3", "abc", "10", "7", "11", "12"]));
    let third = b.allocate().unwrap();
    assert_eq!(third, 13);
    assert!(first < second && second < third);
}

#[test]
fn first_request_id_of_empty_store_is_one() {
    assert_eq!(get_request_id(&vec![]), Some(1));
    let mut a = RequestIdAllocator::from_existing(&vec![]);
    assert_eq!(a.allocate(), Some(1));
}

#[test]
fn request_id_names_that_are_not_ids_count_as_zero() {
    assert_eq!(get_request_id(&names(&["x", "", "-4", "+8", "99999999999"])), Some(9));
}

#[test]
fn request_ids_run_out_at_the_largest_u32() {
    assert_eq!(get_request_id(&names(&["4294967294"])), Some(4294967295));
    assert_eq!(get_request_id(&names(&["4294967295"])), None);
    let mut a = RequestIdAllocator::from_existing(&names(&["4294967294"]));
    assert_eq!(a.allocate(), Some(4294967295));
    assert_eq!(a.allocate(), None);
    assert_eq!(a.allocate(), None);
}

#[test]
fn job_result_is_none_until_set_and_then_kept() {
    let mut rec = JobRecord::new();
    assert!(rec.status().result.is_none());
    let written = rec.persist_result(RequestIdResult::Success { body: Some("ok".to_string()) });
    assert!(written);
    let again = rec.persist_result(RequestIdResult::Error { error: "late".to_string() });
    assert!(!again);
    for _ in 0..2 {
        match rec.status().result {
            Some(RequestIdResult::Success { body }) => assert_eq!(body, Some("ok".to_string())),
            _ => panic!("the first result must stay"),
        }
    }
}

#[test]
fn request_info_lists_step_directories() {
    let entries = vec![
        StepEntry { name: Some("1700000000000".to_string()), is_dir: true },
        StepEntry { name: Some("result".to_string()), is_dir: false },
        StepEntry { name: None, is_dir: true },
        StepEntry { name: Some("1700000000500".to_string()), is_dir: true },
    ];
    let info = request_info(&entries, None);
    assert_eq!(info.commands, names(&["1700000000000", "1700000000500"]));
    assert!(info.result.is_none());
}

#[test]
fn request_info_orders_steps_by_start() {
    let dir = |n: &str| StepEntry { name: Some(n.to_string()), is_dir: true };
    let info = request_info(&vec![dir("1700000000500"), dir("1700000000000"), dir("9"), dir("1700000000000")], None);
    assert_eq!(info.commands, names(&["9", "1700000000000", "1700000000000", "1700000000500"]));
}

#[test]
fn request_and_step_directories() {
    assert_eq!(request_dir("/var/lib/xnode-manager/commandstream", 42), "/var/lib/xnode-manager/commandstream/42");
    assert_eq!(step_dir("/cs/", 7, 1700000000123), "/cs/7/1700000000123");
}

#[test]
fn command_info_reads_back_a_step() {
    let info = command_info(
        "/cs/1/5",
        Ok("\"echo\" \"hi\"".to_string()),
        Ok(b"hi\n".to_vec()),
        Ok(vec![0xff, 0x00]),
        Some("0".to_string()),
    )
    .ok()
    .unwrap();
    assert_eq!(info.command, "\"echo\" \"hi\"");
    assert!(matches!(info.stdout, Output::UTF8 { ref output } if output == "hi\n"));
    assert!(matches!(info.stderr, Output::Bytes { ref output } if output == &vec![0xff, 0x00]));
    assert_eq!(info.result, Some("0".to_string()));
}

#[test]
fn command_info_of_unknown_step_fails() {
    let e = command_info(
        "/cs/1/5",
        Err(io(IoErrorKind::NotFound, "No such file or directory (os error 2)")),
        Ok(vec![]),
        Ok(vec![]),
        None,
    )
    .err()
    .unwrap();
    assert_eq!(e.error, "Error reading command from /cs/1/5/command: No such file or directory (os error 2)");
    let e = command_info("/cs/1/5", Ok(String::new()), Ok(vec![]), Err(io(IoErrorKind::Other, "denied")), None)
        .err()
        .unwrap();
    assert_eq!(e.error, "Error reading stderr from /cs/1/5/stderr: denied");
}

#[test]
fn empty_plan_succeeds_at_once() {
    let job = JobRun::new(Plan { steps: vec![], body_from_output: false });
    assert!(job.is_finished());
    assert!(matches!(job.result(), Some(RequestIdResult::Success { body: None })));
}

#[test]
fn failed_required_step_ends_the_job() {
    let mut job = JobRun::new(Plan {
        steps: vec![
            step(mkdir("/a"), OnFailure::Abort, "Error creating /a"),
            step(mkdir("/b"), OnFailure::Abort, "Error creating /b"),
        ],
        body_from_output: false,
    });
    job.report(Outcome::Failed { failure: Failure::Io { e: io(IoErrorKind::Other, "Permission denied") } });
    assert!(job.is_finished());
    assert!(job.current().is_none());
    match job.result() {
        Some(RequestIdResult::Error { error }) => assert_eq!(error, "Error creating /a: Permission denied"),
        _ => panic!("expected an error"),
    }
    // reports after the end change nothing
    job.report(done());
    assert!(matches!(job.result(), Some(RequestIdResult::Error { .. })));
}

#[test]
fn ignored_failure_lets_the_job_go_on() {
    let mut job = JobRun::new(Plan {
        steps: vec![step(mkdir("/a"), OnFailure::Ignore, "x"), step(mkdir("/b"), OnFailure::Abort, "y")],
        body_from_output: false,
    });
    job.report(Outcome::Failed { failure: Failure::Io { e: io(IoErrorKind::Other, "busy") } });
    assert!(!job.is_finished());
    assert!(matches!(&job.current().unwrap().op, Operation::CreateDir { path } if path == "/b"));
    job.report(done());
    assert!(matches!(job.result(), Some(RequestIdResult::Success { body: None })));
}

#[test]
fn absent_target_counts_as_removed_but_other_failures_do_not() {
    let remove = || Operation::RemoveDir { path: "/gone".to_string() };
    let mut job = JobRun::new(Plan { steps: vec![step(remove(), OnFailure::AbsentOk, "rm")], body_from_output: false });
    job.report(Outcome::Failed { failure: Failure::Io { e: io(IoErrorKind::NotFound, "nf") } });
    assert!(matches!(job.result(), Some(RequestIdResult::Success { body: None })));

    let mut job = JobRun::new(Plan { steps: vec![step(remove(), OnFailure::AbsentOk, "rm")], body_from_output: false });
    job.report(Outcome::Failed { failure: Failure::Io { e: io(IoErrorKind::Other, "denied") } });
    assert!(matches!(job.result(), Some(RequestIdResult::Error { error }) if error == "rm: denied"));
}

#[test]
fn not_empty_directory_is_retried_once() {
    let remove = || Operation::RemoveDir { path: "/state".to_string() };
    let mut job = JobRun::new(Plan {
        steps: vec![step(remove(), OnFailure::AbsentOkRetryNotEmpty, "rm state")],
        body_from_output: false,
    });
    job.report(Outcome::Failed { failure: Failure::Io { e: io(IoErrorKind::DirectoryNotEmpty, "not empty") } });
    assert!(!job.is_finished());
    assert!(matches!(&job.current().unwrap().op, Operation::RemoveDir { path } if path == "/state"));
    job.report(done());
    assert!(matches!(job.result(), Some(RequestIdResult::Success { body: None })));

    let mut job = JobRun::new(Plan {
        steps: vec![step(remove(), OnFailure::AbsentOkRetryNotEmpty, "rm state")],
        body_from_output: false,
    });
    job.report(Outcome::Failed { failure: Failure::Io { e: io(IoErrorKind::DirectoryNotEmpty, "not empty") } });
    job.report(Outcome::Failed { failure: Failure::Io { e: io(IoErrorKind::DirectoryNotEmpty, "not empty") } });
    assert!(matches!(job.result(), Some(RequestIdResult::Error { error }) if error == "rm state: not empty"));
}

#[test]
fn command_failure_carries_its_stderr() {
    let cmd = ExternalCommand::new("false".to_string());
    let mut job = JobRun::new(Plan {
        steps: vec![step(Operation::Run { command: cmd, mode: CommandExecutionMode::Stream { request_id: 1 } }, OnFailure::Abort, "Error running")],
        body_from_output: false,
    });
    job.report(Outcome::Failed { failure: Failure::Command { e: CommandOutputError::OutputError { output: b"boom".to_vec() } } });
    assert!(matches!(job.result(), Some(RequestIdResult::Error { error }) if error == "Error running: boom"));
}

#[test]
fn success_body_is_last_command_output_when_asked() {
    let cmd = ExternalCommand::new("systemctl".to_string());
    let mut job = JobRun::new(Plan {
        steps: vec![step(Operation::Run { command: cmd, mode: CommandExecutionMode::Simple }, OnFailure::Abort, "c")],
        body_from_output: true,
    });
    job.report(Outcome::Done { output: b"started\n".to_vec() });
    assert!(matches!(job.result(), Some(RequestIdResult::Success { body: Some(b) }) if b == "started\n"));

    let cmd = ExternalCommand::new("systemctl".to_string());
    let mut job = JobRun::new(Plan {
        steps: vec![step(Operation::Run { command: cmd, mode: CommandExecutionMode::Simple }, OnFailure::Abort, "c")],
        body_from_output: true,
    });
    job.report(Outcome::Done { output: vec![0xc3] });
    assert!(matches!(job.result(), Some(RequestIdResult::Success { body: None })));
}

#[test]
fn host_platform_drops_the_newline_and_adds_linux() {
    let mut uname = ExternalCommand::new("uname".to_string());
    uname.arg("-m".to_string());
    let mut job = JobRun::new(Plan {
        steps: vec![
            step(Operation::Run { command: uname, mode: CommandExecutionMode::Simple }, OnFailure::Abort, "u"),
            step(Operation::WriteHostPlatform { path: "/p".to_string() }, OnFailure::Abort, "w"),
        ],
        body_from_output: false,
    });
    job.report(Outcome::Done { output: b"x86_64\n".to_vec() });
    assert_eq!(job.host_platform(), b"x86_64-linux".to_vec());
}
