use xnode_manager::utils::command::{
    command_result, outcome_marker, parse_command_line, CommandOutputError, ExternalCommand,
    IoErrorKind, IoFailure, ProcessOutput,
};
use xnode_manager::utils::output::Output;

fn command(program: &str, args: &[&str]) -> ExternalCommand {
    let mut c = ExternalCommand::new(program.to_string());
    for a in args {
        c.arg(a.to_string());
    }
    c
}

#[test]
fn recorded_command_reads_back_unchanged() {
    let mut c = command("/run/current-system/sw/bin/nix", &["build", "--profile", "a b", "quote\"d", "back\\slash", "", "x#y"]);
    c.env("NIX_REMOTE".to_string(), "daemon".to_string());
    let line = c.render();
    let words = parse_command_line(&line).unwrap();
    let mut expected = vec![c.program.clone()];
    expected.extend(c.args.iter().cloned());
    assert_eq!(words, expected);
}

#[test]
fn recorded_command_leaves_out_the_environment() {
    let mut c = command("nix", &["flake", "update"]);
    c.env("SECRET".to_string(), "SECRET-REDACTED".to_string());
    assert_eq!(c.render(), "\"nix\" \"flake\" \"update\"");
}

#[test]
fn recorded_command_escapes_quotes_and_backslashes() {
    assert_eq!(command("a\"b", &["c\\d"]).render(), "\"a\\\"b\" \"c\\\\d\"");
}

#[test]
fn malformed_command_lines_are_refused() {
    assert_eq!(parse_command_line(""), Some(vec![]));
    assert_eq!(parse_command_line("\"a\""), Some(vec!["a".to_string()]));
    assert_eq!(parse_command_line("a"), None);
    assert_eq!(parse_command_line("\"a\" "), None);
    assert_eq!(parse_command_line("\"a"), None);
    assert_eq!(parse_command_line("\"a\"\"b\""), None);
}

#[test]
fn command_result_of_success_is_stdout() {
    let r = command_result(Ok(ProcessOutput { success: true, stdout: b"out".to_vec(), stderr: b"err".to_vec() }));
    assert_eq!(r.ok(), Some(b"out".to_vec()));
}

#[test]
fn command_result_of_failure_is_stderr() {
    let r = command_result(Ok(ProcessOutput { success: false, stdout: b"out".to_vec(), stderr: b"err".to_vec() }));
    assert!(matches!(r, Err(CommandOutputError::OutputError { output }) if output == b"err".to_vec()));
}

#[test]
fn command_result_of_launch_failure() {
    let r = command_result(Err(IoFailure { kind: IoErrorKind::NotFound, message: "No such file or directory (os error 2)".to_string() }));
    match r {
        Err(e) => assert_eq!(e.to_message(), "No such file or directory (os error 2)"),
        Ok(_) => panic!("expected a failure"),
    }
}

#[test]
fn outcome_markers() {
    assert_eq!(outcome_marker(&Ok(vec![])), "0");
    assert_eq!(outcome_marker(&Err(CommandOutputError::OutputError { output: vec![] })), "1");
}

#[test]
fn failure_message_of_text_and_of_bytes() {
    assert_eq!(CommandOutputError::OutputError { output: b"error: bad flake".to_vec() }.to_message(), "error: bad flake");
    assert_eq!(CommandOutputError::OutputError { output: vec![255, 0, 12] }.to_message(), "Non UTF8 output: [255, 0, 12]");
    assert_eq!(CommandOutputError::OutputError { output: vec![] }.to_message(), "");
}

#[test]
fn output_reads_text_where_it_can() {
    assert!(matches!(Output::from_bytes("héllo".as_bytes().to_vec()), Output::UTF8 { output } if output == "héllo"));
    assert!(matches!(Output::from_bytes(vec![0x80]), Output::Bytes { output } if output == vec![0x80]));
}
