use rust_sys_installer::error::ProcessError;
use rust_sys_installer::utils::cmd_builder::{
    scripting_error, CommandBuilder, ExecutionResult, LaunchReport,
};
use std::path::PathBuf;
use std::time::Duration;

fn exited(stdout: &[u8], stderr: &[u8], status: Option<i32>) -> LaunchReport {
    LaunchReport::Exited(ExecutionResult {
        stdout: stdout.to_vec(),
        stderr: stderr.to_vec(),
        status,
    })
}

#[test]
fn argument_with_shell_syntax_stays_one_argument() {
    let cmd = CommandBuilder::new("echo").arg("; rm -rf /").arg("$(id) `id` 'x' \"y\"");
    assert_eq!(cmd.arguments().len(), 2);
    assert_eq!(cmd.arguments()[0], "; rm -rf /");
    assert_eq!(cmd.arguments()[1], "$(id) `id` 'x' \"y\"");
    assert_eq!(cmd.program(), "echo");
}

#[test]
fn arguments_keep_their_order() {
    let cmd = CommandBuilder::new("p")
        .args(vec!["1".to_string(), "2".to_string()])
        .arg("3")
        .args(vec![])
        .args(vec!["4".to_string()]);
    assert_eq!(*cmd.arguments(), vec!["1", "2", "3", "4"]);
}

#[test]
fn env_replaces_the_value_of_a_name_set_before() {
    let cmd = CommandBuilder::new("echo")
        .env("HOME", "/tmp")
        .env("USER", "test")
        .env("HOME", "/root");
    assert_eq!(cmd.env_value("HOME"), Some(&"/root".to_string()));
    assert_eq!(cmd.env_value("USER"), Some(&"test".to_string()));
    assert_eq!(cmd.env_value("PATH"), None);
    let entries = cmd.env_vars().unwrap();
    assert_eq!(entries.len(), 2);
    assert_eq!(entries.iter().filter(|(name, _)| name == "HOME").count(), 1);
}

#[test]
fn env_value_is_none_without_any_variable() {
    let cmd = CommandBuilder::new("echo");
    assert_eq!(cmd.env_value("HOME"), None);
}

#[test]
fn working_dir_and_time_limit_are_kept() {
    let cmd = CommandBuilder::new("ls")
        .current_dir(PathBuf::from("/var/tmp"))
        .timeout(Duration::from_secs(90));
    assert_eq!(cmd.working_dir(), Some(&PathBuf::from("/var/tmp")));
    assert_eq!(cmd.time_limit(), Some(Duration::from_secs(90)));
    assert!(cmd.arguments().is_empty());
    assert!(cmd.env_vars().is_none());
}

#[test]
fn builders_leave_the_other_parts_alone() {
    let cmd = CommandBuilder::new("ls")
        .arg("-l")
        .env("A", "1")
        .current_dir(PathBuf::from("/"))
        .timeout(Duration::from_millis(5))
        .arg("-a");
    assert_eq!(cmd.program(), "ls");
    assert_eq!(*cmd.arguments(), vec!["-l", "-a"]);
    assert_eq!(cmd.env_value("A"), Some(&"1".to_string()));
    assert_eq!(cmd.working_dir(), Some(&PathBuf::from("/")));
    assert_eq!(cmd.time_limit(), Some(Duration::from_millis(5)));
}

#[test]
fn exit_status_zero_yields_the_captured_output() {
    let cmd = CommandBuilder::new("printf");
    let out = cmd.execute(exited(b"hello\n\x00\xff", b"warning", Some(0))).unwrap();
    assert_eq!(out.stdout, b"hello\n\x00\xff".to_vec());
    assert_eq!(out.stderr, b"warning".to_vec());
    assert_eq!(out.status, Some(0));
}

#[test]
fn non_zero_exit_is_a_scripting_error_with_code_and_stderr() {
    let cmd = CommandBuilder::new("false");
    match cmd.execute(exited(b"ignored", b"boom: no such thing\n", Some(3))) {
        Err(ProcessError::ScriptingError { error_msg, exit_code }) => {
            assert_eq!(error_msg, "boom: no such thing\n");
            assert_eq!(exit_code, 3);
        }
        other => panic!("expected a scripting error, got {:?}", other),
    }
}

#[test]
fn every_exit_code_of_a_process_is_carried() {
    let cmd = CommandBuilder::new("sh");
    for code in [1, 2, 126, 127, 128, 255] {
        match cmd.execute(exited(b"", b"", Some(code))) {
            Err(ProcessError::ScriptingError { exit_code, .. }) => {
                assert_eq!(i32::from(exit_code), code)
            }
            other => panic!("expected a scripting error, got {:?}", other),
        }
    }
}

#[test]
fn stderr_that_is_no_utf8_is_read_with_replacement_characters() {
    let cmd = CommandBuilder::new("sh");
    match cmd.execute(exited(b"", b"bad \xff byte", Some(1))) {
        Err(ProcessError::ScriptingError { error_msg, .. }) => {
            assert_eq!(error_msg, "bad \u{fffd} byte")
        }
        other => panic!("expected a scripting error, got {:?}", other),
    }
}

#[test]
fn process_without_exit_status_counts_as_code_one() {
    let cmd = CommandBuilder::new("sleep");
    match cmd.execute(exited(b"", b"killed", None)) {
        Err(ProcessError::ScriptingError { error_msg, exit_code }) => {
            assert_eq!(error_msg, "killed");
            assert_eq!(exit_code, 1);
        }
        other => panic!("expected a scripting error, got {:?}", other),
    }
}

#[test]
fn exit_code_is_the_low_sixteen_bits_of_the_status() {
    match scripting_error("x".to_string(), Some(-1)) {
        ProcessError::ScriptingError { exit_code, .. } => assert_eq!(exit_code, 65535),
        other => panic!("expected a scripting error, got {:?}", other),
    }
    match scripting_error("x".to_string(), Some(65536 + 7)) {
        ProcessError::ScriptingError { exit_code, .. } => assert_eq!(exit_code, 7),
        other => panic!("expected a scripting error, got {:?}", other),
    }
}

#[test]
fn failure_to_spawn_is_an_io_error() {
    let cmd = CommandBuilder::new("no-such-binary");
    let cause = std::io::Error::new(std::io::ErrorKind::NotFound, "no such file");
    match cmd.execute(LaunchReport::SpawnFailed(cause)) {
        Err(ProcessError::Io(e)) => {
            assert_eq!(e.kind(), std::io::ErrorKind::NotFound);
            assert_eq!(e.to_string(), "no such file");
        }
        other => panic!("expected an I/O error, got {:?}", other),
    }
}

#[test]
fn running_past_the_time_limit_is_a_timeout_error() {
    let cmd = CommandBuilder::new("sleep").arg("100").timeout(Duration::from_secs(1));
    match cmd.execute(LaunchReport::TimedOut) {
        Err(ProcessError::Timeout { program }) => assert_eq!(program, "sleep"),
        other => panic!("expected a timeout error, got {:?}", other),
    }
}

#[test]
fn io_and_json_errors_convert_into_process_errors() {
    let io = std::io::Error::new(std::io::ErrorKind::PermissionDenied, "denied");
    assert!(matches!(ProcessError::from(io), ProcessError::Io(_)));
    let json = serde_json::from_str::<serde_json::Value>("{").unwrap_err();
    assert!(matches!(ProcessError::from(json), ProcessError::Json(_)));
}
