//! Shell-output interpretation: substring search, message construction and
//! the decision between token deserialization and each failure class.

use pagecore::error::{Error, ErrorKind};
use pagecore::process::{
    failure_error, interpret_exec_outcome, launch_failed_error, launch_not_found_error,
    shell_command_line, str_contains, AccessToken, ExecOutcome, OutputProcessor,
};

struct TestProcessor;

impl OutputProcessor for TestProcessor {
    fn credential_name() -> String {
        "TestCredential".to_string()
    }

    fn deserialize_token(stdout: &str) -> Result<AccessToken, Error> {
        if stdout.starts_with("token:") {
            Ok(AccessToken {
                token: stdout["token:".len()..].to_string(),
                expires_on: 1_700_000_000,
            })
        } else {
            Err(Error::new(
                ErrorKind::DataConversion,
                "unparsable token".to_string(),
            ))
        }
    }

    fn get_error_message(stderr: &str) -> Option<String> {
        if stderr.contains("ERROR:") {
            Some("the tool reported an error".to_string())
        } else {
            None
        }
    }

    fn tool_name() -> String {
        "testtool".to_string()
    }
}

#[test]
fn str_contains_finds_substrings() {
    assert!(str_contains("hello world", "lo wo"));
    assert!(str_contains("hello world", "hello"));
    assert!(str_contains("hello world", "world"));
    assert!(str_contains("hello world", ""));
    assert!(!str_contains("hello world", "worlds"));
    assert!(!str_contains("abc", "abcd"));
    assert!(!str_contains("", "a"));
    assert!(str_contains(
        "'foo' is not recognized as an internal command",
        "' is not recognized"
    ));
}

#[test]
fn shell_command_line_enters_workdir_then_runs() {
    let line = shell_command_line("/bin", "echo hi");
    assert_eq!("cd /bin && echo hi", line.as_str());
}

#[test]
fn failure_error_prefers_the_custom_message() {
    let err = failure_error(
        "TestCredential",
        "testtool",
        Some("the tool reported an error".to_string()),
        Some(1),
        "ERROR: something",
    );
    assert_eq!(&ErrorKind::Credential, err.kind());
    assert_eq!(
        "TestCredential authentication failed: the tool reported an error",
        err.message().as_str()
    );
}

#[test]
fn failure_error_exit_code_127_means_tool_missing() {
    let err = failure_error("TestCredential", "testtool", None, Some(127), "sh: no such");
    assert_eq!(
        "TestCredential authentication failed: testtool not found on PATH",
        err.message().as_str()
    );
}

#[test]
fn failure_error_not_recognized_means_tool_missing() {
    let err = failure_error(
        "TestCredential",
        "testtool",
        None,
        Some(1),
        "'testtool' is not recognized as an internal or external command",
    );
    assert_eq!(
        "TestCredential authentication failed: testtool not found on PATH",
        err.message().as_str()
    );
}

#[test]
fn failure_error_reports_stderr_verbatim_otherwise() {
    let err = failure_error("TestCredential", "testtool", None, Some(2), "splat");
    assert_eq!(
        "TestCredential authentication failed: splat",
        err.message().as_str()
    );
}

#[test]
fn launch_errors_name_the_program_or_the_kind() {
    let err = launch_not_found_error("TestCredential", "/bin/sh");
    assert_eq!(&ErrorKind::Credential, err.kind());
    assert_eq!(
        "TestCredential authentication failed: \"/bin/sh\" wasn't found on PATH",
        err.message().as_str()
    );

    let err = launch_failed_error("TestCredential", "permission denied", "no access");
    assert_eq!(&ErrorKind::Credential, err.kind());
    assert_eq!(
        "TestCredential failed due to permission denied error: no access",
        err.message().as_str()
    );
}

#[test]
fn successful_exit_deserializes_the_token() {
    let outcome = ExecOutcome::Exited {
        success: true,
        code: Some(0),
        stdout: "token:abc".to_string(),
        stderr: String::new(),
    };
    let token = interpret_exec_outcome::<TestProcessor>("/bin/sh", outcome).unwrap();
    assert_eq!("abc", token.token.as_str());
    assert_eq!(1_700_000_000, token.expires_on);
}

#[test]
fn successful_exit_with_bad_stdout_propagates_the_processor_error() {
    let outcome = ExecOutcome::Exited {
        success: true,
        code: Some(0),
        stdout: "garbage".to_string(),
        stderr: String::new(),
    };
    let err = interpret_exec_outcome::<TestProcessor>("/bin/sh", outcome).unwrap_err();
    assert_eq!(&ErrorKind::DataConversion, err.kind());
    assert_eq!("unparsable token", err.message().as_str());
}

#[test]
fn failed_exit_uses_the_processor_message_when_it_gives_one() {
    let outcome = ExecOutcome::Exited {
        success: false,
        code: Some(1),
        stdout: String::new(),
        stderr: "ERROR: expired".to_string(),
    };
    let err = interpret_exec_outcome::<TestProcessor>("/bin/sh", outcome).unwrap_err();
    assert_eq!(&ErrorKind::Credential, err.kind());
    assert_eq!(
        "TestCredential authentication failed: the tool reported an error",
        err.message().as_str()
    );
}

#[test]
fn launch_outcomes_map_to_their_messages() {
    let err =
        interpret_exec_outcome::<TestProcessor>("/bin/sh", ExecOutcome::LaunchNotFound).unwrap_err();
    assert_eq!(
        "TestCredential authentication failed: \"/bin/sh\" wasn't found on PATH",
        err.message().as_str()
    );

    let outcome = ExecOutcome::LaunchFailed {
        kind: "interrupted".to_string(),
        detail: "signal".to_string(),
    };
    let err = interpret_exec_outcome::<TestProcessor>("/bin/sh", outcome).unwrap_err();
    assert_eq!(
        "TestCredential failed due to interrupted error: signal",
        err.message().as_str()
    );
}
