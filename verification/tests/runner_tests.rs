use tmsadm::runner::check_db_file;
use tmsadm::runner::evaluate_command_outcome;
use tmsadm::runner::run_command_emsg;
use tmsadm::runner::CommandOutcome;

#[test]
fn zero_exit_status_is_ok() {
    let outcome = CommandOutcome::Launched {
        success: true,
        stderr_text: Some(String::new()),
        status_text: "exit status: 0".to_string(),
    };
    assert!(evaluate_command_outcome("LIST pubkeys", "sqlite3", &outcome).is_ok());
}

#[test]
fn nonzero_exit_reports_task_and_stderr() {
    let outcome = CommandOutcome::Launched {
        success: false,
        stderr_text: Some("Error: no such table: pubkeys\n".to_string()),
        status_text: "exit status: 1".to_string(),
    };
    let message = evaluate_command_outcome("LIST pubkeys", "sqlite3", &outcome).unwrap_err();
    assert!(message.contains("LIST pubkeys"));
    assert!(message.contains("Error: no such table: pubkeys"));
    assert_eq!(message, "LIST pubkeys: Error: no such table: pubkeys\n");
}

#[test]
fn nonzero_exit_without_stderr_uses_fallback_message() {
    let outcome = CommandOutcome::Launched {
        success: false,
        stderr_text: None,
        status_text: "exit status: 1".to_string(),
    };
    let message = evaluate_command_outcome("DELETE clients", "sqlite3", &outcome).unwrap_err();
    assert_eq!(
        message,
        "DELETE clients: Unknown error condition returned by command: sqlite3 with exit status: exit status: 1"
    );
}

#[test]
fn launch_failure_reports_task_and_error() {
    let outcome = CommandOutcome::LaunchFailed {
        error_text: "No such file or directory (os error 2)".to_string(),
    };
    let message = evaluate_command_outcome("LIST delegations", "sqlite3", &outcome).unwrap_err();
    assert_eq!(
        message,
        "LIST delegations: No such file or directory (os error 2)"
    );
}

#[test]
fn fallback_message_exact() {
    assert_eq!(
        run_command_emsg("sqlite3", "signal: 9 (SIGKILL)"),
        "Unknown error condition returned by command: sqlite3 with exit status: signal: 9 (SIGKILL)"
    );
}

#[test]
fn missing_db_file_is_fatal_before_any_invocation() {
    let verdict = check_db_file("/var/lib/tms/tms.db", false);
    assert_eq!(
        verdict.unwrap_err(),
        "Database file does not exist: /var/lib/tms/tms.db"
    );
}

#[test]
fn existing_db_file_passes_the_check() {
    assert!(check_db_file("/var/lib/tms/tms.db", true).is_ok());
}
