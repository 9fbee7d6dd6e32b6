//! Judging an external command's outcome, and the database-file
//! precondition. The child process is started and waited for outside the
//! library; what came back — launch failure, exit status, captured standard
//! error — is judged here, and every failure is rendered as the exact
//! message the program dies with.

use vstd::prelude::*;

verus! {

/// What running the external command produced: either it launched and
/// finished (successfully or not, with its standard error captured when it
/// was valid text and the display text of its exit status), or it could not
/// be started at all.
pub enum CommandOutcome {
    Launched { success: bool, stderr_text: Option<String>, status_text: String },
    LaunchFailed { error_text: String },
}

/// The fallback message for a command that failed without readable
/// standard-error text.
pub open spec fn spec_unknown_error_message(program: Seq<char>, status: Seq<char>) -> Seq<char> {
    "Unknown error condition returned by command: "@ + program + " with exit status: "@ + status
}

/// A failure message: the task name, a separator, and the detail.
pub open spec fn spec_task_message(task: Seq<char>, detail: Seq<char>) -> Seq<char> {
    task + ": "@ + detail
}

/// Render the fallback message for a command that returned a non-zero exit
/// status and no readable standard-error text.
pub fn run_command_emsg(program: &str, status_text: &str) -> (r: String)
    ensures
        r@ == spec_unknown_error_message(program@, status_text@),
{
    let mut m = "Unknown error condition returned by command: ".to_owned();
    m.append(program);
    m.append(" with exit status: ");
    m.append(status_text);
    proof {
        assert(m@ =~= spec_unknown_error_message(program@, status_text@));
    }
    m
}

/// Render a task-prefixed failure message.
pub fn task_message(task: &str, detail: &str) -> (r: String)
    ensures
        r@ == spec_task_message(task@, detail@),
{
    let mut m = task.to_owned();
    m.append(": ");
    m.append(detail);
    proof {
        assert(m@ =~= spec_task_message(task@, detail@));
    }
    m
}

/// Judge the outcome of the external command named by `task`. Only a
/// launched command with a zero exit status succeeds. A non-zero exit
/// yields the task-prefixed captured standard-error text, or the fallback
/// message when that text was unreadable; a launch failure yields the
/// task-prefixed launch error.
pub fn evaluate_command_outcome(task: &str, program: &str, outcome: &CommandOutcome) -> (r: Result<
    (),
    String,
>)
    ensures
        r is Ok <==> (outcome matches CommandOutcome::Launched { success, .. } && *success),
        outcome matches CommandOutcome::Launched { success: false, stderr_text: Some(t), .. }
            ==> (r matches Err(m) && m@ == spec_task_message(task@, t@)),
        outcome matches CommandOutcome::Launched { success: false, stderr_text: None, status_text }
            ==> (r matches Err(m) && m@ == spec_task_message(
            task@,
            spec_unknown_error_message(program@, status_text@),
        )),
        outcome matches CommandOutcome::LaunchFailed { error_text } ==> (r matches Err(m) && m@
            == spec_task_message(task@, error_text@)),
{
    match outcome {
        CommandOutcome::Launched { success, stderr_text, status_text } => {
            if *success {
                Ok(())
            } else {
                let detail: String = match stderr_text {
                    Some(t) => t.clone(),
                    None => run_command_emsg(program, status_text.as_str()),
                };
                Err(task_message(task, detail.as_str()))
            }
        },
        CommandOutcome::LaunchFailed { error_text } => Err(
            task_message(task, error_text.as_str()),
        ),
    }
}

/// Check the database-file precondition: the caller reports whether a file
/// exists at the resolved path, and a missing file is the exact fatal
/// message naming that path — the external client must never be started on
/// a path with no file, which would silently create an empty database.
pub fn check_db_file(resolved_path: &str, is_file: bool) -> (r: Result<(), String>)
    ensures
        r is Ok <==> is_file,
        !is_file ==> (r matches Err(m) && m@ == "Database file does not exist: "@
            + resolved_path@),
{
    if is_file {
        Ok(())
    } else {
        let mut m = "Database file does not exist: ".to_owned();
        m.append(resolved_path);
        Err(m)
    }
}

} // verus!
