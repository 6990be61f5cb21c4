//! Builds the log line that records a received task.
//!
//! A task arrives as plain text and is recorded as a single line: a fixed
//! label followed by the task text, with no transformation, truncation, or
//! validation applied. This crate holds that formatting logic and proves
//! that the task text is carried into the line unchanged; writing the line
//! to a sink is left to the surrounding application.

use vstd::prelude::*;

verus! {

/// The fixed label that opens every log line.
pub open spec fn task_label() -> Seq<char> {
    "Received task: "@
}

/// The log line for a task: the fixed label followed by the task text.
pub open spec fn log_line_spec(task: Seq<char>) -> Seq<char> {
    task_label() + task
}

/// Builds the line that records a received task: the fixed label
/// `Received task: ` followed by the task text, unchanged.
pub fn log_line(task: &str) -> (line: String)
    ensures
        line@ == log_line_spec(task@),
{
    let mut line = String::from_str("Received task: ");
    line.append(task);
    line
}

/// No transformation, truncation, or validation is applied to the task:
/// the log line is exactly the fixed label followed by the task text, so
/// the label stands unchanged at the front of the line and the task text
/// is recovered unchanged as the rest of it. This holds for every task,
/// the empty one and ones holding control characters included.
pub proof fn lemma_task_text_preserved(task: Seq<char>)
    ensures
        log_line_spec(task).len() == task_label().len() + task.len(),
        log_line_spec(task).take(task_label().len() as int) == task_label(),
        log_line_spec(task).skip(task_label().len() as int) == task,
{
    assert(log_line_spec(task).take(task_label().len() as int) =~= task_label());
    assert(log_line_spec(task).skip(task_label().len() as int) =~= task);
}

} // verus!
