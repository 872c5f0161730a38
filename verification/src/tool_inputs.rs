//! The inputs of the other tools.

use vstd::prelude::*;

use crate::text;

verus! {

// ---------------------------------------------------------------------------
// Todos
// ---------------------------------------------------------------------------

#[derive(Debug, Clone, Copy, PartialEq, Eq, Structural)]
pub enum TodoStatus {
    Pending,
    InProgress,
    Completed,
}

/// Something to do.
#[derive(Debug, PartialEq, Eq)]
pub struct TodoItem {
    pub content: String,
    pub active_form: String,
    pub status: TodoStatus,
}

/// The input of the tool that writes the list of things to do.
#[derive(Debug, PartialEq, Eq)]
pub struct TodoWriteInput {
    pub todos: Vec<TodoItem>,
}

impl TodoStatus {
    pub open spec fn name(self) -> Seq<char> {
        match self {
            TodoStatus::Pending => "pending"@,
            TodoStatus::InProgress => "in_progress"@,
            TodoStatus::Completed => "completed"@,
        }
    }

    /// The name of a status in the input.
    pub fn as_str(&self) -> (r: &'static str)
        ensures
            r@ == self.name(),
    {
        match self {
            TodoStatus::Pending => "pending",
            TodoStatus::InProgress => "in_progress",
            TodoStatus::Completed => "completed",
        }
    }

    pub open spec fn named(name: Seq<char>) -> Option<TodoStatus> {
        if name == "pending"@ {
            Some(TodoStatus::Pending)
        } else if name == "in_progress"@ {
            Some(TodoStatus::InProgress)
        } else if name == "completed"@ {
            Some(TodoStatus::Completed)
        } else {
            None
        }
    }

    /// The status with this name in the input.
    pub fn from_name(name: &str) -> (r: Option<TodoStatus>)
        ensures
            r == Self::named(name@),
    {
        if text::str_eq(name, "pending") {
            Some(TodoStatus::Pending)
        } else if text::str_eq(name, "in_progress") {
            Some(TodoStatus::InProgress)
        } else if text::str_eq(name, "completed") {
            Some(TodoStatus::Completed)
        } else {
            None
        }
    }
}

/// A status is found again by its name.
pub proof fn law_statuses_are_known_by_name(status: TodoStatus)
    ensures
        TodoStatus::named(status.name()) == Some(status),
{
    reveal_strlit("pending");
    reveal_strlit("in_progress");
    reveal_strlit("completed");
    assert("pending"@.len() == 7 && "in_progress"@.len() == 11 && "completed"@.len() == 9);
}

// ---------------------------------------------------------------------------
// Skills
// ---------------------------------------------------------------------------

/// The input of the tool that loads a skill.
#[derive(Debug, PartialEq, Eq)]
pub struct SkillInput {
    pub skill: String,
    pub args: Option<String>,
}

// ---------------------------------------------------------------------------
// Defaults
// ---------------------------------------------------------------------------

/// Whether a worker recovers where nothing is said about it.
pub open spec fn recovers_unasked() -> bool {
    true
}

/// Whether an output is waited for where nothing is said about it.
pub open spec fn waits_unasked() -> bool {
    true
}

/// How long an output is waited for, in milliseconds, where nothing is said
/// about it.
pub open spec fn unasked_wait_ms() -> u64 {
    30_000
}

/// Whether a worker recovers from a prompt that went astray, where nothing is
/// said about it.
pub fn default_auto_recover_prompt_misdelivery() -> (r: bool)
    ensures
        r == recovers_unasked(),
{
    true
}

/// Whether the output of a task is waited for, where nothing is said about it.
pub fn default_task_output_block() -> (r: bool)
    ensures
        r == waits_unasked(),
{
    true
}

/// How long the output of a task is waited for, in milliseconds, where nothing
/// is said about it.
pub fn default_task_output_timeout_ms() -> (r: u64)
    ensures
        r == unasked_wait_ms(),
{
    30_000
}

/// Where nothing is said, a worker recovers, and an output is waited for, for half a
/// minute.
pub proof fn law_outputs_are_waited_for()
    ensures
        recovers_unasked(),
        waits_unasked(),
        unasked_wait_ms() == 30 * 1000,
{
}

} // verus!
