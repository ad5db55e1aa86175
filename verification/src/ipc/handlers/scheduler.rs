//! Requests on the tasks that are to run later.

use crate::ipc::protocol::IPCResponse;
use crate::json::Json;
use crate::text;
use vstd::prelude::*;

verus! {

/// The tasks that are told, and none where they cannot be read.
pub fn handle_list_scheduled_tasks(id: &str, outcome: Result<Vec<Json>, String>) -> (r: IPCResponse)
    ensures
        r matches IPCResponse::ScheduledTaskList { id: i, tasks: t } && i@ == id@ && (match outcome {
            Ok(rows) => t == rows,
            Err(_) => t@.len() == 0,
        }),
{
    let tasks = match outcome {
        Ok(rows) => rows,
        Err(_) => Vec::new(),
    };
    IPCResponse::ScheduledTaskList { id: id.to_owned(), tasks }
}

/// The answer to something that was done with a task.
pub open spec fn is_action(
    r: IPCResponse,
    id: Seq<char>,
    task_id: Seq<char>,
    action: Seq<char>,
    success: bool,
    message: Seq<char>,
) -> bool {
    r matches IPCResponse::ScheduledTaskAction {
        id: i,
        task_id: t,
        action: a,
        success: s,
        message: m,
    } && i@ == id && t@ == task_id && a@ == action && s == success && m@ == message
}

fn task_action(
    id: &str,
    task_id: &str,
    action: &str,
    success: bool,
    message: String,
) -> (r: IPCResponse)
    ensures
        is_action(r, id@, task_id@, action@, success, message@),
{
    IPCResponse::ScheduledTaskAction {
        id: id.to_owned(),
        task_id: task_id.to_owned(),
        action: action.to_owned(),
        success,
        message,
    }
}

/// Why a task is not taken, before it is looked at when it is to run.
pub fn task_refused(id: &str, name: &str, cadence_spec: &str, prompt: &str) -> (r: Option<
    IPCResponse,
>)
    ensures
        r is Some <==> text::blank(name@) || text::blank(cadence_spec@) || text::blank(prompt@),
        r matches Some(a) ==> is_action(
            a,
            id@,
            Seq::empty(),
            "create"@,
            false,
            "name, cadence, and prompt are required"@,
        ),
{
    if text::is_blank(name) || text::is_blank(cadence_spec) || text::is_blank(prompt) {
        let none = String::new();
        assert(none@ =~= Seq::empty());
        Some(
            task_action(
                id,
                &none,
                "create",
                false,
                "name, cadence, and prompt are required".to_owned(),
            ),
        )
    } else {
        None
    }
}

/// Where the output of a task goes: where it is said, or into a notification.
pub fn task_channel(output_channel: &Option<String>) -> (r: String)
    ensures
        r@ == (match *output_channel {
            Some(c) => c@,
            None => "notification"@,
        }),
{
    match output_channel {
        Some(c) => c.clone(),
        None => "notification".to_owned(),
    }
}

/// What came of a task that was taken.
#[derive(Debug)]
pub enum TaskOutcome {
    /// It cannot be read when the task is to run.
    BadCadence { error: String },
    /// It could not be kept.
    NotKept { error: String },
    /// It was kept under an id, and first runs at a time.
    Kept { task_id: String, next_run: String },
}

/// The answer to a new task.
pub fn handle_create_scheduled_task(
    id: &str,
    name: &str,
    cadence_spec: &str,
    prompt: &str,
    outcome: &TaskOutcome,
) -> (r: IPCResponse)
    ensures
        if text::blank(name@) || text::blank(cadence_spec@) || text::blank(prompt@) {
            is_action(
                r,
                id@,
                Seq::empty(),
                "create"@,
                false,
                "name, cadence, and prompt are required"@,
            )
        } else {
            match *outcome {
                TaskOutcome::BadCadence { error } => is_action(
                    r,
                    id@,
                    Seq::empty(),
                    "create"@,
                    false,
                    "bad cadence: "@ + error@,
                ),
                TaskOutcome::NotKept { error } => is_action(
                    r,
                    id@,
                    Seq::empty(),
                    "create"@,
                    false,
                    "insert failed: "@ + error@,
                ),
                TaskOutcome::Kept { task_id, next_run } => is_action(
                    r,
                    id@,
                    task_id@,
                    "create"@,
                    true,
                    "scheduled '"@ + name@ + "' - next run at "@ + next_run@,
                ),
            }
        },
{
    if let Some(a) = task_refused(id, name, cadence_spec, prompt) {
        return a;
    }
    let none = String::new();
    assert(none@ =~= Seq::empty());
    match outcome {
        TaskOutcome::BadCadence { error } => {
            let mut m = "bad cadence: ".to_owned();
            m.append(error);
            task_action(id, &none, "create", false, m)
        },
        TaskOutcome::NotKept { error } => {
            let mut m = "insert failed: ".to_owned();
            m.append(error);
            task_action(id, &none, "create", false, m)
        },
        TaskOutcome::Kept { task_id, next_run } => {
            let mut m = "scheduled '".to_owned();
            m.append(name);
            m.append("' - next run at ");
            m.append(next_run);
            task_action(id, task_id, "create", true, m)
        },
    }
}

/// The answer to a change of the state of a task.
pub fn handle_set_status(
    id: &str,
    task_id: &str,
    action: &str,
    outcome: &Result<(), String>,
) -> (r: IPCResponse)
    ensures
        match *outcome {
            Ok(_) => is_action(r, id@, task_id@, action@, true, action@ + " ok"@),
            Err(e) => is_action(r, id@, task_id@, action@, false, e@),
        },
{
    match outcome {
        Ok(_) => {
            let mut m = action.to_owned();
            m.append(" ok");
            task_action(id, task_id, action, true, m)
        },
        Err(e) => task_action(id, task_id, action, false, e.clone()),
    }
}

} // verus!
