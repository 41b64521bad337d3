//! Bookkeeping for running scripts: which tasks exist, which of them were
//! killed, and what exit code a finished task reports.
//!
//! The child processes themselves stay with the caller. The registry only
//! records, per task id, whether the child is still there to be killed.

use crate::text::{copy_opt_text, opt_text};
use crate::textmap::TextMap;
use vstd::prelude::*;

verus! {

/// The exit code reported for a task that was killed or whose real exit
/// code is not available.
pub const EXIT_CODE_UNAVAILABLE: i32 = -1;

/// One event of a script run, as sent to the subscriber.
///
/// `kind` is one of `started`, `stdout`, `stderr`, `error`, `cancelled` and
/// `exit`.
#[derive(Debug, PartialEq, Eq)]
pub struct TaskMessage {
    pub kind: String,
    pub task_id: Option<String>,
    pub data: Option<String>,
    pub code: Option<i32>,
}

pub struct TaskMessageView {
    pub kind: Seq<char>,
    pub task_id: Option<Seq<char>>,
    pub data: Option<Seq<char>>,
    pub code: Option<i32>,
}

impl View for TaskMessage {
    type V = TaskMessageView;

    open spec fn view(&self) -> TaskMessageView {
        TaskMessageView {
            kind: self.kind@,
            task_id: opt_text(self.task_id),
            data: opt_text(self.data),
            code: self.code,
        }
    }
}

impl Clone for TaskMessage {
    fn clone(&self) -> (r: Self)
        ensures
            r@ == self@,
    {
        TaskMessage {
            kind: self.kind.clone(),
            task_id: copy_opt_text(&self.task_id),
            data: copy_opt_text(&self.data),
            code: self.code,
        }
    }
}

/// What the registry knows of a task's child process.
#[derive(Clone, Copy, Debug, PartialEq, Eq, Structural)]
pub enum TaskSlot {
    /// The child is there and can be killed.
    Live,
    /// The child was killed by a cancellation.
    Killed,
}

/// The tasks of one session, by task id.
pub struct TaskRegistry {
    tasks: TextMap<TaskSlot>,
}

impl View for TaskRegistry {
    type V = Map<Seq<char>, TaskSlot>;

    closed spec fn view(&self) -> Map<Seq<char>, TaskSlot> {
        self.tasks@
    }
}

impl TaskRegistry {
    /// No task id occurs twice.
    pub closed spec fn wf(&self) -> bool {
        self.tasks.wf()
    }
}

/// The slot of `task_id` in a registry, if the task is registered.
pub open spec fn slot_of(tasks: Map<Seq<char>, TaskSlot>, task_id: Seq<char>) -> Option<TaskSlot> {
    if tasks.contains_key(task_id) {
        Some(tasks[task_id])
    } else {
        None
    }
}

/// Whether a cancellation of `task_id` finds a child to kill.
pub open spec fn can_cancel(tasks: Map<Seq<char>, TaskSlot>, task_id: Seq<char>) -> bool {
    slot_of(tasks, task_id) == Some(TaskSlot::Live)
}

/// The exit code a task reports: the child's own code where the child ran
/// to its end and the code could be had, and `-1` in every other case.
pub open spec fn exit_code_of(slot: Option<TaskSlot>, status: Option<i32>) -> i32 {
    match (slot, status) {
        (Some(TaskSlot::Live), Some(code)) => code,
        _ => EXIT_CODE_UNAVAILABLE,
    }
}

/// An empty registry.
pub fn create_task_registry() -> (registry: TaskRegistry)
    ensures
        registry.wf(),
        registry@ == Map::<Seq<char>, TaskSlot>::empty(),
{
    TaskRegistry { tasks: TextMap::new() }
}

/// Registers `task_id` with a live child. A task already registered under
/// that id is replaced.
pub fn store_task(task_id: String, registry: &mut TaskRegistry)
    requires
        old(registry).wf(),
    ensures
        final(registry).wf(),
        final(registry)@ == old(registry)@.insert(task_id@, TaskSlot::Live),
{
    registry.tasks.insert(task_id, TaskSlot::Live);
}

/// Looks `task_id` up without changing the registry.
pub fn get_task(task_id: &str, registry: &TaskRegistry) -> (slot: Option<TaskSlot>)
    requires
        registry.wf(),
    ensures
        slot == slot_of(registry@, task_id@),
{
    match registry.tasks.get(task_id) {
        Some(slot) => Some(*slot),
        None => None,
    }
}

/// Unlinks `task_id` from the registry.
pub fn remove_task(task_id: &str, registry: &mut TaskRegistry)
    requires
        old(registry).wf(),
    ensures
        final(registry).wf(),
        final(registry)@ == old(registry)@.remove(task_id@),
{
    registry.tasks.remove(task_id);
}

/// Marks the child of `task_id` as killed.
///
/// Returns `true` if and only if the task was registered with a live child;
/// the caller then owes that child its kill signal. In every other case
/// nothing changes, so cancelling twice returns `false` the second time.
pub fn cancel_task(task_id: &str, registry: &mut TaskRegistry) -> (killed: bool)
    requires
        old(registry).wf(),
    ensures
        final(registry).wf(),
        killed == can_cancel(old(registry)@, task_id@),
        killed ==> final(registry)@ == old(registry)@.insert(task_id@, TaskSlot::Killed),
        !killed ==> final(registry)@ == old(registry)@,
{
    match get_task(task_id, registry) {
        Some(TaskSlot::Live) => {
            registry.tasks.insert(task_id.to_string(), TaskSlot::Killed);
            true
        },
        _ => false,
    }
}

/// The exit code to report for a task.
///
/// `slot` is what the registry holds for the task once its output has
/// drained; `status` is the exit code of the child where the caller waited
/// for it and the system had one to give.
pub fn task_exit_code(slot: Option<TaskSlot>, status: Option<i32>) -> (code: i32)
    ensures
        code == exit_code_of(slot, status),
{
    match slot {
        Some(TaskSlot::Live) => match status {
            Some(code) => code,
            None => EXIT_CODE_UNAVAILABLE,
        },
        _ => EXIT_CODE_UNAVAILABLE,
    }
}

/// Cancelling is idempotent: after one cancellation of a task, a second one
/// finds nothing to kill.
pub proof fn lemma_cancel_twice(tasks: Map<Seq<char>, TaskSlot>, task_id: Seq<char>)
    ensures
        !can_cancel(tasks.insert(task_id, TaskSlot::Killed), task_id),
{
}

} // verus!
