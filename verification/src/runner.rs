//! The script runner: what a session does with the commands of its client
//! and with the output of the scripts it started.
//!
//! The session itself (the socket, the child processes, the history store)
//! belongs to the caller. It asks this module what to do at each step and
//! performs what comes back.

use crate::clock::now_rfc3339;
use crate::executor::{
    cancel_task, can_cancel, exit_code_of, get_task, remove_task, slot_of, task_exit_code,
    TaskMessage, TaskMessageView, TaskRegistry, TaskSlot,
};
use crate::ident::{is_uuid_v4_text, random_uuid};
use crate::text::{copy_opt_text, opt_text, text_eq};
use vstd::prelude::*;
use vstd::string::{StrSliceExecFns, StringExecFns};

verus! {

/// Where scripts are looked for when the settings name no directory.
pub open spec fn default_scripts_dir() -> Seq<char> {
    "./scripts"@
}

/// The directory scripts are run from: the configured one, or the default.
pub open spec fn scripts_dir_of(setting: Option<Seq<char>>) -> Seq<char> {
    match setting {
        Some(configured) => configured,
        None => default_scripts_dir(),
    }
}

/// A message of the client, as decoded from one text frame.
#[derive(Debug, PartialEq, Eq)]
pub struct ClientMessage {
    pub kind: String,
    pub script: Option<String>,
    pub task_id: Option<String>,
}

/// What a client message asks for.
#[derive(Debug, PartialEq, Eq)]
pub enum ClientCommand {
    /// Run the named script.
    Run { script: String },
    /// Cancel the task with this id.
    Cancel { task_id: String },
    /// Nothing: an unknown kind, or a command without its argument.
    Ignore,
}

pub enum ClientCommandView {
    Run { script: Seq<char> },
    Cancel { task_id: Seq<char> },
    Ignore,
}

impl View for ClientCommand {
    type V = ClientCommandView;

    open spec fn view(&self) -> ClientCommandView {
        match *self {
            ClientCommand::Run { script } => ClientCommandView::Run { script: script@ },
            ClientCommand::Cancel { task_id } => ClientCommandView::Cancel { task_id: task_id@ },
            ClientCommand::Ignore => ClientCommandView::Ignore,
        }
    }
}

/// The command that a client message stands for.
pub open spec fn command_of(
    kind: Seq<char>,
    script: Option<Seq<char>>,
    task_id: Option<Seq<char>>,
) -> ClientCommandView {
    if kind == "run"@ && script is Some {
        ClientCommandView::Run { script: script->Some_0 }
    } else if kind == "cancel"@ && task_id is Some {
        ClientCommandView::Cancel { task_id: task_id->Some_0 }
    } else {
        ClientCommandView::Ignore
    }
}

/// Reads the command out of a client message.
pub fn parse_command(message: &ClientMessage) -> (command: ClientCommand)
    ensures
        command@ == command_of(message.kind@, opt_text(message.script), opt_text(message.task_id)),
{
    proof {
        reveal_strlit("run");
        reveal_strlit("cancel");
        assert("run"@.len() != "cancel"@.len());
    }
    if text_eq(message.kind.as_str(), "run") {
        match &message.script {
            Some(script) => ClientCommand::Run { script: script.clone() },
            None => ClientCommand::Ignore,
        }
    } else if text_eq(message.kind.as_str(), "cancel") {
        match &message.task_id {
            Some(task_id) => ClientCommand::Cancel { task_id: task_id.clone() },
            None => ClientCommand::Ignore,
        }
    } else {
        ClientCommand::Ignore
    }
}

/// The directory scripts are run from: the configured one, or the default
/// where the setting is missing or could not be read.
pub fn scripts_dir_or_default(setting: Option<String>) -> (dir: String)
    ensures
        dir@ == scripts_dir_of(opt_text(setting)),
{
    match setting {
        Some(configured) => configured,
        None => String::from_str("./scripts"),
    }
}

/// One row of the task history.
#[derive(Debug, PartialEq, Eq)]
pub struct TaskHistory {
    pub id: String,
    pub script_name: String,
    pub started_at: String,
    pub finished_at: Option<String>,
    pub exit_code: Option<i32>,
    pub output: Option<String>,
}

pub struct TaskHistoryView {
    pub id: Seq<char>,
    pub script_name: Seq<char>,
    pub started_at: Seq<char>,
    pub finished_at: Option<Seq<char>>,
    pub exit_code: Option<i32>,
    pub output: Option<Seq<char>>,
}

impl View for TaskHistory {
    type V = TaskHistoryView;

    open spec fn view(&self) -> TaskHistoryView {
        TaskHistoryView {
            id: self.id@,
            script_name: self.script_name@,
            started_at: self.started_at@,
            finished_at: opt_text(self.finished_at),
            exit_code: self.exit_code,
            output: opt_text(self.output),
        }
    }
}

/// Everything that starting a script takes: where the script is, the row
/// that opens its history, and the message that announces it.
#[derive(Debug, PartialEq, Eq)]
pub struct RunPlan {
    pub task_id: String,
    pub script_path: String,
    pub history: TaskHistory,
    pub started: TaskMessage,
}

pub struct RunPlanView {
    pub task_id: Seq<char>,
    pub script_path: Seq<char>,
    pub history: TaskHistoryView,
    pub started: TaskMessageView,
}

impl View for RunPlan {
    type V = RunPlanView;

    open spec fn view(&self) -> RunPlanView {
        RunPlanView {
            task_id: self.task_id@,
            script_path: self.script_path@,
            history: self.history@,
            started: self.started@,
        }
    }
}

/// A message that carries nothing but its kind and the task it is about.
pub open spec fn notice(kind: Seq<char>, task_id: Seq<char>) -> TaskMessageView {
    TaskMessageView { kind, task_id: Some(task_id), data: None, code: None }
}

/// The plan for running `script_name` out of `scripts_dir` as task
/// `task_id`, started at `started_at`.
pub open spec fn run_plan(
    scripts_dir: Seq<char>,
    script_name: Seq<char>,
    task_id: Seq<char>,
    started_at: Seq<char>,
) -> RunPlanView {
    RunPlanView {
        task_id,
        script_path: scripts_dir + "/"@ + script_name,
        history: TaskHistoryView {
            id: task_id,
            script_name,
            started_at,
            finished_at: None,
            exit_code: None,
            output: None,
        },
        started: notice("started"@, task_id),
    }
}

fn make_notice(kind: &str, task_id: &str) -> (message: TaskMessage)
    ensures
        message@ == notice(kind@, task_id@),
{
    TaskMessage {
        kind: String::from_str(kind),
        task_id: Some(String::from_str(task_id)),
        data: None,
        code: None,
    }
}

/// Plans the run of a script under a given task id and start time.
pub fn plan_run(scripts_dir: &str, script_name: &str, task_id: String, started_at: String) -> (plan:
    RunPlan)
    ensures
        plan@ == run_plan(scripts_dir@, script_name@, task_id@, started_at@),
{
    let script_path = String::from_str(scripts_dir).concat("/").concat(script_name);
    let history = TaskHistory {
        id: task_id.clone(),
        script_name: String::from_str(script_name),
        started_at,
        finished_at: None,
        exit_code: None,
        output: None,
    };
    let started = make_notice("started", task_id.as_str());
    RunPlan { task_id, script_path, history, started }
}

/// Plans the run of a script that starts now, under a fresh task id.
///
/// The task id is a fresh version 4 UUID and the start time is what the
/// clock gave; the rest of the plan follows from them as in [`plan_run`].
pub fn begin_run(scripts_dir: &str, script_name: &str) -> (plan: RunPlan)
    ensures
        plan@ == run_plan(scripts_dir@, script_name@, plan@.task_id, plan@.history.started_at),
        is_uuid_v4_text(plan@.task_id),
{
    plan_run(scripts_dir, script_name, random_uuid(), now_rfc3339())
}

/// The message that reports a script that could not be started.
pub open spec fn spawn_failure(task_id: Seq<char>, error: Seq<char>) -> TaskMessageView {
    TaskMessageView {
        kind: "error"@,
        task_id: Some(task_id),
        data: Some("Failed to start script: "@ + error),
        code: None,
    }
}

/// Builds the message that tells the client that its script did not start.
pub fn spawn_failed(task_id: &str, error: &str) -> (message: TaskMessage)
    ensures
        message@ == spawn_failure(task_id@, error@),
{
    TaskMessage {
        kind: String::from_str("error"),
        task_id: Some(String::from_str(task_id)),
        data: Some(String::from_str("Failed to start script: ").concat(error)),
        code: None,
    }
}

/// Carries out a cancellation in the registry.
///
/// Where the task has a live child, the child is marked as killed, the task
/// leaves the registry and the `cancelled` message for the client comes
/// back. Otherwise nothing changes and nothing is sent.
pub fn handle_cancel(task_id: &str, registry: &mut TaskRegistry) -> (reply: Option<TaskMessage>)
    requires
        old(registry).wf(),
    ensures
        final(registry).wf(),
        can_cancel(old(registry)@, task_id@) ==> reply is Some && reply->Some_0@ == notice(
            "cancelled"@,
            task_id@,
        ) && final(registry)@ == old(registry)@.remove(task_id@),
        !can_cancel(old(registry)@, task_id@) ==> reply is None && final(registry)@ == old(
            registry,
        )@,
{
    if cancel_task(task_id, registry) {
        remove_task(task_id, registry);
        assert(old(registry)@.insert(task_id@, TaskSlot::Killed).remove(task_id@) =~= old(
            registry,
        )@.remove(task_id@));
        Some(make_notice("cancelled", task_id))
    } else {
        None
    }
}

/// `line` without the newline that ends it, if one does.
pub open spec fn without_newline(line: Seq<char>) -> Seq<char> {
    if line.len() > 0 && line.last() == '\n' {
        line.drop_last()
    } else {
        line
    }
}

/// Takes the single trailing newline off a line of output.
pub fn strip_newline(line: &str) -> (text: String)
    ensures
        text@ == without_newline(line@),
{
    let n = line.unicode_len();
    if n > 0 && line.get_char(n - 1) == '\n' {
        String::from_str(line.substring_char(0, n - 1))
    } else {
        String::from_str(line)
    }
}

/// The two output streams of a script.
#[derive(Clone, Copy, Debug, PartialEq, Eq, Structural)]
pub enum OutputStream {
    Stdout,
    Stderr,
}

/// The name of a stream as it appears in the messages.
pub open spec fn stream_name(stream: OutputStream) -> Seq<char> {
    match stream {
        OutputStream::Stdout => "stdout"@,
        OutputStream::Stderr => "stderr"@,
    }
}

/// The message that carries one line of output to the client: the line
/// without the newline that ends it, under the name of its stream.
pub open spec fn line_message(stream: OutputStream, task_id: Seq<char>, line: Seq<char>)
    -> TaskMessageView {
    TaskMessageView {
        kind: stream_name(stream),
        task_id: Some(task_id),
        data: Some(without_newline(line)),
        code: None,
    }
}

/// The state of streaming one task's output: what was read so far, and
/// which of the two streams have ended.
#[derive(Debug, PartialEq, Eq)]
pub struct OutputPump {
    pub task_id: String,
    pub output: String,
    pub stdout_done: bool,
    pub stderr_done: bool,
}

pub struct OutputPumpView {
    pub task_id: Seq<char>,
    pub output: Seq<char>,
    pub stdout_done: bool,
    pub stderr_done: bool,
}

impl View for OutputPump {
    type V = OutputPumpView;

    open spec fn view(&self) -> OutputPumpView {
        OutputPumpView {
            task_id: self.task_id@,
            output: self.output@,
            stdout_done: self.stdout_done,
            stderr_done: self.stderr_done,
        }
    }
}

impl OutputPumpView {
    /// Whether `stream` has ended.
    pub open spec fn ended(self, stream: OutputStream) -> bool {
        match stream {
            OutputStream::Stdout => self.stdout_done,
            OutputStream::Stderr => self.stderr_done,
        }
    }

    /// The state with `stream` ended.
    pub open spec fn close(self, stream: OutputStream) -> OutputPumpView {
        match stream {
            OutputStream::Stdout => OutputPumpView { stdout_done: true, ..self },
            OutputStream::Stderr => OutputPumpView { stderr_done: true, ..self },
        }
    }

    /// Whether a read carries a line: the stream is still open, the read
    /// succeeded and it was not the empty read that marks the end.
    pub open spec fn accepts(self, stream: OutputStream, read: Option<Seq<char>>) -> bool {
        !self.ended(stream) && read is Some && read->Some_0.len() > 0
    }

    /// Whether a read yields a message for the client: it carries a line,
    /// and the line is not empty once the newline that ends it is taken off.
    pub open spec fn emits(self, stream: OutputStream, read: Option<Seq<char>>) -> bool {
        self.accepts(stream, read) && without_newline(read->Some_0).len() > 0
    }

    /// The state after one read from `stream`.
    pub open spec fn after_read(self, stream: OutputStream, read: Option<Seq<char>>)
        -> OutputPumpView {
        if self.ended(stream) {
            self
        } else if self.accepts(stream, read) {
            OutputPumpView { output: self.output + read->Some_0, ..self }
        } else {
            self.close(stream)
        }
    }

    /// Both streams have ended.
    pub open spec fn drained(self) -> bool {
        self.stdout_done && self.stderr_done
    }
}

/// What a finished task leaves behind: its exit code, the end of its
/// history row, and the last message for the client.
#[derive(Debug, PartialEq, Eq)]
pub struct TaskCompletion {
    pub task_id: String,
    pub exit_code: i32,
    pub finished_at: String,
    pub output: Option<String>,
    pub exit_message: TaskMessage,
}

pub struct TaskCompletionView {
    pub task_id: Seq<char>,
    pub exit_code: i32,
    pub finished_at: Seq<char>,
    pub output: Option<Seq<char>>,
    pub exit_message: TaskMessageView,
}

impl View for TaskCompletion {
    type V = TaskCompletionView;

    open spec fn view(&self) -> TaskCompletionView {
        TaskCompletionView {
            task_id: self.task_id@,
            exit_code: self.exit_code,
            finished_at: self.finished_at@,
            output: opt_text(self.output),
            exit_message: self.exit_message@,
        }
    }
}

/// The completion of a task whose output was `pump`, whose registry slot
/// was `slot` when the output had drained, and whose child gave `status`.
pub open spec fn completion(
    pump: OutputPumpView,
    slot: Option<TaskSlot>,
    status: Option<i32>,
    finished_at: Seq<char>,
) -> TaskCompletionView {
    let exit_code = exit_code_of(slot, status);
    TaskCompletionView {
        task_id: pump.task_id,
        exit_code,
        finished_at,
        output: if pump.output.len() == 0 {
            None
        } else {
            Some(pump.output)
        },
        exit_message: TaskMessageView {
            kind: "exit"@,
            task_id: Some(pump.task_id),
            data: None,
            code: Some(exit_code),
        },
    }
}

impl OutputPump {
    /// The state before anything was read.
    pub fn new(task_id: String) -> (pump: Self)
        ensures
            pump@ == (OutputPumpView {
                task_id: task_id@,
                output: Seq::<char>::empty(),
                stdout_done: false,
                stderr_done: false,
            }),
    {
        OutputPump { task_id, output: String::new(), stdout_done: false, stderr_done: false }
    }

    /// Whether `stream` should still be read.
    pub fn wants(&self, stream: OutputStream) -> (b: bool)
        ensures
            b == !self@.ended(stream),
    {
        match stream {
            OutputStream::Stdout => !self.stdout_done,
            OutputStream::Stderr => !self.stderr_done,
        }
    }

    /// Whether both streams have ended, so that streaming is over.
    pub fn is_drained(&self) -> (b: bool)
        ensures
            b == self@.drained(),
    {
        self.stdout_done && self.stderr_done
    }

    /// Takes in the result of one read from `stream`.
    ///
    /// `read` is the text that was read, newline included; an empty text is
    /// the end of the stream, and `None` is a failed read, which ends the
    /// stream too. A line is added to the accumulated output as it was read.
    /// A line that is not empty comes back as the message for the client,
    /// without its newline; an empty line is kept in the output and yields
    /// no message. Reads from a stream that has ended are ignored.
    pub fn on_read(&mut self, stream: OutputStream, read: Option<&str>) -> (message: Option<
        TaskMessage,
    >)
        ensures
            final(self)@ == old(self)@.after_read(stream, opt_str(read)),
            old(self)@.emits(stream, opt_str(read)) ==> message is Some && message->Some_0@
                == line_message(stream, old(self).task_id@, read->Some_0@),
            !old(self)@.emits(stream, opt_str(read)) ==> message is None,
    {
        if !self.wants(stream) {
            return None;
        }
        match read {
            Some(line) => {
                if line.unicode_len() > 0 {
                    self.output.append(line);
                    let data = strip_newline(line);
                    if data.as_str().unicode_len() == 0 {
                        return None;
                    }
                    let kind = match stream {
                        OutputStream::Stdout => String::from_str("stdout"),
                        OutputStream::Stderr => String::from_str("stderr"),
                    };
                    return Some(
                        TaskMessage {
                            kind,
                            task_id: Some(self.task_id.clone()),
                            data: Some(data),
                            code: None,
                        },
                    );
                }
            },
            None => {},
        }
        match stream {
            OutputStream::Stdout => {
                self.stdout_done = true;
            },
            OutputStream::Stderr => {
                self.stderr_done = true;
            },
        }
        None
    }
}

/// The characters of an optional string slice.
pub open spec fn opt_str(o: Option<&str>) -> Option<Seq<char>> {
    match o {
        Some(s) => Some(s@),
        None => None,
    }
}

/// Closes a task whose output has drained, at a given time.
///
/// The exit code is the child's where the task is still registered with a
/// live child and `status` has its code; a task that was killed, or that is
/// no longer registered, reports `-1`. The task leaves the registry.
pub fn conclude_task_at(
    pump: OutputPump,
    registry: &mut TaskRegistry,
    status: Option<i32>,
    finished_at: String,
) -> (done: TaskCompletion)
    requires
        old(registry).wf(),
    ensures
        final(registry).wf(),
        final(registry)@ == old(registry)@.remove(pump.task_id@),
        done@ == completion(pump@, slot_of(old(registry)@, pump.task_id@), status, finished_at@),
{
    let slot = get_task(pump.task_id.as_str(), registry);
    let exit_code = task_exit_code(slot, status);
    remove_task(pump.task_id.as_str(), registry);
    let output = if pump.output.as_str().unicode_len() == 0 {
        None
    } else {
        Some(pump.output)
    };
    let exit_message = TaskMessage {
        kind: String::from_str("exit"),
        task_id: Some(pump.task_id.clone()),
        data: None,
        code: Some(exit_code),
    };
    TaskCompletion { task_id: pump.task_id, exit_code, finished_at, output, exit_message }
}

/// Closes a task whose output has drained, now.
///
/// The finishing time is whatever the clock gave; everything else is as in
/// [`conclude_task_at`]. In particular a task that was killed while it was
/// streaming reports the exit code `-1`.
pub fn conclude_task(pump: OutputPump, registry: &mut TaskRegistry, status: Option<i32>) -> (done:
    TaskCompletion)
    requires
        old(registry).wf(),
    ensures
        final(registry).wf(),
        final(registry)@ == old(registry)@.remove(pump.task_id@),
        done@ == completion(
            pump@,
            slot_of(old(registry)@, pump.task_id@),
            status,
            done@.finished_at,
        ),
        slot_of(old(registry)@, pump.task_id@) != Some(TaskSlot::Live) ==> done.exit_code == -1,
{
    conclude_task_at(pump, registry, status, now_rfc3339())
}

impl TaskHistory {
    /// The history row of a task once it has completed: the row as it was
    /// opened, with the finishing time, the exit code and the output
    /// filled in.
    pub fn completed(&self, done: &TaskCompletion) -> (row: TaskHistory)
        ensures
            row@ == (TaskHistoryView {
                finished_at: Some(done.finished_at@),
                exit_code: Some(done.exit_code),
                output: opt_text(done.output),
                ..self@
            }),
    {
        TaskHistory {
            id: self.id.clone(),
            script_name: self.script_name.clone(),
            started_at: self.started_at.clone(),
            finished_at: Some(done.finished_at.clone()),
            exit_code: Some(done.exit_code),
            output: copy_opt_text(&done.output),
        }
    }
}

} // verus!
