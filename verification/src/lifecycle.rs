//! The life of one plugin: its record, the events that move it from state
//! to state, and what the supervisor has to do at each move.
//!
//! ```text
//! Unloaded --enable--> Starting --ready--> Running
//!                       ^   |                 |
//!                 retry |   | failure         | failure
//!                       |   v                 v
//!                       Degraded <------------+
//!
//! Starting | Running | Degraded --disable--> Stopping --child exited--> Disabled
//! Disabled --enable--> Starting
//! ```
//!
//! A plugin that fails when its restarts are used up is disabled instead of
//! being retried.

use crate::config::{backoff_ms, SupervisorConfig};
use crate::text::{copy_opt_text, opt_text};
use crate::types::{opt_metadata, PluginMetadata, PluginMetadataView};
use vstd::prelude::*;

verus! {

/// The states of a plugin.
#[derive(Clone, Copy, Debug, PartialEq, Eq, Structural)]
pub enum PluginState {
    /// Enabled and known, not started yet.
    Unloaded,
    /// The child was asked for; the session is not up yet.
    Starting,
    /// The child runs and its socket is there.
    Running,
    /// The plugin failed and waits for its restart.
    Degraded,
    /// The plugin was told to stop and its child has not gone yet.
    Stopping,
    /// The plugin is switched off.
    Disabled,
}

/// The kinds of entries in the plugin event log.
#[derive(Clone, Copy, Debug, PartialEq, Eq, Structural)]
pub enum EventKind {
    Started,
    Stopped,
    Crashed,
    AutoDisabled,
    MetadataFailed,
    KvError,
}

/// What the supervisor has to do after a plugin changed state.
#[derive(Clone, Copy, Debug, PartialEq, Eq, Structural)]
pub enum Action {
    /// Remove a socket file left from an earlier run, start the child,
    /// connect to its socket and send `lifecycle.init`. What the child and
    /// its session report later is to bear the number `run`.
    Spawn { run: u64 },
    /// Send `lifecycle.shutdown`, kill the child if it has not exited after
    /// `grace_ms`, and release the socket file.
    Stop { grace_ms: u64 },
    /// Kill the child of a plugin that failed while its child lived on, so
    /// that no child is left when the plugin is started again.
    Kill,
    /// Deliver [`LifecycleEvent::RetryDue`] after `delay_ms`.
    ScheduleRetry { delay_ms: u64 },
    /// Write the plugin's `enabled` flag to the settings store.
    PersistEnabled { enabled: bool },
    /// Append an entry to the plugin event log.
    Record { event: EventKind },
}

/// What can happen to a plugin.
#[derive(Debug, PartialEq, Eq)]
pub enum LifecycleEvent {
    /// The operator enables the plugin, or the host starts with the plugin
    /// enabled.
    Enable,
    /// The operator disables the plugin.
    Disable,
    /// The child of run `run` was spawned and its session is up: the plugin
    /// said `ready`, or `init` was sent and the socket was seen to exist.
    Ready { run: u64, pid: u32, socket_path: String },
    /// Run `run` of the plugin failed without its child exiting: the spawn
    /// was refused, the socket did not appear in time, the session broke on
    /// a protocol error, the socket file vanished or the health probe gave
    /// up.
    Failed { run: u64, reason: String },
    /// The child process of run `run` has exited.
    ChildExited { run: u64, reason: String },
    /// The delay before a restart has passed.
    RetryDue,
    /// The plugin has been running without interruption for `running_ms`.
    Healthy { running_ms: u64 },
}

pub enum LifecycleEventView {
    Enable,
    Disable,
    Ready { run: u64, pid: u32, socket_path: Seq<char> },
    Failed { run: u64, reason: Seq<char> },
    ChildExited { run: u64, reason: Seq<char> },
    RetryDue,
    Healthy { running_ms: u64 },
}

impl View for LifecycleEvent {
    type V = LifecycleEventView;

    open spec fn view(&self) -> LifecycleEventView {
        match *self {
            LifecycleEvent::Enable => LifecycleEventView::Enable,
            LifecycleEvent::Disable => LifecycleEventView::Disable,
            LifecycleEvent::Ready { run, pid, socket_path } => LifecycleEventView::Ready {
                run,
                pid,
                socket_path: socket_path@,
            },
            LifecycleEvent::Failed { run, reason } => LifecycleEventView::Failed {
                run,
                reason: reason@,
            },
            LifecycleEvent::ChildExited { run, reason } => LifecycleEventView::ChildExited {
                run,
                reason: reason@,
            },
            LifecycleEvent::RetryDue => LifecycleEventView::RetryDue,
            LifecycleEvent::Healthy { running_ms } => LifecycleEventView::Healthy { running_ms },
        }
    }
}

/// Everything the supervisor keeps about one plugin.
///
/// `socket_path` is empty unless the plugin is running. The child process
/// itself is held by whoever spawned it; [`PluginProcess::has_child`] says
/// whether there is one, and `run` counts the children that were started
/// for the plugin, so that the reports of an earlier child can be told from
/// those of the present one.
#[derive(Debug, PartialEq, Eq)]
pub struct PluginProcess {
    pub id: String,
    pub metadata: Option<PluginMetadata>,
    pub enabled: bool,
    pub state: PluginState,
    pub pid: Option<u32>,
    pub socket_path: String,
    pub restart_count: u32,
    pub last_exit_reason: Option<String>,
    pub run: u64,
}

pub struct PluginProcessView {
    pub id: Seq<char>,
    pub metadata: Option<PluginMetadataView>,
    pub enabled: bool,
    pub state: PluginState,
    pub pid: Option<u32>,
    pub socket_path: Seq<char>,
    pub restart_count: u32,
    pub last_exit_reason: Option<Seq<char>>,
    pub run: u64,
}

impl View for PluginProcess {
    type V = PluginProcessView;

    open spec fn view(&self) -> PluginProcessView {
        PluginProcessView {
            id: self.id@,
            metadata: opt_metadata(self.metadata),
            enabled: self.enabled,
            state: self.state,
            pid: self.pid,
            socket_path: self.socket_path@,
            restart_count: self.restart_count,
            last_exit_reason: opt_text(self.last_exit_reason),
            run: self.run,
        }
    }
}

/// The number of the run after run `run`.
pub open spec fn run_after(run: u64) -> u64 {
    if run < u64::MAX {
        (run + 1) as u64
    } else {
        0
    }
}

/// Whether a plugin in `state` has a child process.
pub open spec fn state_has_child(state: PluginState) -> bool {
    state is Starting || state is Running || state is Stopping || state is Degraded
}

impl PluginProcessView {
    /// The invariants of a plugin record: a plugin that is not enabled is
    /// switched off, and only a running plugin has a pid and a socket.
    pub open spec fn wf(self) -> bool {
        &&& self.enabled <==> !(self.state is Disabled)
        &&& self.pid is Some <==> self.state is Running
        &&& self.socket_path.len() > 0 <==> self.state is Running
    }

    /// The record of a plugin that was just discovered.
    pub open spec fn discovered(
        id: Seq<char>,
        metadata: Option<PluginMetadataView>,
        enabled: bool,
    ) -> PluginProcessView {
        PluginProcessView {
            id,
            metadata,
            enabled,
            state: if enabled {
                PluginState::Unloaded
            } else {
                PluginState::Disabled
            },
            pid: None,
            socket_path: Seq::empty(),
            restart_count: 0,
            last_exit_reason: None,
            run: 0,
        }
    }

    /// The record of a plugin for which a new child is asked for.
    pub open spec fn starting(self) -> PluginProcessView {
        PluginProcessView { state: PluginState::Starting, run: run_after(self.run), ..self }
    }

    /// Whether `event` is a report of a child or a session that is not the
    /// present one. Such a report is ignored.
    pub open spec fn is_stale(self, event: LifecycleEventView) -> bool {
        match event {
            LifecycleEventView::Ready { run, .. } => run != self.run,
            LifecycleEventView::Failed { run, .. } => run != self.run,
            LifecycleEventView::ChildExited { run, .. } => run != self.run,
            _ => false,
        }
    }

    /// The record without pid and socket, in `state`.
    pub open spec fn idle(self, state: PluginState) -> PluginProcessView {
        PluginProcessView { state, pid: None, socket_path: Seq::empty(), ..self }
    }

    /// The record of a plugin that was switched off.
    pub open spec fn switched_off(self) -> PluginProcessView {
        PluginProcessView { enabled: false, restart_count: 0, ..self.idle(PluginState::Disabled) }
    }

    /// Whether the plugin has a child that can fail: it is starting or
    /// running.
    pub open spec fn can_fail(self) -> bool {
        self.state is Starting || self.state is Running
    }

    /// The record after a failure for `reason`: waiting for its restart, or
    /// switched off where the restarts are used up.
    pub open spec fn failed(self, reason: Seq<char>, config: SupervisorConfig) -> PluginProcessView {
        let noted = PluginProcessView { last_exit_reason: Some(reason), ..self };
        if self.restart_count >= config.max_restarts {
            noted.switched_off()
        } else {
            noted.idle(PluginState::Degraded)
        }
    }

    /// The record after `event`.
    pub open spec fn next(self, event: LifecycleEventView, config: SupervisorConfig)
        -> PluginProcessView {
        if self.is_stale(event) {
            self
        } else {
            self.on_current(event, config)
        }
    }

    /// The record after an event that is not stale.
    pub open spec fn on_current(self, event: LifecycleEventView, config: SupervisorConfig)
        -> PluginProcessView {
        match event {
            LifecycleEventView::Enable => {
                if self.state is Unloaded {
                    self.starting()
                } else if self.state is Disabled {
                    PluginProcessView { enabled: true, restart_count: 0, ..self }.starting()
                } else {
                    self
                }
            },
            LifecycleEventView::Disable => {
                if self.state is Unloaded {
                    self.switched_off()
                } else if self.can_fail() || self.state is Degraded {
                    self.idle(PluginState::Stopping)
                } else {
                    self
                }
            },
            LifecycleEventView::Ready { pid, socket_path, .. } => {
                if self.state is Starting && socket_path.len() > 0 {
                    PluginProcessView {
                        state: PluginState::Running,
                        pid: Some(pid),
                        socket_path,
                        ..self
                    }
                } else {
                    self
                }
            },
            LifecycleEventView::Failed { reason, .. } => {
                if self.can_fail() {
                    self.failed(reason, config)
                } else {
                    self
                }
            },
            LifecycleEventView::ChildExited { reason, .. } => {
                if self.can_fail() {
                    self.failed(reason, config)
                } else if self.state is Stopping {
                    self.switched_off()
                } else {
                    self
                }
            },
            LifecycleEventView::RetryDue => {
                if self.state is Degraded {
                    if self.restart_count >= config.max_restarts {
                        self.switched_off()
                    } else {
                        PluginProcessView {
                            restart_count: (self.restart_count + 1) as u32,
                            ..self
                        }.starting()
                    }
                } else {
                    self
                }
            },
            LifecycleEventView::Healthy { running_ms } => {
                if self.state is Running && running_ms >= config.healthy_reset_ms {
                    PluginProcessView { restart_count: 0, ..self }
                } else {
                    self
                }
            },
        }
    }

    /// What the supervisor does about the future of a plugin that failed:
    /// it gives the plugin up where its restarts are used up, and schedules
    /// the next restart where they are not.
    pub open spec fn verdict_actions(self, config: SupervisorConfig) -> Seq<Action> {
        if self.restart_count >= config.max_restarts {
            seq![
                Action::PersistEnabled { enabled: false },
                Action::Record { event: EventKind::AutoDisabled },
            ]
        } else {
            seq![
                Action::ScheduleRetry {
                    delay_ms: backoff_ms(
                        config.backoff_base_ms as nat,
                        config.backoff_cap_ms as nat,
                        self.restart_count as nat,
                    ) as u64,
                },
            ]
        }
    }

    /// What the supervisor does after a failure, in order: it records the
    /// crash, kills the child unless the failure was the child's own exit,
    /// and then gives the plugin up or schedules its restart.
    pub open spec fn failure_actions(self, config: SupervisorConfig, child_gone: bool) -> Seq<
        Action,
    > {
        let first = if child_gone {
            seq![Action::Record { event: EventKind::Crashed }]
        } else {
            seq![Action::Record { event: EventKind::Crashed }, Action::Kill]
        };
        first + self.verdict_actions(config)
    }

    /// What the supervisor does once the plugin is switched off by its
    /// operator.
    pub open spec fn stopped_actions() -> Seq<Action> {
        seq![Action::PersistEnabled { enabled: false }, Action::Record { event: EventKind::Stopped }]
    }

    /// What the supervisor does after `event`, in order.
    pub open spec fn actions(self, event: LifecycleEventView, config: SupervisorConfig) -> Seq<
        Action,
    > {
        if self.is_stale(event) {
            seq![]
        } else {
            self.actions_on_current(event, config)
        }
    }

    /// What the supervisor does after an event that is not stale, in
    /// order.
    pub open spec fn actions_on_current(self, event: LifecycleEventView, config: SupervisorConfig)
        -> Seq<Action> {
        match event {
            LifecycleEventView::Enable => {
                if self.state is Unloaded {
                    seq![Action::Spawn { run: run_after(self.run) }]
                } else if self.state is Disabled {
                    seq![
                        Action::PersistEnabled { enabled: true },
                        Action::Spawn { run: run_after(self.run) },
                    ]
                } else {
                    seq![]
                }
            },
            LifecycleEventView::Disable => {
                if self.state is Unloaded {
                    Self::stopped_actions()
                } else if self.can_fail() || self.state is Degraded {
                    seq![Action::Stop { grace_ms: config.shutdown_grace_ms }]
                } else {
                    seq![]
                }
            },
            LifecycleEventView::Ready { pid, socket_path, .. } => {
                if self.state is Starting && socket_path.len() > 0 {
                    seq![Action::Record { event: EventKind::Started }]
                } else {
                    seq![]
                }
            },
            LifecycleEventView::Failed { reason, .. } => {
                if self.can_fail() {
                    self.failure_actions(config, false)
                } else {
                    seq![]
                }
            },
            LifecycleEventView::ChildExited { reason, .. } => {
                if self.can_fail() {
                    self.failure_actions(config, true)
                } else if self.state is Stopping {
                    Self::stopped_actions()
                } else {
                    seq![]
                }
            },
            LifecycleEventView::RetryDue => {
                if self.state is Degraded {
                    if self.restart_count >= config.max_restarts {
                        seq![
                            Action::PersistEnabled { enabled: false },
                            Action::Record { event: EventKind::AutoDisabled },
                        ]
                    } else {
                        seq![Action::Spawn { run: run_after(self.run) }]
                    }
                } else {
                    seq![]
                }
            },
            LifecycleEventView::Healthy { .. } => seq![],
        }
    }
}

impl PluginProcess {
    /// The record of a plugin that was just discovered: waiting to be
    /// started if it is enabled, switched off if not.
    pub fn new(id: String, metadata: Option<PluginMetadata>, enabled: bool) -> (process: Self)
        ensures
            process@ == PluginProcessView::discovered(id@, opt_metadata(metadata), enabled),
            process@.wf(),
    {
        PluginProcess {
            id,
            metadata,
            enabled,
            state: if enabled {
                PluginState::Unloaded
            } else {
                PluginState::Disabled
            },
            pid: None,
            socket_path: String::new(),
            restart_count: 0,
            last_exit_reason: None,
            run: 0,
        }
    }

    /// Whether the plugin has a child process.
    pub fn has_child(&self) -> (b: bool)
        ensures
            b == state_has_child(self.state),
    {
        match self.state {
            PluginState::Starting | PluginState::Running | PluginState::Stopping
            | PluginState::Degraded => true,
            _ => false,
        }
    }

    fn start(&mut self) -> (run: u64)
        ensures
            final(self)@ == old(self)@.starting(),
            run == final(self).run,
    {
        self.state = PluginState::Starting;
        self.run = if self.run < u64::MAX {
            self.run + 1
        } else {
            0
        };
        self.run
    }

    fn go_idle(&mut self, state: PluginState)
        ensures
            final(self)@ == old(self)@.idle(state),
    {
        self.state = state;
        self.pid = None;
        self.socket_path = String::new();
    }

    fn switch_off(&mut self)
        ensures
            final(self)@ == old(self)@.switched_off(),
    {
        self.go_idle(PluginState::Disabled);
        self.enabled = false;
        self.restart_count = 0;
    }

    fn fail(&mut self, reason: String, config: &SupervisorConfig, child_gone: bool) -> (actions:
        Vec<Action>)
        ensures
            final(self)@ == old(self)@.failed(reason@, *config),
            actions@ == old(self)@.failure_actions(*config, child_gone),
    {
        self.last_exit_reason = Some(reason);
        let mut actions: Vec<Action> = Vec::new();
        actions.push(Action::Record { event: EventKind::Crashed });
        if !child_gone {
            actions.push(Action::Kill);
        }
        if self.restart_count >= config.max_restarts {
            self.switch_off();
            actions.push(Action::PersistEnabled { enabled: false });
            actions.push(Action::Record { event: EventKind::AutoDisabled });
        } else {
            let delay_ms = config.backoff_delay_ms(self.restart_count);
            self.go_idle(PluginState::Degraded);
            actions.push(Action::ScheduleRetry { delay_ms });
        }
        assert(actions@ =~= old(self)@.failure_actions(*config, child_gone));
        actions
    }

    fn stopped(&mut self) -> (actions: Vec<Action>)
        ensures
            final(self)@ == old(self)@.switched_off(),
            actions@ == PluginProcessView::stopped_actions(),
    {
        self.switch_off();
        let mut actions: Vec<Action> = Vec::new();
        actions.push(Action::PersistEnabled { enabled: false });
        actions.push(Action::Record { event: EventKind::Stopped });
        assert(actions@ =~= PluginProcessView::stopped_actions());
        actions
    }

    /// Moves the plugin along on `event` and returns what the supervisor
    /// has to do now, in order. An event that does not apply in the
    /// plugin's state changes nothing and asks for nothing, and so does the
    /// report of a child that is not the one started last.
    pub fn step(&mut self, event: LifecycleEvent, config: &SupervisorConfig) -> (actions: Vec<
        Action,
    >)
        ensures
            final(self)@ == old(self)@.next(event@, *config),
            actions@ == old(self)@.actions(event@, *config),
    {
        let mut actions: Vec<Action> = Vec::new();
        let stale = match &event {
            LifecycleEvent::Ready { run, .. } => *run != self.run,
            LifecycleEvent::Failed { run, .. } => *run != self.run,
            LifecycleEvent::ChildExited { run, .. } => *run != self.run,
            _ => false,
        };
        if stale {
            return actions;
        }
        match event {
            LifecycleEvent::Enable => {
                match self.state {
                    PluginState::Unloaded => {
                        let run = self.start();
                        actions.push(Action::Spawn { run });
                    },
                    PluginState::Disabled => {
                        self.enabled = true;
                        self.restart_count = 0;
                        let run = self.start();
                        actions.push(Action::PersistEnabled { enabled: true });
                        actions.push(Action::Spawn { run });
                    },
                    _ => {},
                }
            },
            LifecycleEvent::Disable => {
                match self.state {
                    PluginState::Unloaded => {
                        return self.stopped();
                    },
                    PluginState::Starting | PluginState::Running | PluginState::Degraded => {
                        self.go_idle(PluginState::Stopping);
                        actions.push(Action::Stop { grace_ms: config.shutdown_grace_ms });
                    },
                    _ => {},
                }
            },
            LifecycleEvent::Ready { run: _, pid, socket_path } => {
                match self.state {
                    PluginState::Starting => {
                        if !socket_path.as_str().is_empty() {
                            self.state = PluginState::Running;
                            self.pid = Some(pid);
                            self.socket_path = socket_path;
                            actions.push(Action::Record { event: EventKind::Started });
                        }
                    },
                    _ => {},
                }
            },
            LifecycleEvent::Failed { run: _, reason } => {
                match self.state {
                    PluginState::Starting | PluginState::Running => {
                        return self.fail(reason, config, false);
                    },
                    _ => {},
                }
            },
            LifecycleEvent::ChildExited { run: _, reason } => {
                match self.state {
                    PluginState::Starting | PluginState::Running => {
                        return self.fail(reason, config, true);
                    },
                    PluginState::Stopping => {
                        return self.stopped();
                    },
                    _ => {},
                }
            },
            LifecycleEvent::RetryDue => {
                match self.state {
                    PluginState::Degraded => {
                        if self.restart_count >= config.max_restarts {
                            self.switch_off();
                            actions.push(Action::PersistEnabled { enabled: false });
                            actions.push(Action::Record { event: EventKind::AutoDisabled });
                        } else {
                            self.restart_count = self.restart_count + 1;
                            let run = self.start();
                            actions.push(Action::Spawn { run });
                        }
                    },
                    _ => {},
                }
            },
            LifecycleEvent::Healthy { running_ms } => {
                match self.state {
                    PluginState::Running => {
                        if running_ms >= config.healthy_reset_ms {
                            self.restart_count = 0;
                        }
                    },
                    _ => {},
                }
            },
        }
        assert(actions@ =~= old(self)@.actions(event@, *config));
        actions
    }
}

impl Clone for PluginProcess {
    fn clone(&self) -> (r: Self)
        ensures
            r@ == self@,
    {
        PluginProcess {
            id: self.id.clone(),
            metadata: match &self.metadata {
                Some(m) => Some(m.clone()),
                None => None,
            },
            enabled: self.enabled,
            state: self.state,
            pid: self.pid,
            socket_path: self.socket_path.clone(),
            restart_count: self.restart_count,
            last_exit_reason: copy_opt_text(&self.last_exit_reason),
            run: self.run,
        }
    }
}

/// The record of a plugin after a series of events.
pub open spec fn after_events(
    start: PluginProcessView,
    events: Seq<LifecycleEventView>,
    config: SupervisorConfig,
) -> PluginProcessView
    decreases events.len(),
{
    if events.len() == 0 {
        start
    } else {
        after_events(start, events.drop_last(), config).next(events.last(), config)
    }
}

/// One crash of a running plugin and what follows it: the child exits, the
/// retry comes due, and the restarted child reports ready.
pub open spec fn crash_and_restart(
    record: PluginProcessView,
    pid: u32,
    socket_path: Seq<char>,
    config: SupervisorConfig,
) -> PluginProcessView {
    let crashed = record.next(
        LifecycleEventView::ChildExited { run: record.run, reason: Seq::empty() },
        config,
    );
    let retried = crashed.next(LifecycleEventView::RetryDue, config);
    retried.next(LifecycleEventView::Ready { run: retried.run, pid, socket_path }, config)
}

/// The record after `crashes` crashes in a row, each followed by its restart
/// as far as one is granted.
pub open spec fn after_crashes(
    record: PluginProcessView,
    crashes: nat,
    pid: u32,
    socket_path: Seq<char>,
    config: SupervisorConfig,
) -> PluginProcessView
    decreases crashes,
{
    if crashes == 0 {
        record
    } else {
        crash_and_restart(
            after_crashes(record, (crashes - 1) as nat, pid, socket_path, config),
            pid,
            socket_path,
            config,
        )
    }
}

/// No event breaks the invariants of a plugin record.
pub proof fn lemma_step_keeps_invariants(
    record: PluginProcessView,
    event: LifecycleEventView,
    config: SupervisorConfig,
)
    requires
        record.wf(),
    ensures
        record.next(event, config).wf(),
{
}

/// Whatever happens to a plugin after its discovery, a plugin that is not
/// enabled is switched off: it is in the state `Disabled`, and it has
/// neither a pid nor a child.
pub proof fn lemma_not_enabled_is_off(
    id: Seq<char>,
    metadata: Option<PluginMetadataView>,
    enabled: bool,
    events: Seq<LifecycleEventView>,
    config: SupervisorConfig,
)
    ensures
        ({
            let record = after_events(
                PluginProcessView::discovered(id, metadata, enabled),
                events,
                config,
            );
            &&& record.wf()
            &&& !record.enabled ==> record.state is Disabled && record.pid is None
                && !state_has_child(record.state)
        }),
    decreases events.len(),
{
    if events.len() > 0 {
        lemma_not_enabled_is_off(id, metadata, enabled, events.drop_last(), config);
        lemma_step_keeps_invariants(
            after_events(
                PluginProcessView::discovered(id, metadata, enabled),
                events.drop_last(),
                config,
            ),
            events.last(),
            config,
        );
    }
}

/// A plugin only starts running out of `Starting`, and while it stays
/// running its pid and its socket path do not change.
pub proof fn lemma_running_is_stable(
    record: PluginProcessView,
    event: LifecycleEventView,
    config: SupervisorConfig,
)
    requires
        record.next(event, config).state is Running,
    ensures
        record.state is Starting || record.state is Running,
        record.state is Running ==> record.next(event, config).pid == record.pid && record.next(
            event,
            config,
        ).socket_path == record.socket_path,
        record.state is Starting ==> event is Ready && record.next(event, config).socket_path.len()
            > 0,
{
}

/// A plugin that is switched off stays so, and nothing is spawned for it,
/// until it is enabled.
pub proof fn lemma_disabled_until_enabled(
    record: PluginProcessView,
    event: LifecycleEventView,
    config: SupervisorConfig,
)
    requires
        record.state is Disabled,
        !(event is Enable),
    ensures
        record.next(event, config) == record,
        record.actions(event, config) == Seq::<Action>::empty(),
{
}

/// A plugin that fails with its restarts used up is given up: it is
/// switched off, its `enabled` flag is persisted as false, and neither a
/// spawn nor a retry is asked for.
pub proof fn lemma_exhausted_plugin_is_disabled(
    record: PluginProcessView,
    reason: Seq<char>,
    config: SupervisorConfig,
)
    requires
        record.can_fail(),
        record.restart_count >= config.max_restarts,
    ensures
        ({
            let event = LifecycleEventView::ChildExited { run: record.run, reason };
            let actions = record.actions(event, config);
            &&& record.next(event, config).state is Disabled
            &&& !record.next(event, config).enabled
            &&& actions.contains(Action::PersistEnabled { enabled: false })
            &&& forall|run: u64| !actions.contains(Action::Spawn { run })
            &&& forall|delay_ms: u64| !actions.contains(Action::ScheduleRetry { delay_ms })
        }),
{
    let event = LifecycleEventView::ChildExited { run: record.run, reason };
    let actions = record.actions(event, config);
    assert(actions[1] == Action::PersistEnabled { enabled: false });
}

/// A plugin that fails while its child lives on has that child killed
/// before anything is done about its future, and nothing is spawned for it
/// in the same step.
pub proof fn lemma_failure_kills_the_child(
    record: PluginProcessView,
    reason: Seq<char>,
    config: SupervisorConfig,
)
    requires
        record.can_fail(),
    ensures
        ({
            let actions = record.actions(
                LifecycleEventView::Failed { run: record.run, reason },
                config,
            );
            &&& actions.len() >= 3
            &&& actions[1] == Action::Kill
            &&& forall|i: int| 0 <= i < actions.len() ==> !((#[trigger] actions[i]) is Spawn)
        }),
{
}

/// A plugin that fails with restarts left waits for the backoff delay that
/// belongs to the number of restarts made so far.
pub proof fn lemma_failure_schedules_backoff(
    record: PluginProcessView,
    reason: Seq<char>,
    config: SupervisorConfig,
)
    requires
        record.can_fail(),
        record.restart_count < config.max_restarts,
    ensures
        ({
            let event = LifecycleEventView::ChildExited { run: record.run, reason };
            &&& record.next(event, config).state is Degraded
            &&& record.actions(event, config).contains(
                Action::ScheduleRetry {
                    delay_ms: backoff_ms(
                        config.backoff_base_ms as nat,
                        config.backoff_cap_ms as nat,
                        record.restart_count as nat,
                    ) as u64,
                },
            )
        }),
{
    let event = LifecycleEventView::ChildExited { run: record.run, reason };
    let actions = record.actions(event, config);
    assert(actions[1] is ScheduleRetry);
}

/// What an earlier child or an earlier session of a plugin reports changes
/// nothing and asks for nothing: only the child that was started last
/// counts.
pub proof fn lemma_stale_report_is_ignored(
    record: PluginProcessView,
    event: LifecycleEventView,
    config: SupervisorConfig,
)
    requires
        record.is_stale(event),
    ensures
        record.next(event, config) == record,
        record.actions(event, config) == Seq::<Action>::empty(),
{
}

/// Every child that is asked for gets a run number of its own: the step
/// that asks for a child moves the record on to the run it names.
pub proof fn lemma_spawn_starts_a_new_run(
    record: PluginProcessView,
    event: LifecycleEventView,
    config: SupervisorConfig,
    i: int,
)
    requires
        0 <= i < record.actions(event, config).len(),
        record.actions(event, config)[i] is Spawn,
    ensures
        record.next(event, config).state is Starting,
        record.next(event, config).run == run_after(record.run),
        record.actions(event, config)[i] == (Action::Spawn { run: run_after(record.run) }),
{
}

/// The crash loop. A running plugin with a clean restart count that crashes
/// again and again is restarted after each of its first `max_restarts`
/// crashes, and is switched off by the next one; from then on it stays off.
pub proof fn lemma_crash_loop(
    record: PluginProcessView,
    crashes: nat,
    pid: u32,
    socket_path: Seq<char>,
    config: SupervisorConfig,
)
    requires
        record.wf(),
        record.state is Running,
        record.restart_count == 0,
        socket_path.len() > 0,
    ensures
        ({
            let end = after_crashes(record, crashes, pid, socket_path, config);
            &&& end.wf()
            &&& crashes <= config.max_restarts ==> end.state is Running && end.enabled
                && end.restart_count == crashes
            &&& crashes > config.max_restarts ==> end.state is Disabled && !end.enabled
                && end.restart_count == 0
        }),
    decreases crashes,
{
    if crashes > 0 {
        lemma_crash_loop(record, (crashes - 1) as nat, pid, socket_path, config);
    }
}

} // verus!
