use toru_plugin_host::config::SupervisorConfig;
use toru_plugin_host::lifecycle::{
    Action, EventKind, LifecycleEvent, PluginProcess, PluginState,
};
use toru_plugin_host::types::PluginMetadata;

fn metadata(id: &str) -> PluginMetadata {
    PluginMetadata {
        id: id.to_string(),
        name: "Test Plugin".to_string(),
        version: "1.0.0".to_string(),
        author: Some("Test".to_string()),
        icon: "wrench".to_string(),
        route: format!("/{}", id),
    }
}

fn ready(plugin: &PluginProcess) -> LifecycleEvent {
    LifecycleEvent::Ready {
        run: plugin.run,
        pid: 4242,
        socket_path: "/tmp/toru-plugins/alpha.sock".to_string(),
    }
}

fn exited(plugin: &PluginProcess) -> LifecycleEvent {
    LifecycleEvent::ChildExited { run: plugin.run, reason: "exit status: 1".to_string() }
}

fn running(config: &SupervisorConfig) -> PluginProcess {
    let mut plugin = PluginProcess::new("alpha".to_string(), Some(metadata("alpha")), true);
    assert_eq!(plugin.step(LifecycleEvent::Enable, config), vec![Action::Spawn { run: 1 }]);
    assert_eq!(
        plugin.step(ready(&plugin), config),
        vec![Action::Record { event: EventKind::Started }]
    );
    plugin
}

#[test]
fn default_configuration() {
    let config = SupervisorConfig::default();
    assert_eq!(config.max_restarts, 10);
    assert_eq!(config.backoff_base_ms, 500);
    assert_eq!(config.backoff_cap_ms, 30_000);
    assert_eq!(config.healthy_reset_ms, 60_000);
    assert_eq!(config.handshake_timeout_ms, 2_000);
    assert_eq!(config.socket_timeout_ms, 5_000);
    assert_eq!(config.http_timeout_ms, 30_000);
    assert_eq!(config.shutdown_grace_ms, 3_000);
}

#[test]
fn backoff_doubles_up_to_the_cap() {
    let config = SupervisorConfig::default();
    let expected: Vec<u64> =
        vec![500, 1_000, 2_000, 4_000, 8_000, 16_000, 30_000, 30_000, 30_000, 30_000, 30_000];
    for (restart_count, delay) in expected.iter().enumerate() {
        assert_eq!(config.backoff_delay_ms(restart_count as u32), *delay);
    }
}

#[test]
fn backoff_at_the_edges() {
    let config = SupervisorConfig::default();
    assert_eq!(config.backoff_delay_ms(63), 30_000);
    assert_eq!(config.backoff_delay_ms(64), 30_000);
    assert_eq!(config.backoff_delay_ms(u32::MAX), 30_000);
    let still = SupervisorConfig { backoff_base_ms: 0, ..config };
    assert_eq!(still.backoff_delay_ms(0), 0);
    assert_eq!(still.backoff_delay_ms(u32::MAX), 0);
    let huge = SupervisorConfig { backoff_base_ms: 3, backoff_cap_ms: u64::MAX, ..config };
    assert_eq!(huge.backoff_delay_ms(0), 3);
    assert_eq!(huge.backoff_delay_ms(62), 3 << 62);
    assert_eq!(huge.backoff_delay_ms(63), u64::MAX);
    let capped_low = SupervisorConfig { backoff_base_ms: 500, backoff_cap_ms: 100, ..config };
    assert_eq!(capped_low.backoff_delay_ms(0), 100);
    assert_eq!(capped_low.backoff_delay_ms(5), 100);
}

#[test]
fn discovered_plugin_is_unloaded_or_disabled() {
    let enabled = PluginProcess::new("a".to_string(), Some(metadata("a")), true);
    assert_eq!(enabled.state, PluginState::Unloaded);
    assert!(enabled.enabled);
    assert!(!enabled.has_child());
    let disabled = PluginProcess::new("b".to_string(), None, false);
    assert_eq!(disabled.state, PluginState::Disabled);
    assert!(!disabled.enabled);
    assert_eq!(disabled.pid, None);
    assert_eq!(disabled.socket_path, "");
    assert_eq!(disabled.restart_count, 0);
    assert_eq!(disabled.last_exit_reason, None);
}

#[test]
fn enable_starts_and_ready_runs() {
    let config = SupervisorConfig::default();
    let mut plugin = PluginProcess::new("alpha".to_string(), Some(metadata("alpha")), true);
    assert_eq!(plugin.step(LifecycleEvent::Enable, &config), vec![Action::Spawn { run: 1 }]);
    assert_eq!(plugin.state, PluginState::Starting);
    assert_eq!(plugin.run, 1);
    assert!(plugin.has_child());
    assert_eq!(plugin.pid, None);
    assert_eq!(plugin.step(ready(&plugin), &config), vec![Action::Record { event: EventKind::Started }]);
    assert_eq!(plugin.state, PluginState::Running);
    assert_eq!(plugin.pid, Some(4242));
    assert_eq!(plugin.socket_path, "/tmp/toru-plugins/alpha.sock");
}

#[test]
fn disabled_plugin_never_runs_without_passing_through_starting() {
    let config = SupervisorConfig::default();
    let mut plugin = PluginProcess::new("alpha".to_string(), Some(metadata("alpha")), false);
    assert_eq!(plugin.step(ready(&plugin), &config), vec![]);
    assert_eq!(plugin.state, PluginState::Disabled);
    assert_eq!(plugin.pid, None);
    assert_eq!(
        plugin.step(LifecycleEvent::Enable, &config),
        vec![Action::PersistEnabled { enabled: true }, Action::Spawn { run: 1 }]
    );
    assert_eq!(plugin.state, PluginState::Starting);
    assert!(plugin.enabled);
}

#[test]
fn ready_without_a_socket_path_is_ignored() {
    let config = SupervisorConfig::default();
    let mut plugin = PluginProcess::new("alpha".to_string(), None, true);
    plugin.step(LifecycleEvent::Enable, &config);
    let actions =
        plugin.step(LifecycleEvent::Ready { run: 1, pid: 1, socket_path: String::new() }, &config);
    assert_eq!(actions, vec![]);
    assert_eq!(plugin.state, PluginState::Starting);
}

#[test]
fn failure_while_starting_degrades_and_schedules_a_retry() {
    let config = SupervisorConfig::default();
    let mut plugin = PluginProcess::new("alpha".to_string(), None, true);
    plugin.step(LifecycleEvent::Enable, &config);
    let actions = plugin.step(
        LifecycleEvent::Failed { run: 1, reason: "socket did not appear".to_string() },
        &config,
    );
    assert_eq!(
        actions,
        vec![
            Action::Record { event: EventKind::Crashed },
            Action::Kill,
            Action::ScheduleRetry { delay_ms: 500 },
        ]
    );
    assert_eq!(plugin.state, PluginState::Degraded);
    assert_eq!(plugin.last_exit_reason, Some("socket did not appear".to_string()));
    assert!(plugin.enabled);
}

#[test]
fn failure_with_restarts_used_up_kills_and_disables() {
    let config = SupervisorConfig { max_restarts: 0, ..SupervisorConfig::default() };
    let mut plugin = running(&config);
    let actions = plugin
        .step(LifecycleEvent::Failed { run: 1, reason: "protocol error".to_string() }, &config);
    assert_eq!(
        actions,
        vec![
            Action::Record { event: EventKind::Crashed },
            Action::Kill,
            Action::PersistEnabled { enabled: false },
            Action::Record { event: EventKind::AutoDisabled },
        ]
    );
    assert_eq!(plugin.state, PluginState::Disabled);
    assert!(!plugin.enabled);
    assert_eq!(plugin.pid, None);
}

#[test]
fn crash_while_running_clears_pid_and_socket() {
    let config = SupervisorConfig::default();
    let mut plugin = running(&config);
    let actions = plugin.step(exited(&plugin), &config);
    assert_eq!(
        actions,
        vec![
            Action::Record { event: EventKind::Crashed },
            Action::ScheduleRetry { delay_ms: 500 },
        ]
    );
    assert_eq!(plugin.state, PluginState::Degraded);
    assert_eq!(plugin.pid, None);
    assert_eq!(plugin.socket_path, "");
    assert_eq!(plugin.last_exit_reason, Some("exit status: 1".to_string()));
}

#[test]
fn retry_restarts_and_counts() {
    let config = SupervisorConfig::default();
    let mut plugin = running(&config);
    plugin.step(exited(&plugin), &config);
    assert_eq!(plugin.step(LifecycleEvent::RetryDue, &config), vec![Action::Spawn { run: 2 }]);
    assert_eq!(plugin.state, PluginState::Starting);
    assert_eq!(plugin.restart_count, 1);
    assert_eq!(plugin.run, 2);
    assert_eq!(plugin.step(LifecycleEvent::RetryDue, &config), vec![]);
    assert_eq!(plugin.restart_count, 1);
}

/// A plugin that exits right after every spawn is restarted ten times, with
/// growing delays, and is then switched off.
#[test]
fn crash_loop_ends_in_auto_disable() {
    let config = SupervisorConfig::default();
    let mut plugin = PluginProcess::new("alpha".to_string(), Some(metadata("alpha")), true);
    assert_eq!(plugin.step(LifecycleEvent::Enable, &config), vec![Action::Spawn { run: 1 }]);

    let mut delays = Vec::new();
    let mut spawns: u64 = 0;
    loop {
        let actions = plugin.step(exited(&plugin), &config);
        assert_eq!(actions[0], Action::Record { event: EventKind::Crashed });
        match actions[1] {
            Action::ScheduleRetry { delay_ms } => {
                assert_eq!(actions.len(), 2);
                delays.push(delay_ms);
                spawns += 1;
                assert_eq!(
                    plugin.step(LifecycleEvent::RetryDue, &config),
                    vec![Action::Spawn { run: spawns + 1 }]
                );
            }
            Action::PersistEnabled { enabled } => {
                assert!(!enabled);
                assert_eq!(actions[2], Action::Record { event: EventKind::AutoDisabled });
                assert_eq!(actions.len(), 3);
                break;
            }
            other => panic!("unexpected action {:?}", other),
        }
    }
    assert_eq!(
        delays,
        vec![500, 1_000, 2_000, 4_000, 8_000, 16_000, 30_000, 30_000, 30_000, 30_000]
    );
    assert_eq!(spawns, 10);
    assert!(!plugin.enabled);
    assert_eq!(plugin.state, PluginState::Disabled);
    assert_eq!(plugin.restart_count, 0);
    assert_eq!(plugin.pid, None);

    assert_eq!(plugin.step(LifecycleEvent::RetryDue, &config), vec![]);
    assert_eq!(plugin.step(exited(&plugin), &config), vec![]);
    assert_eq!(plugin.step(ready(&plugin), &config), vec![]);
    assert_eq!(plugin.state, PluginState::Disabled);

    assert_eq!(
        plugin.step(LifecycleEvent::Enable, &config),
        vec![Action::PersistEnabled { enabled: true }, Action::Spawn { run: 12 }]
    );
    assert_eq!(plugin.state, PluginState::Starting);
}

/// The restart count grows by one per restart, reaches the limit after ten,
/// and starts again from zero once it is reset.
#[test]
fn test_t15_plugin_crash_triggers_restart_with_backoff() {
    let config = SupervisorConfig::default();
    let max_restarts = config.max_restarts;
    let mut plugin = running(&config);

    assert_eq!(plugin.restart_count, 0, "Initial restart count should be 0");

    plugin.step(exited(&plugin), &config);
    plugin.step(LifecycleEvent::RetryDue, &config);
    assert_eq!(plugin.restart_count, 1, "After first restart");

    plugin.step(exited(&plugin), &config);
    plugin.step(LifecycleEvent::RetryDue, &config);
    assert_eq!(plugin.restart_count, 2, "After second restart");

    plugin.step(exited(&plugin), &config);
    plugin.step(LifecycleEvent::RetryDue, &config);
    assert_eq!(plugin.restart_count, 3, "After third restart");

    assert!(plugin.restart_count < max_restarts, "Should not disable yet");
    assert!(plugin.enabled);

    for _ in 0..7 {
        plugin.step(exited(&plugin), &config);
        plugin.step(LifecycleEvent::RetryDue, &config);
    }

    assert_eq!(plugin.restart_count, 10, "Should have 10 restarts");
    assert!(plugin.restart_count >= max_restarts, "Should disable after 10 restarts");
    plugin.step(exited(&plugin), &config);
    assert!(!plugin.enabled);
    assert_eq!(plugin.state, PluginState::Disabled);

    assert_eq!(plugin.restart_count, 0, "Restart count should reset to 0");
    plugin.step(LifecycleEvent::Enable, &config);
    plugin.step(exited(&plugin), &config);
    assert!(plugin.enabled, "Should not disable after reset");
}

#[test]
fn healthy_run_resets_the_restart_count() {
    let config = SupervisorConfig::default();
    let mut plugin = running(&config);
    plugin.step(exited(&plugin), &config);
    plugin.step(LifecycleEvent::RetryDue, &config);
    plugin.step(ready(&plugin), &config);
    assert_eq!(plugin.restart_count, 1);
    assert_eq!(plugin.step(LifecycleEvent::Healthy { running_ms: 59_999 }, &config), vec![]);
    assert_eq!(plugin.restart_count, 1);
    assert_eq!(plugin.step(LifecycleEvent::Healthy { running_ms: 60_000 }, &config), vec![]);
    assert_eq!(plugin.restart_count, 0);
    assert_eq!(plugin.state, PluginState::Running);
    assert_eq!(plugin.pid, Some(4242));
}

#[test]
fn disable_stops_then_switches_off() {
    let config = SupervisorConfig::default();
    let mut plugin = running(&config);
    assert_eq!(
        plugin.step(LifecycleEvent::Disable, &config),
        vec![Action::Stop { grace_ms: 3_000 }]
    );
    assert_eq!(plugin.state, PluginState::Stopping);
    assert!(plugin.enabled);
    assert!(plugin.has_child());
    assert_eq!(plugin.pid, None);
    assert_eq!(plugin.socket_path, "");
    assert_eq!(
        plugin.step(exited(&plugin), &config),
        vec![
            Action::PersistEnabled { enabled: false },
            Action::Record { event: EventKind::Stopped },
        ]
    );
    assert_eq!(plugin.state, PluginState::Disabled);
    assert!(!plugin.enabled);
    assert!(!plugin.has_child());
    assert_eq!(plugin.step(LifecycleEvent::Disable, &config), vec![]);
}

#[test]
fn disable_of_a_degraded_plugin_cancels_its_retry() {
    let config = SupervisorConfig::default();
    let mut plugin = running(&config);
    plugin.step(exited(&plugin), &config);
    assert_eq!(
        plugin.step(LifecycleEvent::Disable, &config),
        vec![Action::Stop { grace_ms: 3_000 }]
    );
    assert_eq!(plugin.step(LifecycleEvent::RetryDue, &config), vec![]);
    assert_eq!(plugin.state, PluginState::Stopping);
}

#[test]
fn disable_before_start_switches_off_at_once() {
    let config = SupervisorConfig::default();
    let mut plugin = PluginProcess::new("alpha".to_string(), None, true);
    assert_eq!(
        plugin.step(LifecycleEvent::Disable, &config),
        vec![
            Action::PersistEnabled { enabled: false },
            Action::Record { event: EventKind::Stopped },
        ]
    );
    assert_eq!(plugin.state, PluginState::Disabled);
    assert!(!plugin.enabled);
}

#[test]
fn pid_is_constant_while_running() {
    let config = SupervisorConfig::default();
    let mut plugin = running(&config);
    let pid = plugin.pid;
    let socket = plugin.socket_path.clone();
    plugin.step(LifecycleEvent::Enable, &config);
    plugin.step(
        LifecycleEvent::Ready { run: 1, pid: 1, socket_path: "/elsewhere.sock".to_string() },
        &config,
    );
    plugin.step(LifecycleEvent::RetryDue, &config);
    plugin.step(LifecycleEvent::Healthy { running_ms: 1 }, &config);
    assert_eq!(plugin.state, PluginState::Running);
    assert_eq!(plugin.pid, pid);
    assert_eq!(plugin.socket_path, socket);
}

#[test]
fn reports_of_an_earlier_child_are_ignored() {
    let config = SupervisorConfig::default();
    let mut plugin = running(&config);
    let first_run = plugin.run;
    plugin.step(
        LifecycleEvent::Failed { run: first_run, reason: "protocol error".to_string() },
        &config,
    );
    assert_eq!(plugin.step(LifecycleEvent::RetryDue, &config), vec![Action::Spawn { run: 2 }]);
    assert_eq!(plugin.state, PluginState::Starting);

    let late_exit =
        LifecycleEvent::ChildExited { run: first_run, reason: "killed".to_string() };
    assert_eq!(plugin.step(late_exit, &config), vec![]);
    assert_eq!(plugin.state, PluginState::Starting);
    let late_ready = LifecycleEvent::Ready {
        run: first_run,
        pid: 1,
        socket_path: "/tmp/old.sock".to_string(),
    };
    assert_eq!(plugin.step(late_ready, &config), vec![]);
    assert_eq!(plugin.state, PluginState::Starting);
    assert_eq!(plugin.last_exit_reason, Some("protocol error".to_string()));

    assert_eq!(
        plugin.step(ready(&plugin), &config),
        vec![Action::Record { event: EventKind::Started }]
    );
    assert_eq!(plugin.state, PluginState::Running);
}
