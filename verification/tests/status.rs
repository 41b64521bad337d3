use toru_plugin_host::config::SupervisorConfig;
use toru_plugin_host::lifecycle::{LifecycleEvent, PluginProcess, PluginState};
use toru_plugin_host::status::PluginStatus;
use toru_plugin_host::types::PluginMetadata;

fn alpha(enabled: bool) -> PluginProcess {
    PluginProcess::new(
        "alpha".to_string(),
        Some(PluginMetadata {
            id: "alpha".to_string(),
            name: "Alpha".to_string(),
            version: "1.2.3".to_string(),
            author: Some("Someone".to_string()),
            icon: "star".to_string(),
            route: "/alpha".to_string(),
        }),
        enabled,
    )
}

#[test]
fn disabled_plugin_is_reported_as_disabled() {
    let status = PluginStatus::from_process(&alpha(false), true);
    assert_eq!(
        status,
        PluginStatus {
            id: "alpha".to_string(),
            name: "Alpha".to_string(),
            version: "1.2.3".to_string(),
            author: Some("Someone".to_string()),
            icon: "star".to_string(),
            enabled: false,
            running: false,
            health: "disabled".to_string(),
            pid: None,
            socket_path: None,
        }
    );
}

#[test]
fn running_plugin_with_its_socket_is_healthy() {
    let config = SupervisorConfig::default();
    let mut plugin = alpha(true);
    plugin.step(LifecycleEvent::Enable, &config);
    plugin.step(
        LifecycleEvent::Ready { run: 1, pid: 77, socket_path: "/tmp/alpha.sock".to_string() },
        &config,
    );
    let status = PluginStatus::from_process(&plugin, true);
    assert_eq!(status.health, "healthy");
    assert!(status.enabled);
    assert!(status.running);
    assert_eq!(status.pid, Some(77));
    assert_eq!(status.socket_path, Some("/tmp/alpha.sock".to_string()));
}

#[test]
fn running_plugin_without_its_socket_is_unhealthy() {
    let config = SupervisorConfig::default();
    let mut plugin = alpha(true);
    plugin.step(LifecycleEvent::Enable, &config);
    plugin.step(
        LifecycleEvent::Ready { run: 1, pid: 77, socket_path: "/tmp/alpha.sock".to_string() },
        &config,
    );
    assert_eq!(PluginStatus::from_process(&plugin, false).health, "unhealthy");
}

#[test]
fn enabled_plugin_that_does_not_run_is_unhealthy() {
    let config = SupervisorConfig::default();
    let mut plugin = alpha(true);
    assert_eq!(PluginStatus::from_process(&plugin, true).health, "unhealthy");
    assert!(!PluginStatus::from_process(&plugin, true).running);
    plugin.step(LifecycleEvent::Enable, &config);
    let starting = PluginStatus::from_process(&plugin, true);
    assert_eq!(starting.health, "unhealthy");
    assert!(starting.running);
    assert_eq!(starting.socket_path, None);
    assert_eq!(plugin.state, PluginState::Starting);
}

#[test]
fn plugin_without_metadata_is_shown_by_its_id() {
    let plugin = PluginProcess::new("bare".to_string(), None, true);
    let status = PluginStatus::from_process(&plugin, false);
    assert_eq!(status.id, "bare");
    assert_eq!(status.name, "bare");
    assert_eq!(status.version, "unknown");
    assert_eq!(status.author, None);
    assert_eq!(status.icon, "");
}
