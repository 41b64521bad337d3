use toru_plugin_host::events::{event_type, PluginEvent};
use toru_plugin_host::lifecycle::EventKind;

/// Events are written in the order in which they happen.
#[test]
fn test_t23_plugin_events_written_to_database() {
    let mut events = Vec::new();

    events.push(PluginEvent::new("test-plugin", EventKind::Started, "Plugin started successfully"));
    events.push(PluginEvent::new("test-plugin", EventKind::Stopped, "Plugin stopped by user"));

    assert_eq!(events.len(), 2, "Should have 2 events");
    assert_eq!(events[0].event_type, "started", "First event should be 'started'");
    assert_eq!(events[1].event_type, "stopped", "Second event should be 'stopped'");
    assert_eq!(events[0].plugin_id, "test-plugin");
    assert_eq!(events[0].details, "Plugin started successfully");
    assert_eq!(events[1].details, "Plugin stopped by user");
    assert_ne!(events[0].id, events[1].id);
    assert!(uuid::Uuid::parse_str(&events[0].id).is_ok());
    assert!(chrono::DateTime::parse_from_rfc3339(&events[0].timestamp).is_ok());
}

#[test]
fn event_kinds_have_their_names() {
    assert_eq!(event_type(EventKind::Started), "started");
    assert_eq!(event_type(EventKind::Stopped), "stopped");
    assert_eq!(event_type(EventKind::Crashed), "crashed");
    assert_eq!(event_type(EventKind::AutoDisabled), "auto_disabled");
    assert_eq!(event_type(EventKind::MetadataFailed), "metadata_failed");
    assert_eq!(event_type(EventKind::KvError), "kv_error");
}

#[test]
fn event_row_at_a_given_time() {
    let row = PluginEvent::at(
        "e1".to_string(),
        "2024-01-01T00:00:00+00:00".to_string(),
        "alpha",
        EventKind::AutoDisabled,
        "exit status: 1",
    );
    assert_eq!(
        row,
        PluginEvent {
            id: "e1".to_string(),
            plugin_id: "alpha".to_string(),
            event_type: "auto_disabled".to_string(),
            details: "exit status: 1".to_string(),
            timestamp: "2024-01-01T00:00:00+00:00".to_string(),
        }
    );
}
