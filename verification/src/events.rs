//! The plugin event log: what is written down when something happens to a
//! plugin.

use crate::clock::now_rfc3339;
use crate::ident::{is_uuid_v4_text, random_uuid};
use crate::lifecycle::EventKind;
use vstd::prelude::*;
use vstd::string::StringExecFns;

verus! {

/// The name under which a kind of event is entered in the log.
pub open spec fn event_name(kind: EventKind) -> Seq<char> {
    match kind {
        EventKind::Started => "started"@,
        EventKind::Stopped => "stopped"@,
        EventKind::Crashed => "crashed"@,
        EventKind::AutoDisabled => "auto_disabled"@,
        EventKind::MetadataFailed => "metadata_failed"@,
        EventKind::KvError => "kv_error"@,
    }
}

/// The name under which a kind of event is entered in the log.
pub fn event_type(kind: EventKind) -> (name: String)
    ensures
        name@ == event_name(kind),
{
    match kind {
        EventKind::Started => String::from_str("started"),
        EventKind::Stopped => String::from_str("stopped"),
        EventKind::Crashed => String::from_str("crashed"),
        EventKind::AutoDisabled => String::from_str("auto_disabled"),
        EventKind::MetadataFailed => String::from_str("metadata_failed"),
        EventKind::KvError => String::from_str("kv_error"),
    }
}

/// One row of the plugin event log. `timestamp` is RFC 3339 text.
#[derive(Debug, PartialEq, Eq)]
pub struct PluginEvent {
    pub id: String,
    pub plugin_id: String,
    pub event_type: String,
    pub details: String,
    pub timestamp: String,
}

pub struct PluginEventView {
    pub id: Seq<char>,
    pub plugin_id: Seq<char>,
    pub event_type: Seq<char>,
    pub details: Seq<char>,
    pub timestamp: Seq<char>,
}

impl View for PluginEvent {
    type V = PluginEventView;

    open spec fn view(&self) -> PluginEventView {
        PluginEventView {
            id: self.id@,
            plugin_id: self.plugin_id@,
            event_type: self.event_type@,
            details: self.details@,
            timestamp: self.timestamp@,
        }
    }
}

impl PluginEvent {
    /// The row for an event of the plugin `plugin_id`, under a given row id
    /// and time.
    pub fn at(id: String, timestamp: String, plugin_id: &str, kind: EventKind, details: &str) -> (row:
        Self)
        ensures
            row@ == (PluginEventView {
                id: id@,
                plugin_id: plugin_id@,
                event_type: event_name(kind),
                details: details@,
                timestamp: timestamp@,
            }),
    {
        PluginEvent {
            id,
            plugin_id: String::from_str(plugin_id),
            event_type: event_type(kind),
            details: String::from_str(details),
            timestamp,
        }
    }

    /// The row for an event of the plugin `plugin_id` that happens now. The
    /// row id is a fresh version 4 UUID, the time is what the clock gave.
    pub fn new(plugin_id: &str, kind: EventKind, details: &str) -> (row: Self)
        ensures
            row@ == (PluginEventView {
                id: row@.id,
                plugin_id: plugin_id@,
                event_type: event_name(kind),
                details: details@,
                timestamp: row@.timestamp,
            }),
            is_uuid_v4_text(row@.id),
    {
        PluginEvent::at(random_uuid(), now_rfc3339(), plugin_id, kind, details)
    }
}

} // verus!
