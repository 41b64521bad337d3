//! The snapshot of a plugin that the management API hands out.

use crate::lifecycle::{state_has_child, PluginProcess, PluginProcessView, PluginState};
use crate::text::{copy_opt_text, opt_text};
use crate::types::PluginMetadataView;
use vstd::prelude::*;
use vstd::string::StringExecFns;

verus! {

/// What the management API reports of a plugin.
///
/// `health` is `disabled`, `healthy` or `unhealthy`.
#[derive(Debug, PartialEq, Eq)]
pub struct PluginStatus {
    pub id: String,
    pub name: String,
    pub version: String,
    pub author: Option<String>,
    pub icon: String,
    pub enabled: bool,
    pub running: bool,
    pub health: String,
    pub pid: Option<u32>,
    pub socket_path: Option<String>,
}

pub struct PluginStatusView {
    pub id: Seq<char>,
    pub name: Seq<char>,
    pub version: Seq<char>,
    pub author: Option<Seq<char>>,
    pub icon: Seq<char>,
    pub enabled: bool,
    pub running: bool,
    pub health: Seq<char>,
    pub pid: Option<u32>,
    pub socket_path: Option<Seq<char>>,
}

impl View for PluginStatus {
    type V = PluginStatusView;

    open spec fn view(&self) -> PluginStatusView {
        PluginStatusView {
            id: self.id@,
            name: self.name@,
            version: self.version@,
            author: opt_text(self.author),
            icon: self.icon@,
            enabled: self.enabled,
            running: self.running,
            health: self.health@,
            pid: self.pid,
            socket_path: opt_text(self.socket_path),
        }
    }
}

/// The health of a plugin: `disabled` if it is not enabled, `healthy` if it
/// is running and its socket file is still there, `unhealthy` otherwise.
pub open spec fn health_of(enabled: bool, state: PluginState, socket_exists: bool) -> Seq<char> {
    if !enabled {
        "disabled"@
    } else if state is Running && socket_exists {
        "healthy"@
    } else {
        "unhealthy"@
    }
}

/// The name shown for a plugin: the declared one, or its id where it
/// declared nothing.
pub open spec fn shown_name(id: Seq<char>, metadata: Option<PluginMetadataView>) -> Seq<char> {
    match metadata {
        Some(m) => m.name,
        None => id,
    }
}

/// The version shown for a plugin.
pub open spec fn shown_version(metadata: Option<PluginMetadataView>) -> Seq<char> {
    match metadata {
        Some(m) => m.version,
        None => "unknown"@,
    }
}

/// The author shown for a plugin.
pub open spec fn shown_author(metadata: Option<PluginMetadataView>) -> Option<Seq<char>> {
    match metadata {
        Some(m) => m.author,
        None => None,
    }
}

/// The icon shown for a plugin.
pub open spec fn shown_icon(metadata: Option<PluginMetadataView>) -> Seq<char> {
    match metadata {
        Some(m) => m.icon,
        None => Seq::empty(),
    }
}

/// The status of the plugin `process`, given whether its socket file was
/// found on disk.
pub open spec fn status_of(process: PluginProcessView, socket_exists: bool) -> PluginStatusView {
    PluginStatusView {
        id: process.id,
        name: shown_name(process.id, process.metadata),
        version: shown_version(process.metadata),
        author: shown_author(process.metadata),
        icon: shown_icon(process.metadata),
        enabled: process.enabled,
        running: state_has_child(process.state),
        health: health_of(process.enabled, process.state, socket_exists),
        pid: process.pid,
        socket_path: if process.socket_path.len() == 0 {
            None
        } else {
            Some(process.socket_path)
        },
    }
}

impl PluginStatus {
    /// Takes the snapshot of a plugin. `socket_exists` says whether the
    /// file at the plugin's socket path was found.
    pub fn from_process(process: &PluginProcess, socket_exists: bool) -> (status: Self)
        ensures
            status@ == status_of(process@, socket_exists),
    {
        let health = if !process.enabled {
            String::from_str("disabled")
        } else if process.state == PluginState::Running && socket_exists {
            String::from_str("healthy")
        } else {
            String::from_str("unhealthy")
        };
        let (name, version, author, icon) = match &process.metadata {
            Some(m) => (m.name.clone(), m.version.clone(), copy_opt_text(&m.author), m.icon.clone()),
            None => (process.id.clone(), String::from_str("unknown"), None, String::new()),
        };
        PluginStatus {
            id: process.id.clone(),
            name,
            version,
            author,
            icon,
            enabled: process.enabled,
            running: process.has_child(),
            health,
            pid: process.pid,
            socket_path: if process.socket_path.as_str().is_empty() {
                None
            } else {
                Some(process.socket_path.clone())
            },
        }
    }
}

/// A plugin that is not enabled is reported as disabled, without a pid and
/// as not running, whatever is on disk.
pub proof fn lemma_disabled_status(process: PluginProcessView, socket_exists: bool)
    requires
        process.wf(),
        !process.enabled,
    ensures
        status_of(process, socket_exists).health == "disabled"@,
        status_of(process, socket_exists).pid is None,
        !status_of(process, socket_exists).running,
        status_of(process, socket_exists).socket_path is None,
{
}

} // verus!
