//! Core of a plugin host: the wire protocol spoken with plugin processes, the
//! per-plugin lifecycle state machine with its restart policy, the registry
//! of discovered plugins, the log pager and the script-runner session.
//!
//! Everything here is pure: sockets, child processes, files and timers live
//! with the caller, which feeds the library events and carries out the
//! actions it answers with.
//!
//! - [`protocol`] frames messages on the plugin socket; [`types`] holds the
//!   messages themselves and [`session`] what a session makes of them.
//! - [`lifecycle`] is the state machine of one plugin, [`config`] its
//!   restart policy, [`supervisor`] the registry of all plugins with
//!   [`discovery`] and [`routing`], and [`settings`] the persisted flags.
//! - [`api`] and [`status`] decide what the management endpoints answer;
//!   [`logs`] pages through plugin logs and [`events`] writes the event log.
//! - [`runner`] and [`executor`] run scripts and stream their output.

pub mod api;
mod clock;
pub mod config;
pub mod discovery;
pub mod error;
pub mod events;
pub mod executor;
pub mod ident;
pub mod launch;
pub mod lifecycle;
pub mod logs;
pub mod protocol;
pub mod routing;
pub mod runner;
pub mod session;
pub mod settings;
pub mod status;
pub mod supervisor;
pub mod text;
pub mod textmap;
pub mod types;

pub use config::SupervisorConfig;
pub use error::{PluginError, PluginResult};
pub use executor::{
    cancel_task, create_task_registry, get_task, remove_task, store_task, TaskMessage,
    TaskRegistry, TaskSlot,
};
pub use lifecycle::{Action, EventKind, LifecycleEvent, PluginProcess, PluginState};
pub use logs::{default_page_size, LogEntry, LogLevel};
pub use protocol::PluginProtocol;
pub use status::PluginStatus;
pub use supervisor::Supervisor;
pub use types::{
    HttpMessageResponse, HttpRequest, HttpResponse, KvMessagePayload, KvMessageResponse, KvOp,
    LifecycleInitPayload, Message, MessagePayload, PluginConfig, PluginContext, PluginKvStore,
    PluginMetadata,
};
