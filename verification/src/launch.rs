//! What the host hands to a plugin when it starts it: the places of its
//! socket and its log, and the first message of the session.

use crate::types::{
    envelope, LifecycleInitPayload, LifecycleInitPayloadView, Message, MessagePayloadView,
};
use vstd::prelude::*;
use vstd::string::StringExecFns;

verus! {

/// The file of the plugin `id` in `dir`, with the extension `extension`.
pub open spec fn plugin_file(dir: Seq<char>, id: Seq<char>, extension: Seq<char>) -> Seq<char> {
    dir + "/"@ + id + extension
}

/// The path of the socket on which the plugin `id` is to listen.
pub fn socket_path_for(socket_dir: &str, id: &str) -> (path: String)
    ensures
        path@ == plugin_file(socket_dir@, id@, ".sock"@),
{
    String::from_str(socket_dir).concat("/").concat(id).concat(".sock")
}

/// The path of the log file of the plugin `id`.
pub fn log_path_for(log_dir: &str, id: &str) -> (path: String)
    ensures
        path@ == plugin_file(log_dir@, id@, ".log"@),
{
    String::from_str(log_dir).concat("/").concat(id).concat(".log")
}

/// A variable in the environment of a plugin.
#[derive(Debug, PartialEq, Eq)]
pub struct EnvVar {
    pub name: String,
    pub value: String,
}

/// The environment that tells a plugin where its socket and its log are.
pub fn launch_env(socket_path: &str, log_path: &str) -> (env: Vec<EnvVar>)
    ensures
        env@.len() == 2,
        env@[0].name@ == "TORU_PLUGIN_SOCKET"@,
        env@[0].value@ == socket_path@,
        env@[1].name@ == "TORU_PLUGIN_LOG"@,
        env@[1].value@ == log_path@,
{
    let mut env: Vec<EnvVar> = Vec::new();
    env.push(
        EnvVar {
            name: String::from_str("TORU_PLUGIN_SOCKET"),
            value: String::from_str(socket_path),
        },
    );
    env.push(
        EnvVar { name: String::from_str("TORU_PLUGIN_LOG"), value: String::from_str(log_path) },
    );
    env
}

/// The `lifecycle.init` message: the first frame of every session. It
/// carries the host's instance id and the places of the plugin's socket and
/// log.
pub fn init_message(instance_id: &str, plugin_socket: &str, log_path: &str) -> (message: Message)
    ensures
        message@ == envelope(
            message@.timestamp,
            MessagePayloadView::Lifecycle {
                action: "init"@,
                payload: Some(
                    LifecycleInitPayloadView {
                        instance_id: instance_id@,
                        plugin_socket: plugin_socket@,
                        log_path: log_path@,
                    },
                ),
            },
        ),
{
    Message::new_lifecycle(
        "init",
        Some(
            LifecycleInitPayload {
                instance_id: String::from_str(instance_id),
                plugin_socket: String::from_str(plugin_socket),
                log_path: String::from_str(log_path),
            },
        ),
    )
}

/// The `lifecycle.shutdown` message, which asks a plugin to exit.
pub fn shutdown_message() -> (message: Message)
    ensures
        message@ == envelope(
            message@.timestamp,
            MessagePayloadView::Lifecycle { action: "shutdown"@, payload: None },
        ),
{
    Message::new_lifecycle("shutdown", None)
}

} // verus!
