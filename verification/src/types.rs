//! The values exchanged with plugins: declared metadata, forwarded HTTP
//! requests, key-value operations and the message envelope.

use crate::clock::now_rfc3339;
use crate::error::PluginResult;
use crate::text::{copy_opt_text, opt_text};
use std::collections::HashMap;
use vstd::prelude::*;
use vstd::string::StringExecFns;

verus! {

/// What a plugin declares about itself at the handshake.
#[derive(Debug, PartialEq, Eq)]
pub struct PluginMetadata {
    pub id: String,
    pub name: String,
    pub version: String,
    pub author: Option<String>,
    pub icon: String,
    pub route: String,
}

pub struct PluginMetadataView {
    pub id: Seq<char>,
    pub name: Seq<char>,
    pub version: Seq<char>,
    pub author: Option<Seq<char>>,
    pub icon: Seq<char>,
    pub route: Seq<char>,
}

impl View for PluginMetadata {
    type V = PluginMetadataView;

    open spec fn view(&self) -> PluginMetadataView {
        PluginMetadataView {
            id: self.id@,
            name: self.name@,
            version: self.version@,
            author: opt_text(self.author),
            icon: self.icon@,
            route: self.route@,
        }
    }
}

impl Clone for PluginMetadata {
    fn clone(&self) -> (r: Self)
        ensures
            r@ == self@,
    {
        PluginMetadata {
            id: self.id.clone(),
            name: self.name.clone(),
            version: self.version.clone(),
            author: copy_opt_text(&self.author),
            icon: self.icon.clone(),
            route: self.route.clone(),
        }
    }
}

/// The view of optional metadata.
pub open spec fn opt_metadata(o: Option<PluginMetadata>) -> Option<PluginMetadataView> {
    match o {
        Some(m) => Some(m@),
        None => None,
    }
}

/// Environment handed to a plugin.
#[derive(Debug, PartialEq, Eq)]
pub struct PluginConfig {
    pub env: HashMap<String, String>,
}

impl Clone for PluginConfig {
    fn clone(&self) -> (r: Self)
        ensures
            r.env@ == self.env@,
    {
        PluginConfig { env: self.env.clone() }
    }
}

impl Default for PluginConfig {
    fn default() -> (r: Self)
        ensures
            r.env@ == Map::<String, String>::empty(),
    {
        PluginConfig { env: HashMap::new() }
    }
}

/// The key-value store a host offers to one plugin.
///
/// Implementations decide where the values live; the library only routes
/// requests to them and never assumes an operation succeeds.
pub trait PluginKvStore: Send + Sync {
    fn get(&self, key: &str) -> PluginResult<Option<String>>;

    fn set(&self, key: &str, value: &str) -> PluginResult<()>;

    fn delete(&self, key: &str) -> PluginResult<()>;
}

/// What a plugin is given when it is initialised.
pub struct PluginContext {
    pub instance_id: String,
    pub config: PluginConfig,
    pub kv: Box<dyn PluginKvStore>,
}

/// An HTTP request forwarded to a plugin.
#[derive(Debug, PartialEq, Eq)]
pub struct HttpRequest {
    pub method: String,
    pub path: String,
    pub headers: HashMap<String, String>,
    pub body: Option<String>,
}

pub struct HttpRequestView {
    pub method: Seq<char>,
    pub path: Seq<char>,
    pub headers: Map<String, String>,
    pub body: Option<Seq<char>>,
}

impl View for HttpRequest {
    type V = HttpRequestView;

    open spec fn view(&self) -> HttpRequestView {
        HttpRequestView {
            method: self.method@,
            path: self.path@,
            headers: self.headers@,
            body: opt_text(self.body),
        }
    }
}

impl Clone for HttpRequest {
    fn clone(&self) -> (r: Self)
        ensures
            r@ == self@,
    {
        HttpRequest {
            method: self.method.clone(),
            path: self.path.clone(),
            headers: self.headers.clone(),
            body: copy_opt_text(&self.body),
        }
    }
}

/// An HTTP response as the external caller sees it.
#[derive(Debug, PartialEq, Eq)]
pub struct HttpResponse {
    pub status: u16,
    pub headers: HashMap<String, String>,
    pub body: Option<String>,
}

pub struct HttpResponseView {
    pub status: u16,
    pub headers: Map<String, String>,
    pub body: Option<Seq<char>>,
}

impl View for HttpResponse {
    type V = HttpResponseView;

    open spec fn view(&self) -> HttpResponseView {
        HttpResponseView { status: self.status, headers: self.headers@, body: opt_text(self.body) }
    }
}

impl Clone for HttpResponse {
    fn clone(&self) -> (r: Self)
        ensures
            r@ == self@,
    {
        HttpResponse {
            status: self.status,
            headers: self.headers.clone(),
            body: copy_opt_text(&self.body),
        }
    }
}

/// A key-value operation requested by a plugin.
#[derive(Debug, PartialEq, Eq)]
pub enum KvOp {
    Get { key: String },
    /// Stores `value` under `key` (`Set` on the wire).
    Put { key: String, value: String },
    Delete { key: String },
}

pub enum KvOpView {
    Get { key: Seq<char> },
    Put { key: Seq<char>, value: Seq<char> },
    Delete { key: Seq<char> },
}

impl View for KvOp {
    type V = KvOpView;

    open spec fn view(&self) -> KvOpView {
        match *self {
            KvOp::Get { key } => KvOpView::Get { key: key@ },
            KvOp::Put { key, value } => KvOpView::Put { key: key@, value: value@ },
            KvOp::Delete { key } => KvOpView::Delete { key: key@ },
        }
    }
}

impl Clone for KvOp {
    fn clone(&self) -> (r: Self)
        ensures
            r@ == self@,
    {
        match self {
            KvOp::Get { key } => KvOp::Get { key: key.clone() },
            KvOp::Put { key, value } => KvOp::Put { key: key.clone(), value: value.clone() },
            KvOp::Delete { key } => KvOp::Delete { key: key.clone() },
        }
    }
}

/// What the host tells a plugin when it initialises it.
#[derive(Debug, PartialEq, Eq)]
pub struct LifecycleInitPayload {
    pub instance_id: String,
    pub plugin_socket: String,
    pub log_path: String,
}

pub struct LifecycleInitPayloadView {
    pub instance_id: Seq<char>,
    pub plugin_socket: Seq<char>,
    pub log_path: Seq<char>,
}

impl View for LifecycleInitPayload {
    type V = LifecycleInitPayloadView;

    open spec fn view(&self) -> LifecycleInitPayloadView {
        LifecycleInitPayloadView {
            instance_id: self.instance_id@,
            plugin_socket: self.plugin_socket@,
            log_path: self.log_path@,
        }
    }
}

impl Clone for LifecycleInitPayload {
    fn clone(&self) -> (r: Self)
        ensures
            r@ == self@,
    {
        LifecycleInitPayload {
            instance_id: self.instance_id.clone(),
            plugin_socket: self.plugin_socket.clone(),
            log_path: self.log_path.clone(),
        }
    }
}

/// The view of an optional init payload.
pub open spec fn opt_init(o: Option<LifecycleInitPayload>) -> Option<LifecycleInitPayloadView> {
    match o {
        Some(p) => Some(p@),
        None => None,
    }
}

/// The body of a key-value frame: a request going to the host, or the
/// value coming back.
#[derive(Debug, PartialEq, Eq)]
pub enum KvMessagePayload {
    Request(KvOp),
    Response { value: Option<String> },
}

pub enum KvMessagePayloadView {
    Request(KvOpView),
    Response { value: Option<Seq<char>> },
}

impl View for KvMessagePayload {
    type V = KvMessagePayloadView;

    open spec fn view(&self) -> KvMessagePayloadView {
        match *self {
            KvMessagePayload::Request(op) => KvMessagePayloadView::Request(op@),
            KvMessagePayload::Response { value } => KvMessagePayloadView::Response {
                value: opt_text(value),
            },
        }
    }
}

impl Clone for KvMessagePayload {
    fn clone(&self) -> (r: Self)
        ensures
            r@ == self@,
    {
        match self {
            KvMessagePayload::Request(op) => KvMessagePayload::Request(op.clone()),
            KvMessagePayload::Response { value } => KvMessagePayload::Response {
                value: copy_opt_text(value),
            },
        }
    }
}

/// The three families of messages.
#[derive(Debug, PartialEq, Eq)]
#[allow(inconsistent_fields)]
pub enum MessagePayload {
    Lifecycle { action: String, payload: Option<LifecycleInitPayload> },
    Http { request_id: String, payload: HttpRequest },
    Kv { request_id: String, payload: KvMessagePayload },
}

#[allow(inconsistent_fields)]
pub enum MessagePayloadView {
    Lifecycle { action: Seq<char>, payload: Option<LifecycleInitPayloadView> },
    Http { request_id: Seq<char>, payload: HttpRequestView },
    Kv { request_id: Seq<char>, payload: KvMessagePayloadView },
}

impl View for MessagePayload {
    type V = MessagePayloadView;

    open spec fn view(&self) -> MessagePayloadView {
        match *self {
            MessagePayload::Lifecycle { action, payload } => MessagePayloadView::Lifecycle {
                action: action@,
                payload: opt_init(payload),
            },
            MessagePayload::Http { request_id, payload } => MessagePayloadView::Http {
                request_id: request_id@,
                payload: payload@,
            },
            MessagePayload::Kv { request_id, payload } => MessagePayloadView::Kv {
                request_id: request_id@,
                payload: payload@,
            },
        }
    }
}

/// The name of the family a payload belongs to, as it appears on the wire.
pub open spec fn family_of(p: MessagePayloadView) -> Seq<char> {
    match p {
        MessagePayloadView::Lifecycle { .. } => "lifecycle"@,
        MessagePayloadView::Http { .. } => "http"@,
        MessagePayloadView::Kv { .. } => "kv"@,
    }
}

/// The request id a payload carries, if its family has one.
pub open spec fn correlation_of(p: MessagePayloadView) -> Option<Seq<char>> {
    match p {
        MessagePayloadView::Lifecycle { .. } => None,
        MessagePayloadView::Http { request_id, .. } => Some(request_id),
        MessagePayloadView::Kv { request_id, .. } => Some(request_id),
    }
}

/// One message on the plugin socket.
///
/// `timestamp` is RFC 3339 text.
#[derive(Debug, PartialEq, Eq)]
pub struct Message {
    pub message_type: String,
    pub timestamp: String,
    pub request_id: Option<String>,
    pub payload: MessagePayload,
}

pub struct MessageView {
    pub message_type: Seq<char>,
    pub timestamp: Seq<char>,
    pub request_id: Option<Seq<char>>,
    pub payload: MessagePayloadView,
}

impl View for Message {
    type V = MessageView;

    open spec fn view(&self) -> MessageView {
        MessageView {
            message_type: self.message_type@,
            timestamp: self.timestamp@,
            request_id: opt_text(self.request_id),
            payload: self.payload@,
        }
    }
}

/// The envelope that belongs around `payload` when it is sent at
/// `timestamp`: the family name and the request id are those of the payload.
pub open spec fn envelope(timestamp: Seq<char>, payload: MessagePayloadView) -> MessageView {
    MessageView {
        message_type: family_of(payload),
        timestamp,
        request_id: correlation_of(payload),
        payload,
    }
}

impl Message {
    /// Wraps `payload` in its envelope, stamped with `timestamp`.
    pub fn stamped(timestamp: String, payload: MessagePayload) -> (m: Self)
        ensures
            m@ == envelope(timestamp@, payload@),
    {
        let (message_type, request_id) = match &payload {
            MessagePayload::Lifecycle { .. } => (String::from_str("lifecycle"), None),
            MessagePayload::Http { request_id, .. } => (
                String::from_str("http"),
                Some(request_id.clone()),
            ),
            MessagePayload::Kv { request_id, .. } => (
                String::from_str("kv"),
                Some(request_id.clone()),
            ),
        };
        Message { message_type, timestamp, request_id, payload }
    }

    /// A lifecycle message, stamped with the current time.
    pub fn new_lifecycle(action: &str, init_payload: Option<LifecycleInitPayload>) -> (m: Self)
        ensures
            m@ == envelope(
                m@.timestamp,
                MessagePayloadView::Lifecycle { action: action@, payload: opt_init(init_payload) },
            ),
    {
        Message::stamped(
            now_rfc3339(),
            MessagePayload::Lifecycle { action: String::from_str(action), payload: init_payload },
        )
    }

    /// A forwarded HTTP request, stamped with the current time.
    pub fn new_http(request_id: String, payload: HttpRequest) -> (m: Self)
        ensures
            m@ == envelope(
                m@.timestamp,
                MessagePayloadView::Http { request_id: request_id@, payload: payload@ },
            ),
    {
        Message::stamped(now_rfc3339(), MessagePayload::Http { request_id, payload })
    }

    /// A key-value request, stamped with the current time.
    pub fn new_kv(request_id: String, payload: KvOp) -> (m: Self)
        ensures
            m@ == envelope(
                m@.timestamp,
                MessagePayloadView::Kv {
                    request_id: request_id@,
                    payload: KvMessagePayloadView::Request(payload@),
                },
            ),
    {
        Message::stamped(
            now_rfc3339(),
            MessagePayload::Kv { request_id, payload: KvMessagePayload::Request(payload) },
        )
    }

    /// The answer to a key-value request, stamped with the current time.
    pub fn new_kv_response(request_id: String, value: Option<String>) -> (m: Self)
        ensures
            m@ == envelope(
                m@.timestamp,
                MessagePayloadView::Kv {
                    request_id: request_id@,
                    payload: KvMessagePayloadView::Response { value: opt_text(value) },
                },
            ),
    {
        Message::stamped(
            now_rfc3339(),
            MessagePayload::Kv { request_id, payload: KvMessagePayload::Response { value } },
        )
    }
}

/// The reply of a plugin to a forwarded HTTP request.
#[derive(Debug, PartialEq, Eq)]
pub struct HttpMessageResponse {
    pub status: u16,
    pub headers: HashMap<String, String>,
    pub body: Option<String>,
}

pub struct HttpMessageResponseView {
    pub status: u16,
    pub headers: Map<String, String>,
    pub body: Option<Seq<char>>,
}

impl View for HttpMessageResponse {
    type V = HttpMessageResponseView;

    open spec fn view(&self) -> HttpMessageResponseView {
        HttpMessageResponseView {
            status: self.status,
            headers: self.headers@,
            body: opt_text(self.body),
        }
    }
}

/// The reply of the host to a key-value request.
#[derive(Debug, PartialEq, Eq)]
pub struct KvMessageResponse {
    pub value: Option<String>,
}

impl View for KvMessageResponse {
    type V = Option<Seq<char>>;

    open spec fn view(&self) -> Option<Seq<char>> {
        opt_text(self.value)
    }
}

} // verus!
