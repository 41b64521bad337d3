//! One session with a running plugin: what the host makes of the frames it
//! reads, how it answers key-value requests, and how it pairs the replies
//! to forwarded HTTP requests with the callers that wait for them.

use crate::clock::now_rfc3339;
use crate::error::{error_text, PluginError, PluginResult};
use crate::ident::{is_uuid_v4_text, random_uuid};
use crate::text::{opt_text, text_eq};
use crate::textmap::TextMap;
use crate::types::{
    correlation_of, envelope, family_of, HttpMessageResponse, HttpRequest, HttpResponse,
    HttpResponseView, KvMessagePayload, KvMessagePayloadView, KvOp, KvOpView, Message,
    MessagePayload, MessagePayloadView, MessageView, PluginKvStore,
};
use std::collections::HashMap;
use vstd::prelude::*;
use vstd::string::StringExecFns;

verus! {

/// The status a caller gets when the plugin did not answer in time.
pub const STATUS_GATEWAY_TIMEOUT: u16 = 504;

/// Whether the type of a message names the family of its payload.
pub open spec fn names_its_family(message: MessageView) -> bool {
    message.message_type == family_of(message.payload)
}

/// Whether the request id on the envelope of a message is that of its
/// payload: the same id for a request or a response, none for a lifecycle
/// message.
pub open spec fn is_correlated(message: MessageView) -> bool {
    message.request_id == correlation_of(message.payload)
}

/// Whether a message is what its envelope says: the message type names the
/// family of the payload, and the request id is that of the payload.
pub open spec fn is_consistent(message: MessageView) -> bool {
    message == envelope(message.timestamp, message.payload)
}

/// Every message in its envelope is consistent, and is read as what its
/// payload says: what the library builds, the library reads.
pub proof fn lemma_envelope_is_consistent(timestamp: Seq<char>, payload: MessagePayloadView)
    ensures
        is_consistent(envelope(timestamp, payload)),
        names_its_family(envelope(timestamp, payload)),
        reading_of(envelope(timestamp, payload)) == input_of(payload),
{
}

/// What a frame from a plugin means to the session.
#[derive(Debug, PartialEq, Eq)]
pub enum SessionInput {
    /// The plugin reports that it is ready.
    Ready,
    /// The plugin asks for a key-value operation.
    KvRequest { request_id: String, op: KvOp },
    /// Nothing the session acts on.
    Ignored,
}

pub enum SessionInputView {
    Ready,
    KvRequest { request_id: Seq<char>, op: KvOpView },
    Ignored,
}

impl View for SessionInput {
    type V = SessionInputView;

    open spec fn view(&self) -> SessionInputView {
        match *self {
            SessionInput::Ready => SessionInputView::Ready,
            SessionInput::KvRequest { request_id, op } => SessionInputView::KvRequest {
                request_id: request_id@,
                op: op@,
            },
            SessionInput::Ignored => SessionInputView::Ignored,
        }
    }
}

/// What a consistent message from a plugin means to the session.
pub open spec fn input_of(payload: MessagePayloadView) -> SessionInputView {
    match payload {
        MessagePayloadView::Lifecycle { action, .. } => if action == "ready"@ {
            SessionInputView::Ready
        } else {
            SessionInputView::Ignored
        },
        MessagePayloadView::Kv { request_id, payload: KvMessagePayloadView::Request(op) } => {
            SessionInputView::KvRequest { request_id, op }
        },
        _ => SessionInputView::Ignored,
    }
}

fn same_opt_text(a: &Option<String>, b: &Option<String>) -> (same: bool)
    ensures
        same == (opt_text(*a) == opt_text(*b)),
{
    match (a, b) {
        (Some(x), Some(y)) => *x == *y,
        (None, None) => true,
        _ => false,
    }
}

/// What a message whose type names its payload means to the session: what
/// its payload says where the request id on the envelope is that of the
/// payload, and nothing where it is not.
pub open spec fn reading_of(message: MessageView) -> SessionInputView {
    if is_correlated(message) {
        input_of(message.payload)
    } else {
        SessionInputView::Ignored
    }
}

/// Reads a message that came from a plugin.
///
/// A message whose type is not the family of its payload is a protocol
/// error, which ends the session. A message whose request id does not go
/// with its payload is dropped, and the session goes on. Of the others,
/// `lifecycle.ready` and key-value requests are acted on; everything else
/// is passed over.
pub fn classify(message: &Message) -> (input: PluginResult<SessionInput>)
    ensures
        names_its_family(message@) ==> input is Ok && input->Ok_0@ == reading_of(message@),
        !names_its_family(message@) ==> input is Err && input->Err_0 is Protocol,
{
    let (family, correlation) = match &message.payload {
        MessagePayload::Lifecycle { .. } => ("lifecycle", None),
        MessagePayload::Http { request_id, .. } => ("http", Some(request_id.clone())),
        MessagePayload::Kv { request_id, .. } => ("kv", Some(request_id.clone())),
    };
    assert(family@ == family_of(message@.payload));
    assert(opt_text(correlation) == correlation_of(message@.payload));
    if !text_eq(message.message_type.as_str(), family) {
        return Err(
            PluginError::Protocol(String::from_str("message type does not match its payload")),
        );
    }
    if !same_opt_text(&message.request_id, &correlation) {
        return Ok(SessionInput::Ignored);
    }
    let input = match &message.payload {
        MessagePayload::Lifecycle { action, .. } => {
            if text_eq(action.as_str(), "ready") {
                SessionInput::Ready
            } else {
                SessionInput::Ignored
            }
        },
        MessagePayload::Kv { request_id, payload: KvMessagePayload::Request(op) } => {
            SessionInput::KvRequest { request_id: request_id.clone(), op: op.clone() }
        },
        _ => SessionInput::Ignored,
    };
    Ok(input)
}

/// The value a key-value response carries for the outcome of the store
/// operation: the value found, or nothing where the store failed.
pub open spec fn reply_value(outcome: PluginResult<Option<String>>) -> Option<Seq<char>> {
    match outcome {
        Ok(value) => opt_text(value),
        Err(_) => None,
    }
}

/// What goes into the event log for the outcome of a store operation: the
/// error of a store that failed.
pub open spec fn reply_error(outcome: PluginResult<Option<String>>) -> Option<Seq<char>> {
    match outcome {
        Ok(_) => None,
        Err(e) => Some(error_text(e)),
    }
}

/// The answer to one key-value request.
#[derive(Debug, PartialEq, Eq)]
pub struct KvReply {
    /// The response frame for the plugin.
    pub response: Message,
    /// The error to log as a `kv_error` event, where the store failed.
    pub store_error: Option<String>,
}

/// The response frame for the request `request_id`.
pub open spec fn kv_response(timestamp: Seq<char>, request_id: Seq<char>, value: Option<Seq<char>>)
    -> MessageView {
    envelope(
        timestamp,
        MessagePayloadView::Kv {
            request_id,
            payload: KvMessagePayloadView::Response { value },
        },
    )
}

/// Answers a key-value request whose store operation ended in `outcome`.
///
/// The response bears the id of the request. A store that failed is not
/// reported to the plugin: the response then carries no value, and the
/// error is handed back to be logged.
pub fn kv_reply_at(timestamp: String, request_id: String, outcome: PluginResult<Option<String>>)
    -> (reply: KvReply)
    ensures
        reply.response@ == kv_response(timestamp@, request_id@, reply_value(outcome)),
        opt_text(reply.store_error) == reply_error(outcome),
{
    let (value, store_error) = match outcome {
        Ok(value) => (value, None),
        Err(e) => (None, Some(e.message())),
    };
    let response = Message::stamped(
        timestamp,
        MessagePayload::Kv { request_id, payload: KvMessagePayload::Response { value } },
    );
    KvReply { response, store_error }
}

/// The value that a key-value response carries.
pub open spec fn carried_value(message: MessageView) -> Option<Seq<char>> {
    match message.payload {
        MessagePayloadView::Kv { payload: KvMessagePayloadView::Response { value }, .. } => value,
        _ => None,
    }
}

/// Whether an operation asks the store for a value.
pub open spec fn reads_value(op: KvOpView) -> bool {
    op is Get
}

/// The outcome of an operation that hands no value back.
pub open spec fn without_value(done: PluginResult<()>) -> PluginResult<Option<String>> {
    match done {
        Ok(_) => Ok(None),
        Err(e) => Err(e),
    }
}

/// Whether `outcome` is what `store` made of `op`: the store was asked once,
/// for the operation that `op` names, with the key and the value of `op`,
/// and `outcome` is what it answered.
pub open spec fn answered<S: PluginKvStore + ?Sized>(
    store: &S,
    op: KvOpView,
    outcome: PluginResult<Option<String>>,
) -> bool {
    match op {
        KvOpView::Get { key } => exists|k: &str|
            k@ == key && #[trigger] call_ensures(S::get, (store, k), outcome),
        KvOpView::Put { key, value } => exists|k: &str, v: &str, done: PluginResult<()>|
            k@ == key && v@ == value && #[trigger] call_ensures(S::set, (store, k, v), done)
                && outcome == without_value(done),
        KvOpView::Delete { key } => exists|k: &str, done: PluginResult<()>|
            k@ == key && #[trigger] call_ensures(S::delete, (store, k), done) && outcome
                == without_value(done),
    }
}

/// Runs a key-value operation against `store`.
///
/// Whether the operation succeeds is up to the store. Only a read hands a
/// value back: a write or a delete that succeeded gives `Ok(None)`.
pub fn run_kv<S: PluginKvStore + ?Sized>(store: &S, op: &KvOp) -> (outcome: PluginResult<
    Option<String>,
>)
    ensures
        answered(store, op@, outcome),
        !reads_value(op@) ==> reply_value(outcome) is None,
{
    match op {
        KvOp::Get { key } => store.get(key.as_str()),
        KvOp::Put { key, value } => {
            let done = store.set(key.as_str(), value.as_str());
            match done {
                Ok(()) => Ok(None),
                Err(e) => Err(e),
            }
        },
        KvOp::Delete { key } => {
            let done = store.delete(key.as_str());
            match done {
                Ok(()) => Ok(None),
                Err(e) => Err(e),
            }
        },
    }
}

/// Serves one key-value request of a plugin against `store`.
///
/// Every request is answered, and with exactly one response, which bears
/// the id of the request: whatever the store does, a response comes back.
/// It carries the value that the store gave, or none where the store failed
/// or the operation hands none back; the error of a store that failed comes
/// back beside it, to be logged.
pub fn serve_kv<S: PluginKvStore + ?Sized>(store: &S, request_id: String, op: &KvOp) -> (reply:
    KvReply)
    ensures
        exists|outcome: PluginResult<Option<String>>|
            #[trigger] answered(store, op@, outcome) && reply.response@ == kv_response(
                reply.response@.timestamp,
                request_id@,
                reply_value(outcome),
            ) && opt_text(reply.store_error) == reply_error(outcome),
        reply.response@ == kv_response(
            reply.response@.timestamp,
            request_id@,
            carried_value(reply.response@),
        ),
        !reads_value(op@) ==> carried_value(reply.response@) is None,
        reply.store_error is Some ==> carried_value(reply.response@) is None,
{
    let outcome = run_kv(store, op);
    kv_reply_at(now_rfc3339(), request_id, outcome)
}

/// The forwarded HTTP requests that still wait for their reply, by request
/// id.
pub struct PendingRequests {
    waiting: TextMap<bool>,
}

impl View for PendingRequests {
    type V = Set<Seq<char>>;

    closed spec fn view(&self) -> Set<Seq<char>> {
        self.waiting@.dom()
    }
}

/// The response a caller gets for the reply of a plugin.
pub open spec fn relayed(status: u16, headers: Map<String, String>, body: Option<Seq<char>>)
    -> HttpResponseView {
    HttpResponseView { status, headers, body }
}

impl PendingRequests {
    /// No request id occurs twice.
    pub closed spec fn wf(&self) -> bool {
        self.waiting.wf()
    }

    /// No request waits.
    pub fn new() -> (pending: Self)
        ensures
            pending.wf(),
            pending@ == Set::<Seq<char>>::empty(),
    {
        let pending = PendingRequests { waiting: TextMap::new() };
        assert(pending@ =~= Set::<Seq<char>>::empty());
        pending
    }

    /// Whether a caller waits for the reply to `request_id`.
    pub fn is_waiting(&self, request_id: &str) -> (b: bool)
        requires
            self.wf(),
        ensures
            b == self@.contains(request_id@),
    {
        self.waiting.contains_key(request_id)
    }

    /// Notes that a caller waits for the reply to `request_id`.
    pub fn register(&mut self, request_id: &str)
        requires
            old(self).wf(),
        ensures
            final(self).wf(),
            final(self)@ == old(self)@.insert(request_id@),
    {
        self.waiting.insert(request_id.to_string(), true);
        assert(self@ =~= old(self)@.insert(request_id@));
    }

    /// Takes `request_id` off the list, and says whether it was on it.
    pub fn settle(&mut self, request_id: &str) -> (was_waiting: bool)
        requires
            old(self).wf(),
        ensures
            final(self).wf(),
            was_waiting == old(self)@.contains(request_id@),
            final(self)@ == old(self)@.remove(request_id@),
    {
        let gone = self.waiting.remove(request_id);
        assert(self@ =~= old(self)@.remove(request_id@));
        gone.is_some()
    }

    /// Hands the reply of a plugin to the caller that waits for it.
    ///
    /// The reply reaches a caller if and only if one waits under
    /// `request_id`; that caller then waits no longer, so a second reply
    /// under the same id reaches nobody. A reply that nobody waits for is
    /// dropped.
    pub fn deliver(&mut self, request_id: &str, reply: HttpMessageResponse) -> (response: Option<
        HttpResponse,
    >)
        requires
            old(self).wf(),
        ensures
            final(self).wf(),
            final(self)@ == old(self)@.remove(request_id@),
            old(self)@.contains(request_id@) ==> response is Some && response->Some_0@ == relayed(
                reply.status,
                reply.headers@,
                opt_text(reply.body),
            ),
            !old(self)@.contains(request_id@) ==> response is None,
    {
        if self.settle(request_id) {
            Some(HttpResponse { status: reply.status, headers: reply.headers, body: reply.body })
        } else {
            None
        }
    }

    /// Gives up on a reply that did not come in time.
    ///
    /// The caller that still waits gets `504` and waits no longer; the
    /// session stays open. Nothing happens if the reply has come meanwhile.
    pub fn time_out(&mut self, request_id: &str) -> (response: Option<HttpResponse>)
        requires
            old(self).wf(),
        ensures
            final(self).wf(),
            final(self)@ == old(self)@.remove(request_id@),
            old(self)@.contains(request_id@) ==> response is Some && response->Some_0@ == relayed(
                STATUS_GATEWAY_TIMEOUT,
                Map::<String, String>::empty(),
                None,
            ),
            !old(self)@.contains(request_id@) ==> response is None,
    {
        if self.settle(request_id) {
            Some(HttpResponse { status: STATUS_GATEWAY_TIMEOUT, headers: HashMap::new(), body: None })
        } else {
            None
        }
    }

    /// Prepares a forwarded request under a given id and time: the caller
    /// is noted as waiting, and the frame for the plugin comes back.
    pub fn forward_as(&mut self, request_id: String, timestamp: String, request: HttpRequest) -> (frame:
        Message)
        requires
            old(self).wf(),
        ensures
            final(self).wf(),
            final(self)@ == old(self)@.insert(request_id@),
            frame@ == envelope(
                timestamp@,
                MessagePayloadView::Http { request_id: request_id@, payload: request@ },
            ),
    {
        self.register(request_id.as_str());
        Message::stamped(timestamp, MessagePayload::Http { request_id, payload: request })
    }

    /// Prepares a forwarded request under a fresh request id.
    ///
    /// The id is a fresh version 4 UUID and the time is what the clock
    /// gave; the caller waits under the id that the frame carries.
    pub fn forward(&mut self, request: HttpRequest) -> (frame: Message)
        requires
            old(self).wf(),
        ensures
            final(self).wf(),
            frame@.request_id is Some,
            is_uuid_v4_text(frame@.request_id->Some_0),
            final(self)@ == old(self)@.insert(frame@.request_id->Some_0),
            frame@ == envelope(
                frame@.timestamp,
                MessagePayloadView::Http {
                    request_id: frame@.request_id->Some_0,
                    payload: request@,
                },
            ),
    {
        self.forward_as(random_uuid(), now_rfc3339(), request)
    }
}

} // verus!
