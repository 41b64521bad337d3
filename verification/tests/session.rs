use std::collections::HashMap;
use std::sync::Mutex;
use toru_plugin_host::session::{
    classify, kv_reply_at, run_kv, serve_kv, PendingRequests, SessionInput,
};
use toru_plugin_host::types::{
    HttpMessageResponse, HttpRequest, KvMessagePayload, KvOp, Message, MessagePayload,
    PluginKvStore,
};
use toru_plugin_host::{PluginError, PluginResult};

struct MemoryStore {
    values: Mutex<HashMap<String, String>>,
}

impl MemoryStore {
    fn new() -> Self {
        MemoryStore { values: Mutex::new(HashMap::new()) }
    }
}

impl PluginKvStore for MemoryStore {
    fn get(&self, key: &str) -> PluginResult<Option<String>> {
        Ok(self.values.lock().unwrap().get(key).cloned())
    }

    fn set(&self, key: &str, value: &str) -> PluginResult<()> {
        self.values.lock().unwrap().insert(key.to_string(), value.to_string());
        Ok(())
    }

    fn delete(&self, key: &str) -> PluginResult<()> {
        self.values.lock().unwrap().remove(key);
        Ok(())
    }
}

struct BrokenStore;

impl PluginKvStore for BrokenStore {
    fn get(&self, _key: &str) -> PluginResult<Option<String>> {
        Err(PluginError::Internal("disk full".to_string()))
    }

    fn set(&self, _key: &str, _value: &str) -> PluginResult<()> {
        Err(PluginError::Internal("disk full".to_string()))
    }

    fn delete(&self, _key: &str) -> PluginResult<()> {
        Err(PluginError::Timeout)
    }
}

fn response_value(message: &Message) -> Option<String> {
    match &message.payload {
        MessagePayload::Kv { payload: KvMessagePayload::Response { value }, .. } => value.clone(),
        other => panic!("not a kv response: {:?}", other),
    }
}

/// A set followed by a get of the same key: the first answer carries no
/// value, the second the value that was set; each bears its request's id.
#[test]
fn kv_round_trip() {
    let store = MemoryStore::new();
    let set = serve_kv(
        &store,
        "K1".to_string(),
        &KvOp::Put { key: "x".to_string(), value: "1".to_string() },
    );
    assert_eq!(set.response.message_type, "kv");
    assert_eq!(set.response.request_id, Some("K1".to_string()));
    assert_eq!(response_value(&set.response), None);
    assert_eq!(set.store_error, None);

    let get = serve_kv(&store, "K2".to_string(), &KvOp::Get { key: "x".to_string() });
    assert_eq!(get.response.request_id, Some("K2".to_string()));
    assert_eq!(response_value(&get.response), Some("1".to_string()));
    match &get.response.payload {
        MessagePayload::Kv { request_id, .. } => assert_eq!(request_id, "K2"),
        other => panic!("not a kv payload: {:?}", other),
    }
}

#[test]
fn kv_delete_removes_the_value() {
    let store = MemoryStore::new();
    serve_kv(&store, "a".to_string(), &KvOp::Put { key: "x".to_string(), value: "1".to_string() });
    let deleted = serve_kv(&store, "b".to_string(), &KvOp::Delete { key: "x".to_string() });
    assert_eq!(response_value(&deleted.response), None);
    let get = serve_kv(&store, "c".to_string(), &KvOp::Get { key: "x".to_string() });
    assert_eq!(response_value(&get.response), None);
    assert_eq!(get.store_error, None);
}

#[test]
fn failing_store_is_answered_with_no_value_and_logged() {
    let get = serve_kv(&BrokenStore, "K9".to_string(), &KvOp::Get { key: "x".to_string() });
    assert_eq!(get.response.request_id, Some("K9".to_string()));
    assert_eq!(response_value(&get.response), None);
    assert_eq!(get.store_error, Some("Internal error: disk full".to_string()));
    let delete = serve_kv(&BrokenStore, "K10".to_string(), &KvOp::Delete { key: "x".to_string() });
    assert_eq!(delete.response.request_id, Some("K10".to_string()));
    assert_eq!(delete.store_error, Some("Timeout".to_string()));
}

#[test]
fn store_works_through_a_trait_object() {
    let store: Box<dyn PluginKvStore> = Box::new(MemoryStore::new());
    assert_eq!(
        run_kv(&*store, &KvOp::Put { key: "k".to_string(), value: "v".to_string() }),
        Ok(None)
    );
    assert_eq!(run_kv(&*store, &KvOp::Get { key: "k".to_string() }), Ok(Some("v".to_string())));
    assert_eq!(run_kv(&*store, &KvOp::Get { key: "other".to_string() }), Ok(None));
}

#[test]
fn kv_reply_at_a_given_time() {
    let reply = kv_reply_at("T".to_string(), "K1".to_string(), Ok(Some("v".to_string())));
    assert_eq!(
        reply.response,
        Message {
            message_type: "kv".to_string(),
            timestamp: "T".to_string(),
            request_id: Some("K1".to_string()),
            payload: MessagePayload::Kv {
                request_id: "K1".to_string(),
                payload: KvMessagePayload::Response { value: Some("v".to_string()) },
            },
        }
    );
    assert_eq!(reply.store_error, None);
    let failed = kv_reply_at(
        "T".to_string(),
        "K2".to_string(),
        Err(PluginError::Socket("closed".to_string())),
    );
    assert_eq!(response_value(&failed.response), None);
    assert_eq!(failed.store_error, Some("Socket error: closed".to_string()));
}

#[test]
fn ready_and_kv_requests_are_acted_on() {
    assert_eq!(classify(&Message::new_lifecycle("ready", None)), Ok(SessionInput::Ready));
    let op = KvOp::Get { key: "x".to_string() };
    assert_eq!(
        classify(&Message::new_kv("K1".to_string(), op.clone())),
        Ok(SessionInput::KvRequest { request_id: "K1".to_string(), op })
    );
}

#[test]
fn other_messages_are_passed_over() {
    assert_eq!(classify(&Message::new_lifecycle("crashed", None)), Ok(SessionInput::Ignored));
    assert_eq!(classify(&Message::new_lifecycle("Ready", None)), Ok(SessionInput::Ignored));
    assert_eq!(
        classify(&Message::new_kv_response("K1".to_string(), None)),
        Ok(SessionInput::Ignored)
    );
    let request = HttpRequest {
        method: "GET".to_string(),
        path: "/".to_string(),
        headers: HashMap::new(),
        body: None,
    };
    assert_eq!(classify(&Message::new_http("R".to_string(), request)), Ok(SessionInput::Ignored));
}

#[test]
fn message_type_that_does_not_name_the_payload_is_a_protocol_error() {
    let mut wrong_type = Message::new_lifecycle("ready", None);
    wrong_type.message_type = "telemetry".to_string();
    assert!(matches!(classify(&wrong_type), Err(PluginError::Protocol(_))));

    let mut mismatched = Message::new_kv("K1".to_string(), KvOp::Get { key: "x".to_string() });
    mismatched.message_type = "http".to_string();
    assert!(matches!(classify(&mismatched), Err(PluginError::Protocol(_))));

    let mut wrong_type_and_id =
        Message::new_kv("K1".to_string(), KvOp::Get { key: "x".to_string() });
    wrong_type_and_id.message_type = "lifecycle".to_string();
    wrong_type_and_id.request_id = None;
    assert!(matches!(classify(&wrong_type_and_id), Err(PluginError::Protocol(_))));
}

#[test]
fn bad_correlation_is_dropped_and_the_session_goes_on() {
    let mut wrong_id = Message::new_kv("K1".to_string(), KvOp::Get { key: "x".to_string() });
    wrong_id.request_id = Some("K2".to_string());
    assert_eq!(classify(&wrong_id), Ok(SessionInput::Ignored));

    let mut missing_id = Message::new_kv("K1".to_string(), KvOp::Get { key: "x".to_string() });
    missing_id.request_id = None;
    assert_eq!(classify(&missing_id), Ok(SessionInput::Ignored));

    let mut stray_id = Message::new_lifecycle("ready", None);
    stray_id.request_id = Some("K".to_string());
    assert_eq!(classify(&stray_id), Ok(SessionInput::Ignored));
}

fn ping() -> HttpRequest {
    HttpRequest {
        method: "GET".to_string(),
        path: "/ping".to_string(),
        headers: HashMap::new(),
        body: None,
    }
}

fn pong() -> HttpMessageResponse {
    HttpMessageResponse { status: 200, headers: HashMap::new(), body: Some("pong".to_string()) }
}

/// A forwarded request is answered by the reply that bears its id.
#[test]
fn http_forward() {
    let mut pending = PendingRequests::new();
    let frame = pending.forward_as("R1".to_string(), "T".to_string(), ping());
    assert_eq!(frame.message_type, "http");
    assert_eq!(frame.request_id, Some("R1".to_string()));
    assert_eq!(
        frame.payload,
        MessagePayload::Http { request_id: "R1".to_string(), payload: ping() }
    );
    assert!(pending.is_waiting("R1"));

    let response = pending.deliver("R1", pong()).expect("a caller waits for R1");
    assert_eq!(response.status, 200);
    assert_eq!(response.body, Some("pong".to_string()));
    assert!(!pending.is_waiting("R1"));
}

#[test]
fn forward_uses_a_fresh_request_id() {
    let mut pending = PendingRequests::new();
    let first = pending.forward(ping());
    let second = pending.forward(ping());
    let a = first.request_id.clone().unwrap();
    let b = second.request_id.clone().unwrap();
    assert_ne!(a, b);
    assert!(uuid::Uuid::parse_str(&a).is_ok());
    assert!(pending.is_waiting(&a));
    assert!(pending.is_waiting(&b));
    match first.payload {
        MessagePayload::Http { request_id, payload } => {
            assert_eq!(request_id, a);
            assert_eq!(payload, ping());
        }
        other => panic!("not an http payload: {:?}", other),
    }
}

#[test]
fn reply_reaches_exactly_one_waiter() {
    let mut pending = PendingRequests::new();
    pending.register("R1");
    pending.register("R2");
    assert!(pending.deliver("R1", pong()).is_some());
    assert!(pending.deliver("R1", pong()).is_none());
    assert!(pending.is_waiting("R2"));
}

#[test]
fn reply_to_an_unknown_request_is_dropped() {
    let mut pending = PendingRequests::new();
    pending.register("R1");
    assert_eq!(pending.deliver("R7", pong()), None);
    assert_eq!(pending.deliver("", pong()), None);
    assert!(pending.is_waiting("R1"));
}

#[test]
fn timeout_answers_504_and_discards_the_entry() {
    let mut pending = PendingRequests::new();
    pending.register("R1");
    let response = pending.time_out("R1").expect("a caller waits for R1");
    assert_eq!(response.status, 504);
    assert_eq!(response.body, None);
    assert!(response.headers.is_empty());
    assert!(!pending.is_waiting("R1"));
    assert_eq!(pending.deliver("R1", pong()), None);
    assert_eq!(pending.time_out("R1"), None);
}

#[test]
fn settle_says_whether_a_caller_waited() {
    let mut pending = PendingRequests::new();
    pending.register("R1");
    assert!(pending.settle("R1"));
    assert!(!pending.settle("R1"));
}
