use std::collections::HashMap;
use toru_plugin_host::launch::{init_message, launch_env, log_path_for, shutdown_message, socket_path_for};
use toru_plugin_host::types::{
    HttpRequest, KvMessagePayload, KvOp, LifecycleInitPayload, Message, MessagePayload,
};

/// The instance id of the host is handed to the plugin in the init message.
#[test]
fn test_t8_instance_id_passed_to_plugin() {
    let instance_id = "550e8400-e29b-41d4-a716-446655440000".to_string();

    let init = init_message(&instance_id, "/tmp/test.sock", "/var/log/toru/plugins/test.log");

    assert_eq!(init.message_type, "lifecycle");
    match init.payload {
        MessagePayload::Lifecycle { action, payload } => {
            assert_eq!(action, "init");
            let payload = payload.expect("Payload should exist");
            assert_eq!(
                payload.instance_id.as_str(),
                instance_id.as_str(),
                "Instance ID should be in init message"
            );
            assert_eq!(payload.plugin_socket, "/tmp/test.sock");
            assert_eq!(payload.log_path, "/var/log/toru/plugins/test.log");
        }
        other => panic!("not a lifecycle payload: {:?}", other),
    }
}

#[test]
fn lifecycle_message_has_no_request_id() {
    let message = Message::new_lifecycle("ready", None);
    assert_eq!(message.message_type, "lifecycle");
    assert_eq!(message.request_id, None);
    assert_eq!(
        message.payload,
        MessagePayload::Lifecycle { action: "ready".to_string(), payload: None }
    );
    assert!(chrono::DateTime::parse_from_rfc3339(&message.timestamp).is_ok());
}

#[test]
fn lifecycle_message_keeps_its_init_payload() {
    let init = LifecycleInitPayload {
        instance_id: "i".to_string(),
        plugin_socket: "s".to_string(),
        log_path: "l".to_string(),
    };
    let message = Message::new_lifecycle("init", Some(init.clone()));
    assert_eq!(
        message.payload,
        MessagePayload::Lifecycle { action: "init".to_string(), payload: Some(init) }
    );
}

#[test]
fn http_message_carries_its_request_id_twice() {
    let mut headers = HashMap::new();
    headers.insert("accept".to_string(), "*/*".to_string());
    let request = HttpRequest {
        method: "GET".to_string(),
        path: "/ping".to_string(),
        headers,
        body: None,
    };
    let message = Message::new_http("R1".to_string(), request.clone());
    assert_eq!(message.message_type, "http");
    assert_eq!(message.request_id, Some("R1".to_string()));
    assert_eq!(
        message.payload,
        MessagePayload::Http { request_id: "R1".to_string(), payload: request }
    );
}

#[test]
fn kv_request_message() {
    let op = KvOp::Put { key: "x".to_string(), value: "1".to_string() };
    let message = Message::new_kv("K1".to_string(), op.clone());
    assert_eq!(message.message_type, "kv");
    assert_eq!(message.request_id, Some("K1".to_string()));
    assert_eq!(
        message.payload,
        MessagePayload::Kv { request_id: "K1".to_string(), payload: KvMessagePayload::Request(op) }
    );
}

#[test]
fn kv_response_message() {
    let message = Message::new_kv_response("K2".to_string(), Some("1".to_string()));
    assert_eq!(message.message_type, "kv");
    assert_eq!(message.request_id, Some("K2".to_string()));
    assert_eq!(
        message.payload,
        MessagePayload::Kv {
            request_id: "K2".to_string(),
            payload: KvMessagePayload::Response { value: Some("1".to_string()) },
        }
    );
}

#[test]
fn stamped_message_keeps_the_timestamp_given() {
    let message = Message::stamped(
        "2024-05-01T10:00:00+00:00".to_string(),
        MessagePayload::Kv {
            request_id: "K".to_string(),
            payload: KvMessagePayload::Request(KvOp::Get { key: "k".to_string() }),
        },
    );
    assert_eq!(message.timestamp, "2024-05-01T10:00:00+00:00");
    assert_eq!(message.message_type, "kv");
    assert_eq!(message.request_id, Some("K".to_string()));
}

#[test]
fn timestamps_move_with_the_clock() {
    let before = chrono::Utc::now();
    let first = Message::new_lifecycle("ready", None);
    let second = Message::new_lifecycle("ready", None);
    let after = chrono::Utc::now();
    let a = chrono::DateTime::parse_from_rfc3339(&first.timestamp).unwrap();
    let b = chrono::DateTime::parse_from_rfc3339(&second.timestamp).unwrap();
    assert!(before <= a);
    assert!(a <= b);
    assert!(b <= after);
}

#[test]
fn shutdown_message_is_a_bare_lifecycle_message() {
    let message = shutdown_message();
    assert_eq!(
        message.payload,
        MessagePayload::Lifecycle { action: "shutdown".to_string(), payload: None }
    );
}

#[test]
fn plugin_paths_are_derived_from_the_id() {
    assert_eq!(socket_path_for("/tmp/toru-plugins", "alpha"), "/tmp/toru-plugins/alpha.sock");
    assert_eq!(log_path_for("/var/log/toru/plugins", "test"), "/var/log/toru/plugins/test.log");
}

#[test]
fn launch_environment_names_socket_and_log() {
    let env = launch_env("/tmp/a.sock", "/tmp/a.log");
    assert_eq!(env.len(), 2);
    assert_eq!(env[0].name, "TORU_PLUGIN_SOCKET");
    assert_eq!(env[0].value, "/tmp/a.sock");
    assert_eq!(env[1].name, "TORU_PLUGIN_LOG");
    assert_eq!(env[1].value, "/tmp/a.log");
}
