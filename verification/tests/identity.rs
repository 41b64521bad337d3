use toru_plugin_host::ident::{choose_instance_id, resolve_instance_id};
use uuid::Uuid;

/// An instance id is generated on the first run.
#[test]
fn test_t5_instance_id_generated_on_first_run() {
    let identity = resolve_instance_id(None);
    assert!(identity.newly_created);

    let parsed = Uuid::parse_str(&identity.id);
    assert!(parsed.is_ok(), "Should generate valid UUID");
    assert_eq!(parsed.unwrap().get_version_num(), 4);
}

/// An instance id has the format of a UUID.
#[test]
fn test_t7_instance_id_valid_uuid_format() {
    let test_cases = vec![
        "550e8400-e29b-41d4-a716-446655440000",
        "f47ac10b-58cc-4372-a567-0e02b2c3d479",
    ];

    for test_id in test_cases {
        let uuid = Uuid::parse_str(test_id).expect("Should parse valid UUID");
        assert_eq!(uuid.to_string(), test_id, "UUID format should be preserved");
        let identity = resolve_instance_id(Some(test_id.to_string()));
        assert_eq!(identity.id, test_id, "UUID format should be preserved");
    }

    let invalid_cases = vec!["not-a-uuid", "550e8400-e29b-41d4-a716", ""];

    for invalid_id in invalid_cases {
        assert!(
            Uuid::parse_str(invalid_id).is_err(),
            "Invalid UUID should fail: {}",
            invalid_id
        );
    }
}

/// An instance id that was stored on the first run is the instance id of
/// every later run.
#[test]
fn test_t6_instance_id_persists() {
    let first_boot = resolve_instance_id(None);
    assert!(first_boot.newly_created);
    let first_id = first_boot.id.clone();

    let stored = Some(first_boot.id);
    let second_boot = resolve_instance_id(stored);

    assert!(!second_boot.newly_created);
    assert_eq!(second_boot.id, first_id, "Instance ID should persist");
}

#[test]
fn fresh_ids_differ() {
    let a = resolve_instance_id(None);
    let b = resolve_instance_id(None);
    assert_ne!(a.id, b.id);
}

#[test]
fn fresh_id_is_a_version_4_uuid_in_lower_case() {
    for _ in 0..64 {
        let id = resolve_instance_id(None).id;
        let chars: Vec<char> = id.chars().collect();
        assert_eq!(chars.len(), 36);
        for (i, c) in chars.iter().enumerate() {
            if i == 8 || i == 13 || i == 18 || i == 23 {
                assert_eq!(*c, '-');
            } else {
                assert!(matches!(*c, '0'..='9' | 'a'..='f'), "{} in {}", c, id);
            }
        }
        assert_eq!(chars[14], '4');
        assert!(matches!(chars[19], '8' | '9' | 'a' | 'b'));
    }
}

#[test]
fn stored_id_wins_over_a_fresh_one() {
    let kept = choose_instance_id(Some("stored".to_string()), "fresh".to_string());
    assert_eq!(kept.id, "stored");
    assert!(!kept.newly_created);
    let adopted = choose_instance_id(None, "fresh".to_string());
    assert_eq!(adopted.id, "fresh");
    assert!(adopted.newly_created);
}
