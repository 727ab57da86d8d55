use visual_notifications::event_bridge::{
    priority_from_name, ConnectionState, EventBridge, EventBridgeError, NotificationMessage,
};
use visual_notifications::notification::{NotificationType, Priority};

fn text_field(value: &serde_json::Value, key: &str) -> Result<Option<String>, String> {
    match value.get(key) {
        None | Some(serde_json::Value::Null) => Ok(None),
        Some(serde_json::Value::String(s)) => Ok(Some(s.clone())),
        Some(other) => Err(format!("invalid type for {}: {}", key, other)),
    }
}

fn number_field(value: &serde_json::Value, key: &str, max: u64) -> Result<Option<u64>, String> {
    match value.get(key) {
        None | Some(serde_json::Value::Null) => Ok(None),
        Some(other) => match other.as_u64() {
            Some(n) if n <= max => Ok(Some(n)),
            _ => Err(format!("invalid value for {}: {}", key, other)),
        },
    }
}

fn read_message(value: &serde_json::Value) -> Result<NotificationMessage, String> {
    if !value.is_object() {
        return Err("expected an object".to_string());
    }
    Ok(NotificationMessage {
        version: text_field(value, "version")?,
        notification_type: text_field(value, "type")?,
        message: text_field(value, "message")?,
        title: text_field(value, "title")?,
        source: text_field(value, "source")?,
        pane_id: number_field(value, "pane_id", u32::MAX as u64)?.map(|n| n as u32),
        tab_index: number_field(value, "tab_index", u64::MAX)?.map(|n| n as usize),
        priority: text_field(value, "priority")?,
        timestamp: number_field(value, "timestamp", u64::MAX)?,
        ttl_ms: number_field(value, "ttl_ms", u64::MAX)?,
        command: text_field(value, "command")?,
        exit_code: match value.get("exit_code") {
            None | Some(serde_json::Value::Null) => None,
            Some(other) => Some(other.as_i64().ok_or("invalid exit code".to_string())? as i32),
        },
        duration_ms: number_field(value, "duration_ms", u64::MAX)?,
    })
}

fn decode(payload: &str) -> (Result<NotificationMessage, String>, Option<String>) {
    match serde_json::from_str::<serde_json::Value>(payload) {
        Err(e) => (Err(e.to_string()), None),
        Ok(value) => {
            let legacy = match value.get("message") {
                Some(serde_json::Value::String(s)) => Some(s.clone()),
                _ => None,
            };
            (read_message(&value), legacy)
        }
    }
}

#[test]
fn test_event_bridge_creation() {
    let bridge = EventBridge::new();
    assert!(!bridge.is_connected());
    assert_eq!(bridge.health_status().error_count, 0);
}

#[test]
fn test_parse_notification_message() {
    let mut bridge = EventBridge::new();

    let json = r#"{
            "version": "1.0",
            "type": "success",
            "message": "Build completed",
            "title": "Code",
            "source": "notifications"
        }"#;

    let (message, legacy) = decode(json);
    let result = bridge.parse_notification(message, legacy);
    assert!(result.is_ok());

    let notif = result.unwrap();
    assert_eq!(notif.notification_type, NotificationType::Success);
    assert_eq!(notif.message, "Build completed");
}

#[test]
fn test_parse_legacy_message() {
    let mut bridge = EventBridge::new();

    let json = r#"{"message": "Waiting for you..."}"#;

    let (message, legacy) = decode(json);
    let result = bridge.parse_notification(message, legacy);
    assert!(result.is_ok());

    let notif = result.unwrap();
    assert_eq!(notif.notification_type, NotificationType::Attention);
}

#[test]
fn test_parse_error_handling() {
    let mut bridge = EventBridge::new();

    let invalid_json = "not valid json";

    for _ in 0..5 {
        let (message, legacy) = decode(invalid_json);
        let _ = bridge.parse_notification(message, legacy);
    }

    assert!(matches!(bridge.connection_state(), ConnectionState::Error(_)));
}

#[test]
fn test_health_status() {
    let bridge = EventBridge::new();
    let health = bridge.health_status();

    assert!(!health.connected);
    assert_eq!(health.error_count, 0);
    assert_eq!(health.protocol_version, "1.0");
}

fn blank_message() -> NotificationMessage {
    NotificationMessage {
        version: None,
        notification_type: None,
        message: None,
        title: None,
        source: None,
        pane_id: None,
        tab_index: None,
        priority: None,
        timestamp: None,
        ttl_ms: None,
        command: None,
        exit_code: None,
        duration_ms: None,
    }
}

#[test]
fn missing_fields_take_their_defaults() {
    let bridge = EventBridge::new();
    let n = bridge.convert_message_to_notification(blank_message());
    assert_eq!(n.notification_type, NotificationType::Attention);
    assert_eq!(n.priority, Priority::Critical);
    assert_eq!(n.message, "Waiting for input...");
    assert_eq!(n.title, Some("Notification".to_string()));
    assert_eq!(n.source, "notifications");
    assert_eq!(n.timestamp, 0);
    assert_eq!(n.ttl_ms, 300_000);
    assert_eq!(n.pane_id, None);
    assert_eq!(n.tab_index, None);
    assert!(n.metadata.command.is_none());
    assert!(n.id.starts_with("notif-"));
}

#[test]
fn given_fields_are_carried_over() {
    let bridge = EventBridge::new();
    let mut msg = blank_message();
    msg.notification_type = Some("WARN".to_string());
    msg.message = Some("m".to_string());
    msg.title = Some("t".to_string());
    msg.source = Some("s".to_string());
    msg.pane_id = Some(8);
    msg.tab_index = Some(2);
    msg.priority = Some("LOW".to_string());
    msg.timestamp = Some(10);
    msg.ttl_ms = Some(20);
    msg.command = Some("make".to_string());
    msg.exit_code = Some(2);
    msg.duration_ms = Some(30);
    let n = bridge.convert_message_to_notification(msg);
    assert_eq!(n.notification_type, NotificationType::Warning);
    assert_eq!(n.priority, Priority::Low);
    assert_eq!(n.message, "m");
    assert_eq!(n.title, Some("t".to_string()));
    assert_eq!(n.source, "s");
    assert_eq!(n.pane_id, Some(8));
    assert_eq!(n.tab_index, Some(2));
    assert_eq!(n.timestamp, 10);
    assert_eq!(n.ttl_ms, 20);
    // command, exit code and duration are not carried over
    assert!(n.metadata.command.is_none());
    assert!(n.metadata.exit_code.is_none());
    assert!(n.metadata.duration_ms.is_none());
}

#[test]
fn unknown_priority_falls_back_to_the_kind() {
    let bridge = EventBridge::new();
    let mut msg = blank_message();
    msg.notification_type = Some("success".to_string());
    msg.priority = Some("urgent".to_string());
    assert_eq!(bridge.convert_message_to_notification(msg).priority, Priority::Normal);
    for (name, priority) in [
        ("low", Priority::Low),
        ("Normal", Priority::Normal),
        ("HIGH", Priority::High),
        ("critical", Priority::Critical),
    ] {
        let mut msg = blank_message();
        msg.priority = Some(name.to_string());
        assert_eq!(bridge.convert_message_to_notification(msg).priority, priority);
    }
    assert_eq!(priority_from_name("high"), Some(Priority::High));
    assert_eq!(priority_from_name("HIGH"), None);
    assert_eq!(priority_from_name(""), None);
}

#[test]
fn full_format_wins_over_legacy() {
    let mut bridge = EventBridge::new();
    let mut msg = blank_message();
    msg.message = Some("full".to_string());
    msg.timestamp = Some(55);
    let n = bridge.parse_notification(Ok(msg), Some("legacy".to_string())).unwrap();
    assert_eq!(n.message, "full");
    assert_eq!(n.source, "notifications");
    assert!(bridge.is_connected());
    assert_eq!(bridge.health_status().last_message_timestamp, 55);

    let n = bridge
        .parse_notification(Err("bad".to_string()), Some("legacy".to_string()))
        .unwrap();
    assert_eq!(n.message, "legacy");
    assert_eq!(n.source, "notifications-legacy");
    assert_eq!(n.notification_type, NotificationType::Attention);
    assert_eq!(n.priority, Priority::Critical);
    assert_eq!(bridge.health_status().last_message_timestamp, 55);
    let n = bridge.convert_legacy_to_notification("old");
    assert_eq!(n.message, "old");
}

#[test]
fn errors_are_counted_until_the_bridge_fails() {
    let mut bridge = EventBridge::new();
    bridge.on_connected();
    for i in 1..=4u32 {
        let outcome = bridge.parse_notification(Err(format!("e{}", i)), None);
        match outcome {
            Err(EventBridgeError::ParseError(detail)) => assert_eq!(detail, format!("e{}", i)),
            _ => panic!("expected a parse error"),
        }
        assert_eq!(bridge.health_status().error_count, i);
        assert!(bridge.is_connected());
    }
    let _ = bridge.parse_notification(Err("e5".to_string()), None);
    assert_eq!(
        bridge.connection_state(),
        &ConnectionState::Error("Too many parse errors".to_string())
    );
    assert!(!bridge.is_connected());
    // a success resets the count
    let _ = bridge.parse_notification(Ok(blank_message()), None);
    assert!(bridge.is_connected());
    assert_eq!(bridge.health_status().error_count, 0);
}

#[test]
fn connection_events() {
    let mut bridge = EventBridge::new();
    assert_eq!(bridge.connection_state(), &ConnectionState::Disconnected);
    bridge.on_connected();
    assert!(bridge.is_connected());
    bridge.on_error("boom");
    assert!(bridge.is_connected());
    assert_eq!(bridge.health_status().error_count, 1);
    bridge.on_disconnected();
    assert_eq!(bridge.connection_state(), &ConnectionState::Disconnected);
    assert_eq!(bridge.health_status().error_count, 1);
    bridge.reset_errors();
    assert_eq!(bridge.health_status().error_count, 0);
    assert_eq!(bridge.connection_state(), &ConnectionState::Disconnected);
    for _ in 0..5 {
        bridge.on_error("down");
    }
    assert_eq!(bridge.connection_state(), &ConnectionState::Error("down".to_string()));
    bridge.reset_errors();
    assert_eq!(bridge.connection_state(), &ConnectionState::Disconnected);
    bridge.on_connected();
    bridge.reset_errors();
    assert!(bridge.is_connected());

    let mut zero = EventBridge::default();
    assert_eq!(zero.health_status().protocol_version, "");
    zero.on_error("first");
    assert_eq!(zero.connection_state(), &ConnectionState::Error("first".to_string()));
    assert_eq!(ConnectionState::default(), ConnectionState::Disconnected);
}

#[test]
fn errors_in_words() {
    assert_eq!(EventBridgeError::ParseError("a".to_string()).describe(), "Parse error: a");
    assert_eq!(
        EventBridgeError::ConnectionError("b".to_string()).describe(),
        "Connection error: b"
    );
    assert_eq!(
        EventBridgeError::VersionMismatch("c".to_string()).describe(),
        "Version mismatch: c"
    );
    assert_eq!(EventBridgeError::InvalidFormat("".to_string()).describe(), "Invalid format: ");
}
