use visual_notifications::notification::{
    format_id, generate_id, scramble, Notification, NotificationBuilder, NotificationMetadata,
    NotificationType, Priority,
};

#[test]
fn test_notification_creation() {
    let notif = Notification::success("Build completed");
    assert_eq!(notif.notification_type, NotificationType::Success);
    assert_eq!(notif.message, "Build completed");
}

#[test]
fn test_notification_builder() {
    let notif = NotificationBuilder::new()
        .notification_type(NotificationType::Error)
        .message("Test failed")
        .pane_id(42)
        .command("npm test")
        .exit_code(1)
        .build();

    assert_eq!(notif.notification_type, NotificationType::Error);
    assert_eq!(notif.pane_id, Some(42));
    assert_eq!(notif.metadata.command, Some("npm test".to_string()));
    assert_eq!(notif.metadata.exit_code, Some(1));
}

#[test]
fn test_notification_type_icons() {
    assert!(NotificationType::Success.icon().is_some());
    assert!(NotificationType::Error.icon().is_some());
    assert!(NotificationType::Warning.icon().is_some());
}

#[test]
fn test_notification_type_parsing() {
    assert_eq!(NotificationType::from_str("success"), NotificationType::Success);
    assert_eq!(NotificationType::from_str("ERROR"), NotificationType::Error);
    assert_eq!(NotificationType::from_str("warn"), NotificationType::Warning);
    assert_eq!(NotificationType::from_str("attention"), NotificationType::Attention);
    assert_eq!(NotificationType::from_str("unknown"), NotificationType::Info);
}

#[test]
fn test_notification_expiry() {
    let notif = Notification::new(NotificationType::Info, "Test").at_time(1000).with_ttl(5000);

    assert!(!notif.is_expired(5000));
    assert!(notif.is_expired(7000));
}

#[test]
fn test_priority_from_type() {
    assert_eq!(Priority::from(&NotificationType::Info), Priority::Low);
    assert_eq!(Priority::from(&NotificationType::Success), Priority::Normal);
    assert_eq!(Priority::from(&NotificationType::Warning), Priority::High);
    assert_eq!(Priority::from(&NotificationType::Error), Priority::Critical);
}

#[test]
fn every_kind_has_its_defaults() {
    let kinds = [
        (NotificationType::Success, "success", "\u{2714}", 1u8, Priority::Normal, false),
        (NotificationType::Error, "error", "\u{2718}", 3, Priority::Critical, true),
        (NotificationType::Warning, "warning", "\u{26A0}", 2, Priority::High, false),
        (NotificationType::Info, "info", "\u{2139}", 0, Priority::Low, false),
        (NotificationType::Progress, "progress", "\u{21BB}", 0, Priority::Low, false),
        (NotificationType::Attention, "attention", "\u{2757}", 3, Priority::Critical, true),
    ];
    for (kind, name, icon, urgency, priority, urgent) in kinds {
        assert_eq!(kind.name(), name);
        assert_eq!(kind.icon(), Some(icon.to_string()));
        assert_eq!(kind.urgency(), urgency);
        assert_eq!(Priority::from(&kind), priority);
        assert_eq!(kind.is_urgent(), urgent);
        assert_eq!(NotificationType::from_str(name), kind);
        assert_eq!(Notification::new(kind, "m").priority, priority);
        assert_eq!(Notification::new(kind, "m").icon(), Some(icon.to_string()));
    }
    assert_eq!(NotificationType::default(), NotificationType::Info);
    assert_eq!(Priority::default(), Priority::Normal);
    assert!(Priority::Low < Priority::Normal);
    assert!(Priority::Normal < Priority::High);
    assert!(Priority::High < Priority::Critical);
}

#[test]
fn kinds_have_synonyms() {
    for word in ["success", "ok", "done", "complete", "completed", "OK", "Done"] {
        assert_eq!(NotificationType::from_str(word), NotificationType::Success);
    }
    for word in ["error", "fail", "failed", "failure", "FAILED"] {
        assert_eq!(NotificationType::from_str(word), NotificationType::Error);
    }
    for word in ["warning", "warn"] {
        assert_eq!(NotificationType::from_str(word), NotificationType::Warning);
    }
    for word in ["info", "information", "", "anything else", "in fo"] {
        assert_eq!(NotificationType::from_str(word), NotificationType::Info);
    }
    for word in ["progress", "running", "working"] {
        assert_eq!(NotificationType::from_str(word), NotificationType::Progress);
    }
    for word in ["attention", "waiting", "input", "input_needed", "Input_Needed"] {
        assert_eq!(NotificationType::from_str(word), NotificationType::Attention);
    }
    // the Kelvin sign lowers to the letter k
    assert_eq!(NotificationType::from_str("O\u{212A}"), NotificationType::Success);
    assert_eq!(NotificationType::from_word("ok"), NotificationType::Success);
    assert_eq!(NotificationType::from_word("OK"), NotificationType::Info);
    assert_eq!(NotificationType::from_word("ERROR"), NotificationType::Info);
}

#[test]
fn new_notifications_have_the_documented_fields() {
    let n = Notification::warning("careful");
    assert_eq!(n.notification_type, NotificationType::Warning);
    assert_eq!(n.message, "careful");
    assert_eq!(n.title, None);
    assert_eq!(n.pane_id, None);
    assert_eq!(n.tab_index, None);
    assert_eq!(n.priority, Priority::High);
    assert_eq!(n.timestamp, 0);
    assert_eq!(n.ttl_ms, 300_000);
    assert_eq!(n.source, "unknown");
    assert!(n.metadata.command.is_none());
    assert!(n.metadata.exit_code.is_none());
    assert!(n.metadata.duration_ms.is_none());
    assert!(n.metadata.custom.is_none());
    assert!(n.id.starts_with("notif-"));
    assert_eq!(Notification::error("e").notification_type, NotificationType::Error);
    assert_eq!(Notification::info("i").notification_type, NotificationType::Info);
    assert_eq!(Notification::attention("a").notification_type, NotificationType::Attention);
    assert_eq!(Notification::progress("p").notification_type, NotificationType::Progress);

    let d = Notification::default();
    assert_eq!(d.notification_type, NotificationType::Info);
    assert_eq!(d.priority, Priority::Normal);
    assert_eq!(d.message, "");
    assert_eq!(d.ttl_ms, 300_000);
    assert_eq!(d.source, "unknown");
    let m = NotificationMetadata::default();
    assert!(m.command.is_none() && m.exit_code.is_none() && m.duration_ms.is_none());
}

#[test]
fn setters_change_one_field() {
    let n = Notification::info("text")
        .with_title("Title")
        .for_pane(3)
        .for_tab(4)
        .from_source("ci")
        .with_ttl(0)
        .at_time(77)
        .with_priority(Priority::Critical);
    assert_eq!(n.title, Some("Title".to_string()));
    assert_eq!(n.pane_id, Some(3));
    assert_eq!(n.tab_index, Some(4));
    assert_eq!(n.source, "ci");
    assert_eq!(n.ttl_ms, 0);
    assert_eq!(n.timestamp, 77);
    assert_eq!(n.priority, Priority::Critical);
    assert_eq!(n.notification_type, NotificationType::Info);
    assert_eq!(n.message, "text");
}

#[test]
fn priority_follows_kind_until_overridden() {
    let b = NotificationBuilder::new();
    let n = b.priority(Priority::Low).notification_type(NotificationType::Error).build();
    assert_eq!(n.priority, Priority::Critical);
    let n = NotificationBuilder::default()
        .notification_type(NotificationType::Error)
        .priority(Priority::Low)
        .build();
    assert_eq!(n.priority, Priority::Low);
    let n = NotificationBuilder::new()
        .title("t")
        .source("s")
        .tab_index(9)
        .ttl(5)
        .timestamp(6)
        .duration(7)
        .build();
    assert_eq!(n.title, Some("t".to_string()));
    assert_eq!(n.source, "s");
    assert_eq!(n.tab_index, Some(9));
    assert_eq!(n.ttl_ms, 5);
    assert_eq!(n.timestamp, 6);
    assert_eq!(n.metadata.duration_ms, Some(7));
    assert_eq!(n.priority, Priority::Normal);
}

#[test]
fn expiry_is_strict_and_exempts_zero() {
    let n = Notification::info("x").at_time(1000).with_ttl(5000);
    assert!(!n.is_expired(0));
    assert!(!n.is_expired(6000));
    assert!(n.is_expired(6001));
    let never = Notification::info("x").at_time(1000).with_ttl(0);
    assert!(!never.is_expired(u64::MAX));
    let far = Notification::info("x").at_time(u64::MAX).with_ttl(u64::MAX);
    assert!(!far.is_expired(u64::MAX));
    let edge = Notification::info("x").at_time(u64::MAX - 1).with_ttl(1);
    assert!(!edge.is_expired(u64::MAX));
    let edge = Notification::info("x").at_time(u64::MAX - 2).with_ttl(1);
    assert!(edge.is_expired(u64::MAX));
}

#[test]
fn display_text_joins_title_and_message() {
    assert_eq!(Notification::info("body").display_text(), "body");
    assert_eq!(Notification::info("body").with_title("Head").display_text(), "Head: body");
    assert_eq!(Notification::info("").with_title("").display_text(), ": ");
}

#[test]
fn identifiers_are_made_of_clock_and_salt() {
    assert_eq!(format_id(0, 0), "notif-0-0");
    assert_eq!(format_id(1_700_000_000_123, 4_294_967_295), "notif-1700000000123-4294967295");
    assert_eq!(format_id(u128::MAX, 7), format!("notif-{}-7", u128::MAX));
    assert_eq!(scramble(0), 12345);
    assert_eq!(scramble(1), 1103527590);
    assert_eq!(scramble(u32::MAX), u32::MAX.wrapping_mul(1103515245).wrapping_add(12345));
    assert_eq!(scramble(123456789), 123456789u32.wrapping_mul(1103515245).wrapping_add(12345));

    let id = generate_id();
    let parts: Vec<&str> = id.split('-').collect();
    assert_eq!(parts.len(), 3);
    assert_eq!(parts[0], "notif");
    let millis: u128 = parts[1].parse().unwrap();
    let _salt: u32 = parts[2].parse().unwrap();
    // the clock of this machine stands after the year 2001
    assert!(millis > 1_000_000_000_000);
}
