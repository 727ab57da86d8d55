use visual_notifications::config::{AnimationStyle, Config, ConfigManager};
use visual_notifications::settings::{apply_section, Entry, Section, SettingValue};

fn entry(name: &str, argument: Option<SettingValue>) -> Entry {
    Entry { name: name.to_string(), argument }
}

fn leaf(name: &str, argument: Option<SettingValue>) -> Section {
    Section { entry: entry(name, argument), children: Vec::new() }
}

fn text(s: &str) -> Option<SettingValue> {
    Some(SettingValue::Text(s.to_string()))
}

#[test]
fn sections_are_applied_in_order() {
    let sections = vec![
        leaf("enabled", Some(SettingValue::Bool(false))),
        Section {
            entry: entry("theme", text("Nord")),
            children: vec![
                entry("success_color", text("#010203")),
                entry("error_color", Some(SettingValue::Integer(5))),
                entry("dimmed_color", text("#ffffff")),
                entry("info_color", None),
            ],
        },
        Section {
            entry: entry("animation", None),
            children: vec![
                entry("enabled", Some(SettingValue::Bool(true))),
                entry("style", text("BREATHE")),
                entry("speed", Some(SettingValue::Integer(500))),
                entry("cycles", Some(SettingValue::Integer(-3))),
            ],
        },
        Section {
            entry: entry("accessibility", None),
            children: vec![entry("high_contrast", Some(SettingValue::Bool(true)))],
        },
        leaf("notification_timeout_ms", Some(SettingValue::Integer(5))),
        leaf("queue_max_size", Some(SettingValue::Integer(0))),
        leaf("unknown", text("ignored")),
    ];
    let config = Config::from_settings(&sections).unwrap();
    assert!(!config.enabled);
    assert_eq!(config.theme.name, "nord");
    assert_eq!(config.theme.success_color, "#010203");
    assert_eq!(config.theme.error_color, "#bf616a");
    assert_eq!(config.theme.dimmed_color, "#4c566a");
    assert_eq!(config.theme.info_color, "#81a1c1");
    assert!(config.animation.enabled);
    assert_eq!(config.animation.style, AnimationStyle::Breathe);
    assert_eq!(config.animation.speed, 100);
    assert_eq!(config.animation.cycles, 1);
    assert!(config.accessibility.high_contrast);
    assert_eq!(config.notification_timeout_ms, 1000);
    assert_eq!(config.queue_max_size, 1);
}

#[test]
fn no_sections_give_the_defaults() {
    let config = Config::from_settings(&Vec::new()).unwrap();
    assert!(config.enabled);
    assert_eq!(config.queue_max_size, 100);
    assert_eq!(config.notification_timeout_ms, 300_000);
    assert_eq!(config.theme.name, "default");
}

#[test]
fn switches_given_something_else_return_to_their_default() {
    let mut config = Config::default();
    config.enabled = false;
    apply_section(&mut config, &leaf("enabled", text("yes")));
    assert!(config.enabled);
    config.enabled = false;
    apply_section(&mut config, &leaf("enabled", None));
    assert!(!config.enabled);

    config.animation.enabled = false;
    config.accessibility.high_contrast = true;
    let section = Section {
        entry: entry("animation", None),
        children: vec![entry("enabled", Some(SettingValue::Other))],
    };
    apply_section(&mut config, &section);
    assert!(config.animation.enabled);
    let section = Section {
        entry: entry("accessibility", None),
        children: vec![entry("high_contrast", Some(SettingValue::Integer(1)))],
    };
    apply_section(&mut config, &section);
    assert!(!config.accessibility.high_contrast);
}

#[test]
fn values_of_the_wrong_kind_leave_settings_alone() {
    let mut config = Config::default();
    apply_section(&mut config, &leaf("notification_timeout_ms", text("5000")));
    apply_section(&mut config, &leaf("queue_max_size", Some(SettingValue::Bool(true))));
    apply_section(&mut config, &leaf("theme", Some(SettingValue::Integer(3))));
    let section = Section {
        entry: entry("animation", None),
        children: vec![
            entry("style", Some(SettingValue::Integer(1))),
            entry("speed", text("fast")),
            entry("cycles", Some(SettingValue::Other)),
            entry("unknown", Some(SettingValue::Bool(true))),
        ],
    };
    apply_section(&mut config, &section);
    assert_eq!(config.notification_timeout_ms, 300_000);
    assert_eq!(config.queue_max_size, 100);
    assert_eq!(config.theme.name, "default");
    assert_eq!(config.animation.style, AnimationStyle::Pulse);
    assert_eq!(config.animation.speed, 50);
    assert_eq!(config.animation.cycles, 3);
}

#[test]
fn numbers_are_held_to_their_ranges() {
    let mut config = Config::default();
    apply_section(&mut config, &leaf("notification_timeout_ms", Some(SettingValue::Integer(i64::MIN))));
    assert_eq!(config.notification_timeout_ms, 1000);
    apply_section(&mut config, &leaf("notification_timeout_ms", Some(SettingValue::Integer(i64::MAX))));
    assert_eq!(config.notification_timeout_ms, i64::MAX as u64);
    apply_section(&mut config, &leaf("queue_max_size", Some(SettingValue::Integer(-1))));
    assert_eq!(config.queue_max_size, 1);
    apply_section(&mut config, &leaf("queue_max_size", Some(SettingValue::Integer(250))));
    assert_eq!(config.queue_max_size, 250);
    for (given, speed, cycles) in [(i64::MIN, 1u8, 1u8), (0, 1, 1), (1, 1, 1), (10, 10, 10), (11, 11, 10), (100, 100, 10), (101, 100, 10), (i64::MAX, 100, 10)] {
        let section = Section {
            entry: entry("animation", None),
            children: vec![
                entry("speed", Some(SettingValue::Integer(given))),
                entry("cycles", Some(SettingValue::Integer(given))),
            ],
        };
        apply_section(&mut config, &section);
        assert_eq!((config.animation.speed, config.animation.cycles), (speed, cycles));
    }
}

#[test]
fn reduced_motion_and_later_sections() {
    let reduce = Section {
        entry: entry("accessibility", None),
        children: vec![entry("reduced_motion", Some(SettingValue::Bool(true)))],
    };
    let enable = Section {
        entry: entry("animation", None),
        children: vec![entry("enabled", Some(SettingValue::Bool(true)))],
    };
    let config = Config::from_settings(&vec![reduce.clone()]).unwrap();
    assert!(config.accessibility.reduced_motion);
    assert!(!config.animation.enabled);
    let config = Config::from_settings(&vec![reduce.clone(), enable.clone()]).unwrap();
    assert!(config.accessibility.reduced_motion);
    assert!(config.animation.enabled);
    let config = Config::from_settings(&vec![enable, reduce]).unwrap();
    assert!(!config.animation.enabled);
    let relax = Section {
        entry: entry("accessibility", None),
        children: vec![entry("reduced_motion", Some(SettingValue::Bool(false)))],
    };
    let config = Config::from_settings(&vec![relax]).unwrap();
    assert!(!config.accessibility.reduced_motion);
    assert!(config.animation.enabled);
}

#[test]
fn theme_entries_follow_the_preset() {
    let section = Section {
        entry: entry("theme", None),
        children: vec![
            entry("warning_color", text("#111111")),
            entry("warning_color", text("#222222")),
        ],
    };
    let mut config = Config::default();
    config.theme.name = "custom".to_string();
    apply_section(&mut config, &section);
    assert_eq!(config.theme.name, "custom");
    assert_eq!(config.theme.warning_color, "#222222");
    assert_eq!(config.theme.success_color, "#22c55e");
}

#[test]
fn documents_in_kdl() {
    let manager = ConfigManager::new();
    let config = manager
        .parse_kdl(
            r##"
enabled false
theme "dracula" {
    error_color "#abcdef"
    info_color r#"#012345"#
}
animation {
    enabled true
    style "flash"
    speed 0x50
    cycles 0b11
}
accessibility {
    high_contrast true
}
notification_timeout_ms 60000
queue_max_size 12 extra=1
something "else"
"##,
        )
        .unwrap();
    assert!(!config.enabled);
    assert_eq!(config.theme.name, "dracula");
    assert_eq!(config.theme.error_color, "#abcdef");
    assert_eq!(config.theme.info_color, "#012345");
    assert_eq!(config.theme.success_color, "#50fa7b");
    assert_eq!(config.animation.style, AnimationStyle::Flash);
    assert_eq!(config.animation.speed, 80);
    assert_eq!(config.animation.cycles, 3);
    assert!(config.accessibility.high_contrast);
    assert_eq!(config.notification_timeout_ms, 60000);
    assert_eq!(config.queue_max_size, 12);
}

#[test]
fn kdl_arguments_are_positional() {
    let manager = ConfigManager::new();
    // a property is no argument; the first argument counts
    let config = manager.parse_kdl("queue_max_size size=3 7 9").unwrap();
    assert_eq!(config.queue_max_size, 7);
    let config = manager.parse_kdl("queue_max_size size=3").unwrap();
    assert_eq!(config.queue_max_size, 100);
    let config = manager.parse_kdl("queue_max_size 2.5\nenabled null").unwrap();
    assert_eq!(config.queue_max_size, 100);
    assert!(config.enabled);
    let config = manager.parse_kdl("").unwrap();
    assert_eq!(config.queue_max_size, 100);
    // nesting below the second level is not read
    let config = manager.parse_kdl("animation {\n  speed 10 {\n    speed 90\n  }\n}").unwrap();
    assert_eq!(config.animation.speed, 10);
}

#[test]
fn kdl_errors() {
    let manager = ConfigManager::new();
    let error = manager.parse_kdl("enabled {").unwrap_err();
    assert!(error.starts_with("KDL parse error: "), "{}", error);
    assert!(error.len() > "KDL parse error: ".len());
    let error = manager.parse_kdl("theme \"unterminated").unwrap_err();
    assert!(error.starts_with("KDL parse error: "));
    // settings are held to their ranges as they are read, so a document cannot
    // break the rules of validation; a list of sections cannot either
    assert!(manager.parse_kdl("queue_max_size 0\nnotification_timeout_ms 1").is_ok());
}

#[test]
fn deep_documents_are_refused_unparsed() {
    let manager = ConfigManager::new();
    let too_deep = "KDL parse error: the document nests too deeply";
    let blocks = |n: usize| format!("{}queue_max_size 7\n{}queue_max_size 5\n", "a {\n".repeat(n), "}\n".repeat(n));
    assert_eq!(manager.parse_kdl(&blocks(64)).unwrap().queue_max_size, 5);
    assert_eq!(manager.parse_kdl(&blocks(65)).unwrap_err(), too_deep);
    assert_eq!(manager.parse_kdl(&blocks(100_000)).unwrap_err(), too_deep);
    // blocks beside one another are parsed, however many
    let beside = format!("{}queue_max_size 5\n", "animation {\n speed 10\n}\n".repeat(2000));
    let config = manager.parse_kdl(&beside).unwrap();
    assert_eq!((config.queue_max_size, config.animation.speed), (5, 10));
    // braces in strings and comments are none
    let quoted = format!("node \"{}\" // {}\nqueue_max_size 5", "{".repeat(1000), "}{".repeat(1000));
    assert_eq!(manager.parse_kdl(&quoted).unwrap().queue_max_size, 5);
    // a closing brace in a string closes nothing
    let sly = format!("{}b 1\n{}", "a \"}\" {\n".repeat(65), "}\n".repeat(65));
    assert_eq!(manager.parse_kdl(&sly).unwrap_err(), too_deep);

    // nodes taken out one after another are parsed, however many
    let dashes = |n: usize| format!("{}queue_max_size 5\n", "/-a 1\n".repeat(n));
    assert_eq!(manager.parse_kdl(&dashes(10)).unwrap().queue_max_size, 5);
    assert_eq!(manager.parse_kdl(&dashes(2000)).unwrap().queue_max_size, 5);
    let inside = format!("animation {{\n{} speed 10\n}}\n", "/-speed 20 {\n a 1\n}\n".repeat(2000));
    assert_eq!(manager.parse_kdl(&inside).unwrap().animation.speed, 10);
    let entries = format!("queue_max_size{} 5 /-6\n", " /-1 /-k=2 /-{\n a 1\n}".repeat(2000));
    assert_eq!(manager.parse_kdl(&entries).unwrap().queue_max_size, 5);
    // slash-dashes in a row are open together
    let row = |n: usize| format!("{}{}queue_max_size 5\n", "/-".repeat(n), "a 1\n".repeat(n));
    assert_eq!(manager.parse_kdl(&row(10)).unwrap().queue_max_size, 5);
    assert_eq!(manager.parse_kdl(&row(11)).unwrap_err(), too_deep);
    let taken = |n: usize| format!("{}b 1\n{}queue_max_size 5\n", "/-a {\n".repeat(n), "}\n".repeat(n));
    assert_eq!(manager.parse_kdl(&taken(8)).unwrap().queue_max_size, 5);
    assert_eq!(manager.parse_kdl(&taken(9)).unwrap_err(), too_deep);
    assert_ne!(manager.parse_kdl(&format!("{}node 1", "/-".repeat(10))).err(), Some(too_deep.to_string()));
    assert_eq!(manager.parse_kdl(&format!("{}node 1", "/-".repeat(100_000))).unwrap_err(), too_deep);
    assert!(manager.parse_kdl("/-a 1\n/-b 2 {\n c 3\n}\nqueue_max_size /-4 5\n").is_ok());
    let ruled = format!("{}queue_max_size 5\n", "//---------- section ----------\n".repeat(1000));
    assert_eq!(manager.parse_kdl(&ruled).unwrap().queue_max_size, 5);

    let stars = |n: usize| format!("/*{}*/\nqueue_max_size 5", "*".repeat(n));
    assert_eq!(manager.parse_kdl(&stars(339)).unwrap().queue_max_size, 5);
    assert_eq!(manager.parse_kdl(&stars(340)).unwrap_err(), too_deep);
    assert_eq!(manager.parse_kdl(&stars(1_000_000)).unwrap_err(), too_deep);
    let spaced = |n: usize| format!("/*{}*/\nqueue_max_size 5", " *".repeat(n));
    assert_eq!(manager.parse_kdl(&spaced(169)).unwrap().queue_max_size, 5);
    assert_eq!(manager.parse_kdl(&spaced(170)).unwrap_err(), too_deep);
    let nested = |n: usize| format!("{}{}\nqueue_max_size 5", "/*".repeat(n), "*/".repeat(n));
    assert_eq!(manager.parse_kdl(&nested(170)).unwrap().queue_max_size, 5);
    assert_eq!(manager.parse_kdl(&nested(171)).unwrap_err(), too_deep);
    assert_eq!(manager.parse_kdl(&nested(100_000)).unwrap_err(), too_deep);
    let many = format!("{}queue_max_size 5", "/* a * b / c */ // d // e /// f\n".repeat(1000));
    assert_eq!(manager.parse_kdl(&many).unwrap().queue_max_size, 5);
    // the costs add up
    let mixed = |n: usize| format!("{}/*{}*/ queue_max_size 7\n{}queue_max_size 5\n", "a {\n".repeat(32), "*".repeat(n), "}\n".repeat(32));
    assert_eq!(manager.parse_kdl(&mixed(167)).unwrap().queue_max_size, 5);
    assert_eq!(manager.parse_kdl(&mixed(169)).unwrap_err(), too_deep);
}

#[test]
fn reserved_words_as_type_annotations_are_refused_unparsed() {
    let manager = ConfigManager::new();
    let reserved = "KDL parse error: a reserved word stands as a type annotation";
    for text in ["(true)", "(false)", "(null)", "(null)\u{e9}", "node (true)1", "node key=(null)1", "a {\n (false)b 1\n}", "(true) node 1", "queue_max_size 5 // (true)\n"] {
        assert_eq!(manager.parse_kdl(text).unwrap_err(), reserved, "{}", text);
    }
    assert_eq!(manager.parse_kdl("(truex)queue_max_size 5").unwrap().queue_max_size, 5);
    assert_eq!(manager.parse_kdl("(nullable)queue_max_size (u8)5").unwrap().queue_max_size, 5);
    assert_eq!(manager.parse_kdl("(\"true\")queue_max_size 5").unwrap().queue_max_size, 5);
    assert_eq!(manager.parse_kdl("enabled true\nqueue_max_size 5").unwrap().queue_max_size, 5);
    // the depth is looked at first
    let both = format!("{}(true)", "a {\n".repeat(65));
    assert_eq!(manager.parse_kdl(&both).unwrap_err(), "KDL parse error: the document nests too deeply");
    // other errors of reserved words are the parser's own
    let error = manager.parse_kdl("node true=1").unwrap_err();
    assert!(error.starts_with("KDL parse error: ") && error != reserved, "{}", error);
    let error = manager.parse_kdl("true 1").unwrap_err();
    assert!(error.starts_with("KDL parse error: ") && error != reserved, "{}", error);
}
