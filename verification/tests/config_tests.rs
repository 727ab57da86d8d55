use visual_notifications::config::{
    AccessibilityConfig, AnimationConfig, AnimationStyle, Config, ConfigManager, ThemeConfig,
};

fn entries(pairs: &[(&str, &str)]) -> Vec<(String, String)> {
    pairs.iter().map(|(k, v)| (k.to_string(), v.to_string())).collect()
}

#[test]
fn test_default_config() {
    let config = Config::default();
    assert!(config.enabled);
    assert!(config.animation.enabled);
    assert_eq!(config.animation.style, AnimationStyle::Pulse);
}

#[test]
fn test_theme_presets() {
    let themes = vec![
        "dracula", "nord", "solarized", "catppuccin", "gruvbox", "tokyo-night", "one-dark",
    ];

    for theme_name in themes {
        let theme = ThemeConfig::from_preset(theme_name);
        assert!(!theme.success_color.is_empty());
        assert!(!theme.error_color.is_empty());
    }
}

#[test]
fn config_test_config_validation() {
    let mut config = Config::default();
    assert!(config.validate().is_ok());

    config.notification_timeout_ms = 100;
    assert!(config.validate().is_err());

    config.notification_timeout_ms = 5000;
    config.queue_max_size = 0;
    assert!(config.validate().is_err());
}

#[test]
fn test_animation_style_parsing() {
    assert_eq!(AnimationStyle::from_str("pulse"), AnimationStyle::Pulse);
    assert_eq!(AnimationStyle::from_str("FLASH"), AnimationStyle::Flash);
    assert_eq!(AnimationStyle::from_str("fade"), AnimationStyle::Fade);
    assert_eq!(AnimationStyle::from_str("breathe"), AnimationStyle::Breathe);
    assert_eq!(AnimationStyle::from_str("none"), AnimationStyle::Static);
    assert_eq!(AnimationStyle::from_str("invalid"), AnimationStyle::Pulse);
}

#[test]
fn style_names_in_lower_case() {
    assert_eq!(AnimationStyle::from_name("disabled"), AnimationStyle::Static);
    assert_eq!(AnimationStyle::from_name("none"), AnimationStyle::Static);
    assert_eq!(AnimationStyle::from_name("flash"), AnimationStyle::Flash);
    assert_eq!(AnimationStyle::from_name("FLASH"), AnimationStyle::Pulse);
    assert_eq!(AnimationStyle::from_name(""), AnimationStyle::Pulse);
    assert_eq!(AnimationStyle::from_str("Disabled"), AnimationStyle::Static);
    assert_eq!(AnimationStyle::from_str("BrEaThE"), AnimationStyle::Breathe);
    assert_eq!(AnimationStyle::default(), AnimationStyle::Pulse);
}

#[test]
fn validation_names_the_first_broken_rule() {
    let mut config = Config::default();
    config.notification_timeout_ms = 999;
    config.queue_max_size = 0;
    assert_eq!(
        config.validate(),
        Err("notification_timeout_ms must be at least 1000ms".to_string())
    );
    config.notification_timeout_ms = 1000;
    assert_eq!(config.validate(), Err("queue_max_size must be at least 1".to_string()));
    config.queue_max_size = 1;
    assert_eq!(config.validate(), Ok(()));
    config.animation.speed = 0;
    assert_eq!(
        config.validate(),
        Err("animation_speed must be between 1 and 100".to_string())
    );
    config.animation.speed = 101;
    config.animation.cycles = 0;
    assert_eq!(
        config.validate(),
        Err("animation_speed must be between 1 and 100".to_string())
    );
    config.animation.speed = 100;
    assert_eq!(
        config.validate(),
        Err("animation_cycles must be between 1 and 10".to_string())
    );
    config.animation.cycles = 11;
    assert_eq!(
        config.validate(),
        Err("animation_cycles must be between 1 and 10".to_string())
    );
    config.animation.cycles = 10;
    config.animation.speed = 1;
    assert_eq!(config.validate(), Ok(()));
}

#[test]
fn defaults() {
    let config = Config::default();
    assert_eq!(config.notification_timeout_ms, 300_000);
    assert_eq!(config.queue_max_size, 100);
    assert!(config.show_status_bar && config.show_border_colors && config.show_tab_badges);
    assert!(config.ipc_socket_path.is_none());
    assert!(!config.debug);
    assert_eq!(config.theme.name, "default");
    assert_eq!(config.theme.success_color, "#22c55e");
    assert_eq!(config.theme.dimmed_color, "#6c7086");
    assert_eq!(
        config.animation,
        AnimationConfig {
            enabled: true,
            style: AnimationStyle::Pulse,
            speed: 50,
            cycles: 3,
            duration_ms: 2000
        }
    );
    assert_eq!(
        config.accessibility,
        AccessibilityConfig {
            high_contrast: false,
            reduced_motion: false,
            screen_reader: false,
            use_patterns: true
        }
    );
    let copy = config.clone();
    assert_eq!(copy.theme.name, "default");
    assert_eq!(copy.queue_max_size, 100);
}

#[test]
fn presets_by_name() {
    assert_eq!(ThemeConfig::from_preset("dracula").success_color, "#50fa7b");
    assert_eq!(ThemeConfig::from_preset("DRACULA").name, "dracula");
    assert_eq!(ThemeConfig::from_preset("Nord").error_color, "#bf616a");
    assert_eq!(ThemeConfig::from_preset("solarized").name, "solarized-dark");
    assert_eq!(ThemeConfig::from_preset("solarized-dark").background_color, "#002b36");
    assert_eq!(ThemeConfig::from_preset("solarized-light").background_color, "#fdf6e3");
    assert_eq!(ThemeConfig::from_preset("catppuccin").name, "catppuccin-mocha");
    assert_eq!(ThemeConfig::from_preset("catppuccin-latte").info_color, "#1e66f5");
    assert_eq!(ThemeConfig::from_preset("gruvbox").name, "gruvbox-dark");
    assert_eq!(ThemeConfig::from_preset("gruvbox-light").warning_color, "#b57614");
    assert_eq!(ThemeConfig::from_preset("tokyo-night").highlight_color, "#bb9af7");
    assert_eq!(ThemeConfig::from_preset("one-dark").dimmed_color, "#5c6370");
    assert_eq!(ThemeConfig::from_preset("no such theme").name, "default");
    assert_eq!(ThemeConfig::from_preset_name("NORD").name, "default");
    assert_eq!(ThemeConfig::from_preset_name("nord").foreground_color, "#eceff4");
}

#[test]
fn plugin_configuration_is_read_key_by_key() {
    let config = Config::from_plugin_config(&entries(&[
        ("enabled", "false"),
        ("debug", "true"),
        ("show_status_bar", "false"),
        ("show_border_colors", "false"),
        ("show_tab_badges", "false"),
        ("notification_timeout_ms", "60000"),
        ("queue_max_size", "+7"),
        ("theme", "Dracula"),
        ("error_color", "#123456"),
        ("animation_enabled", "true"),
        ("animation_style", "FADE"),
        ("animation_speed", "80"),
        ("animation_cycles", "5"),
        ("high_contrast", "true"),
        ("ipc_socket_path", "/tmp/sock"),
        ("unknown", "ignored"),
    ]));
    assert!(!config.enabled);
    assert!(config.debug);
    assert!(!config.show_status_bar && !config.show_border_colors && !config.show_tab_badges);
    assert_eq!(config.notification_timeout_ms, 60000);
    assert_eq!(config.queue_max_size, 7);
    assert_eq!(config.theme.name, "dracula");
    assert_eq!(config.theme.success_color, "#50fa7b");
    assert_eq!(config.theme.error_color, "#123456");
    assert!(config.animation.enabled);
    assert_eq!(config.animation.style, AnimationStyle::Fade);
    assert_eq!(config.animation.speed, 80);
    assert_eq!(config.animation.cycles, 5);
    assert_eq!(config.animation.duration_ms, 2000);
    assert!(config.accessibility.high_contrast);
    assert!(!config.accessibility.reduced_motion);
    assert_eq!(config.ipc_socket_path, Some("/tmp/sock".to_string()));
}

#[test]
fn unreadable_values_fall_back_to_defaults() {
    let config = Config::from_plugin_config(&entries(&[
        ("enabled", "no"),
        ("debug", "TRUE"),
        ("notification_timeout_ms", "-5"),
        ("queue_max_size", "12x"),
        ("animation_speed", "256"),
        ("animation_cycles", ""),
        ("animation_enabled", "1"),
        ("high_contrast", " true"),
    ]));
    assert!(config.enabled);
    assert!(!config.debug);
    assert_eq!(config.notification_timeout_ms, 300_000);
    assert_eq!(config.queue_max_size, 100);
    assert_eq!(config.animation.speed, 50);
    assert_eq!(config.animation.cycles, 3);
    assert!(config.animation.enabled);
    assert!(!config.accessibility.high_contrast);

    let config = Config::from_plugin_config(&entries(&[
        ("notification_timeout_ms", "18446744073709551615"),
        ("animation_speed", "255"),
        ("animation_cycles", "007"),
        ("queue_max_size", "+"),
    ]));
    assert_eq!(config.notification_timeout_ms, u64::MAX);
    assert_eq!(config.animation.speed, 255);
    assert_eq!(config.animation.cycles, 7);
    assert_eq!(config.queue_max_size, 100);
    let config = Config::from_plugin_config(&entries(&[(
        "notification_timeout_ms",
        "18446744073709551616",
    )]));
    assert_eq!(config.notification_timeout_ms, 300_000);
}

#[test]
fn reduced_motion_switches_animations_off() {
    let config = Config::from_plugin_config(&entries(&[
        ("reduced_motion", "true"),
        ("animation_enabled", "true"),
    ]));
    assert!(config.accessibility.reduced_motion);
    assert!(!config.animation.enabled);
    let config = Config::from_plugin_config(&entries(&[("animation_enabled", "false")]));
    assert!(!config.animation.enabled);
    let config = Config::from_plugin_config(&entries(&[]));
    assert!(config.animation.enabled);
    assert_eq!(config.queue_max_size, 100);
}

#[test]
fn first_entry_of_a_key_counts() {
    let config =
        Config::from_plugin_config(&entries(&[("queue_max_size", "5"), ("queue_max_size", "9")]));
    assert_eq!(config.queue_max_size, 5);
}

#[test]
fn config_manager_never_reloads_anything() {
    let mut manager = ConfigManager::new();
    assert!(manager.reload().is_none());
    manager.set_path("/etc/overlay.kdl");
    assert!(manager.reload().is_none());
    let mut other = ConfigManager::default();
    assert!(other.reload().is_none());
}
