use visual_notifications::animation::AnimationEngine;
use visual_notifications::colors::{ColorCapability, ColorManager};
use visual_notifications::config::{AnimationConfig, AnimationStyle, Config};
use visual_notifications::notification::{Notification, NotificationType};
use visual_notifications::panes::PaneStates;
use visual_notifications::queue::NotificationQueue;
use visual_notifications::renderer::{
    count_active, count_shown, BorderLineStyle, Renderer,
};
use visual_notifications::state::VisualState;

#[test]
fn test_renderer_creation() {
    let config = Config::default();
    let renderer = Renderer::new(&config);
    assert!(renderer.show_status_bar);
    assert!(renderer.show_border_colors);
    assert!(renderer.show_tab_badges);
}

#[test]
fn test_notification_icons() {
    let renderer = Renderer::default();

    let success_icon = renderer.get_notification_icon(&NotificationType::Success);
    let error_icon = renderer.get_notification_icon(&NotificationType::Error);

    assert!(!success_icon.is_empty());
    assert!(!error_icon.is_empty());
    assert_ne!(success_icon, error_icon);
}

#[test]
fn test_border_line_styles() {
    let single = BorderLineStyle::Single;
    let double = BorderLineStyle::Double;

    let single_chars = single.chars();
    let double_chars = double.chars();

    assert_ne!(single_chars.horizontal, double_chars.horizontal);
    assert_ne!(single_chars.vertical, double_chars.vertical);
}

#[test]
fn test_pattern_suffix() {
    let renderer = Renderer::default();

    let success_pattern = renderer.get_pattern_suffix(&NotificationType::Success);
    let error_pattern = renderer.get_pattern_suffix(&NotificationType::Error);

    assert!(!success_pattern.is_empty());
    assert!(!error_pattern.is_empty());
    assert_ne!(success_pattern, error_pattern);
}

fn shown(kind: NotificationType, message: &str) -> VisualState {
    let mut state = VisualState::new();
    state.notification_type = Some(kind);
    state.notification_message = Some(message.to_string());
    state
}

fn panes_of(entries: Vec<(u32, VisualState)>) -> PaneStates {
    let mut panes = PaneStates::new();
    for (id, state) in entries {
        let index = panes.get_or_insert(id);
        *panes.state_at_mut(index) = state;
    }
    panes
}

#[test]
fn icons_and_patterns_of_every_kind() {
    let mut renderer = Renderer::default();
    let kinds = [
        (NotificationType::Success, "\u{2714}", "+", "="),
        (NotificationType::Error, "\u{2718}", "X", "##"),
        (NotificationType::Warning, "\u{26A0}", "!", "~~"),
        (NotificationType::Info, "\u{2139}", "i", ".."),
        (NotificationType::Progress, "\u{21BB}", "~", "->"),
        (NotificationType::Attention, "\u{2757}", "!", "!!"),
    ];
    for (kind, icon, plain, pattern) in kinds {
        renderer.use_unicode = true;
        assert_eq!(renderer.get_notification_icon(&kind), icon);
        renderer.use_unicode = false;
        assert_eq!(renderer.get_notification_icon(&kind), plain);
        assert_eq!(renderer.get_pattern_suffix(&kind), pattern);
    }
}

#[test]
fn border_characters_of_every_style() {
    let single = BorderLineStyle::Single.chars();
    assert_eq!(
        (single.horizontal, single.vertical, single.top_left, single.top_right),
        ('\u{2500}', '\u{2502}', '\u{250C}', '\u{2510}')
    );
    assert_eq!((single.bottom_left, single.bottom_right), ('\u{2514}', '\u{2518}'));
    let double = BorderLineStyle::Double.chars();
    assert_eq!(
        (double.horizontal, double.vertical, double.top_left, double.top_right),
        ('\u{2550}', '\u{2551}', '\u{2554}', '\u{2557}')
    );
    assert_eq!((double.bottom_left, double.bottom_right), ('\u{255A}', '\u{255D}'));
    let dashed = BorderLineStyle::Dashed.chars();
    assert_eq!((dashed.horizontal, dashed.vertical), ('\u{2504}', '\u{2506}'));
    assert_eq!((dashed.top_left, dashed.bottom_right), (single.top_left, single.bottom_right));
    let dotted = BorderLineStyle::Dotted.chars();
    assert_eq!((dotted.horizontal, dotted.vertical), ('\u{2508}', '\u{250A}'));
    assert_eq!((dotted.top_right, dotted.bottom_left), (single.top_right, single.bottom_left));
    let bold = BorderLineStyle::Bold.chars();
    assert_eq!(
        (bold.horizontal, bold.vertical, bold.top_left, bold.top_right),
        ('\u{2501}', '\u{2503}', '\u{250F}', '\u{2513}')
    );
    assert_eq!((bold.bottom_left, bold.bottom_right), ('\u{2517}', '\u{251B}'));
}

#[test]
fn badge_of_a_pane() {
    let mut renderer = Renderer::default();
    let colors = ColorManager::default();
    let state = shown(NotificationType::Error, "m");
    assert_eq!(
        renderer.render_pane_badge(&state, &colors),
        Some("\x1b[38;2;239;68;68m\u{2718}\x1b[0m".to_string())
    );
    let mut acknowledged = shown(NotificationType::Error, "m");
    acknowledged.acknowledged = true;
    assert_eq!(renderer.render_pane_badge(&acknowledged, &colors), None);
    assert_eq!(renderer.render_pane_badge(&VisualState::new(), &colors), None);
    renderer.show_tab_badges = false;
    assert_eq!(renderer.render_pane_badge(&state, &colors), None);

    // the quantised colour is no hexadecimal text, so the escape falls back to black
    let mut limited = ColorManager::default();
    limited.set_capability(ColorCapability::Color256);
    renderer.show_tab_badges = true;
    assert_eq!(
        renderer.render_pane_badge(&state, &limited),
        Some("\x1b[38;5;16m\u{2718}\x1b[0m".to_string())
    );
}

#[test]
fn border_style_follows_the_animation() {
    let mut renderer = Renderer::default();
    let colors = ColorManager::default();
    let mut config = AnimationConfig::default();
    config.speed = 51;
    config.cycles = 4;
    let engine = AnimationEngine::new(&config);
    let mut state = shown(NotificationType::Success, "m");
    let border = renderer.get_border_style(&state, &colors, &engine, 0).unwrap();
    assert_eq!(border.color, "#22c55e");
    assert_eq!(border.style, BorderLineStyle::Single);

    engine.start_animation(&mut state, 0, AnimationStyle::Fade);
    let border = renderer.get_border_style(&state, &colors, &engine, 200).unwrap();
    // half the brightness: (34, 197, 94) / 2
    assert_eq!(border.color, "#11622f");
    assert_eq!(border.style, BorderLineStyle::Double);

    state.acknowledged = true;
    assert!(renderer.get_border_style(&state, &colors, &engine, 0).is_none());
    assert!(renderer.get_border_style(&VisualState::new(), &colors, &engine, 0).is_none());
    state.acknowledged = false;
    renderer.show_border_colors = false;
    assert!(renderer.get_border_style(&state, &colors, &engine, 0).is_none());
}

#[test]
fn tooltip_of_a_pane() {
    let renderer = Renderer::default();
    let colors = ColorManager::default();
    let state = shown(NotificationType::Warning, "disk almost full");
    assert_eq!(
        renderer.format_notification_tooltip(&state, &colors),
        Some("\u{26A0} disk almost full".to_string())
    );
    let mut nameless = VisualState::new();
    nameless.notification_message = Some("text".to_string());
    assert_eq!(
        renderer.format_notification_tooltip(&nameless, &colors),
        Some(" text".to_string())
    );
    assert_eq!(renderer.format_notification_tooltip(&VisualState::new(), &colors), None);
}

#[test]
fn summary_counts_by_kind() {
    let mut renderer = Renderer::default();
    renderer.use_unicode = false;
    let colors = ColorManager::default();
    assert_eq!(renderer.render_summary(&PaneStates::new(), &colors), "No notifications");

    let mut acknowledged = shown(NotificationType::Error, "seen");
    acknowledged.acknowledged = true;
    let panes = panes_of(vec![
        (5, shown(NotificationType::Info, "a")),
        (1, shown(NotificationType::Error, "b")),
        (9, shown(NotificationType::Error, "c")),
        (3, shown(NotificationType::Progress, "d")),
        (4, acknowledged),
        (7, shown(NotificationType::Attention, "e")),
        (8, VisualState::new()),
    ]);
    assert_eq!(count_shown(&panes, &NotificationType::Error), 2);
    assert_eq!(count_shown(&panes, &NotificationType::Success), 0);
    assert_eq!(count_shown(&panes, &NotificationType::Progress), 1);
    assert_eq!(count_active(&panes), 5);
    assert_eq!(
        renderer.render_summary(&panes, &colors),
        "\x1b[38;2;239;68;68mX2\x1b[0m \x1b[38;2;234;179;8m!1\x1b[0m \x1b[38;2;59;130;246mi1\x1b[0m"
    );
    let only_progress = panes_of(vec![(3, shown(NotificationType::Progress, "d"))]);
    assert_eq!(renderer.render_summary(&only_progress, &colors), "No notifications");
    let one = panes_of(vec![(3, shown(NotificationType::Success, "d"))]);
    assert_eq!(renderer.render_summary(&one, &colors), "\x1b[38;2;34;197;94m+1\x1b[0m");
}

#[test]
fn status_bar_content() {
    let mut renderer = Renderer::default();
    let colors = ColorManager::default();
    let engine = AnimationEngine::default();
    let mut queue = NotificationQueue::new(10, 1000);
    let empty = PaneStates::new();
    assert_eq!(
        renderer.render_status_bar(1, 80, &empty, &queue, &colors, &engine, 0),
        Some("\u{1F514} \x1b[38;2;108;112;134mNo notifications\x1b[0m".to_string())
    );
    assert_eq!(renderer.render_status_bar(1, 9, &empty, &queue, &colors, &engine, 0), None);
    assert!(renderer.render_status_bar(1, 10, &empty, &queue, &colors, &engine, 0).is_some());

    let mut animating = shown(NotificationType::Error, "b");
    animating.is_animating = true;
    animating.animation_style = AnimationStyle::Flash;
    let panes = panes_of(vec![
        (12, shown(NotificationType::Success, "a")),
        (3, animating),
        (7, VisualState::new()),
    ]);
    queue.enqueue(Notification::info("waiting"));
    queue.enqueue(Notification::info("waiting too"));
    // pane 3 flashes: at tick 40 of a cycle of 102 ticks it is dimmed to three tenths
    assert_eq!(
        renderer.render_status_bar(1, 80, &panes, &queue, &colors, &engine, 40),
        Some(
            "\u{1F514} \x1b[38;2;71;20;20m[\u{2718}##:3*]\x1b[0m \x1b[38;2;34;197;94m[\u{2714}=:12]\x1b[0m (+2 queued)"
                .to_string()
        )
    );
    renderer.use_unicode = false;
    renderer.use_patterns = false;
    assert_eq!(
        renderer.build_status_content(2, 0, &panes, &colors, &engine, 0),
        "[N] \x1b[38;2;239;68;68m[X:3*]\x1b[0m \x1b[38;2;34;197;94m[+:12]\x1b[0m "
    );
    assert_eq!(
        renderer.build_status_content(0, 3, &empty, &colors, &engine, 0),
        "[N] (+3 queued)"
    );
    assert_eq!(
        renderer.build_status_content(0, 0, &panes, &colors, &engine, 0),
        "[N] \x1b[38;2;108;112;134mNo notifications\x1b[0m"
    );
    renderer.show_status_bar = false;
    assert_eq!(renderer.render_status_bar(1, 80, &panes, &queue, &colors, &engine, 0), None);
}
