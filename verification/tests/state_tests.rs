use visual_notifications::config::AnimationStyle;
use visual_notifications::notification::NotificationType;
use visual_notifications::state::{
    PaneNotificationState, PluginState, StateManager, StateTransition, VisualNotificationState,
    VisualState,
};

#[test]
fn test_visual_state_default() {
    let state = VisualState::default();
    assert_eq!(state.state, VisualNotificationState::Idle);
    assert!(!state.has_notification());
}

#[test]
fn test_visual_state_clear() {
    let mut state = VisualState::new();
    state.border_color = Some("#ff0000".to_string());
    state.badge_icon = Some("!".to_string());
    state.is_animating = true;

    state.clear();

    assert_eq!(state.state, VisualNotificationState::Idle);
    assert!(state.border_color.is_none());
    assert!(state.badge_icon.is_none());
    assert!(!state.is_animating);
}

#[test]
fn test_state_transitions() {
    let idle = VisualNotificationState::Idle;
    let pending = VisualNotificationState::Pending;
    let active = VisualNotificationState::Active;
    let fading = VisualNotificationState::Fading;

    assert!(idle.can_transition_to(&pending));
    assert!(idle.can_transition_to(&active));
    assert!(pending.can_transition_to(&active));
    assert!(active.can_transition_to(&fading));
    assert!(fading.can_transition_to(&idle));

    assert!(!pending.can_transition_to(&fading));
    assert!(!idle.can_transition_to(&fading));
}

#[test]
fn test_state_manager_history() {
    let mut manager = StateManager::new();

    for i in 0..10 {
        let transition = StateTransition::new(
            VisualNotificationState::Idle,
            VisualNotificationState::Active,
            &format!("Test {}", i),
        );
        manager.record_transition(transition);
    }

    let recent = manager.recent_transitions(5);
    assert_eq!(recent.len(), 5);
}

#[test]
fn the_whole_transition_table() {
    let idle = VisualNotificationState::Idle;
    let pending = VisualNotificationState::Pending;
    let active = VisualNotificationState::Active;
    let fading = VisualNotificationState::Fading;
    let error = VisualNotificationState::Error;
    let all = [idle, pending, active, fading, error];
    let legal = [
        (idle, pending),
        (idle, active),
        (pending, active),
        (pending, idle),
        (active, fading),
        (active, idle),
        (fading, idle),
        (fading, active),
        (error, idle),
        (error, active),
    ];
    for from in all {
        for to in all {
            let expected = from == to || legal.contains(&(from, to));
            assert_eq!(from.can_transition_to(&to), expected, "{:?} -> {:?}", from, to);
        }
    }
    assert_eq!(idle.display_name(), "Idle");
    assert_eq!(pending.display_name(), "Pending");
    assert_eq!(active.display_name(), "Active");
    assert_eq!(fading.display_name(), "Fading");
    assert_eq!(error.display_name(), "Error");
    assert_eq!(VisualNotificationState::default(), idle);
}

#[test]
fn acknowledge_then_clear() {
    let mut state = VisualState::new();
    state.set_notification(
        NotificationType::Error,
        "broken".to_string(),
        "#ef4444".to_string(),
        "x".to_string(),
    );
    assert_eq!(state.state, VisualNotificationState::Active);
    assert!(!state.acknowledged);
    assert_eq!(state.brightness, 1000);
    assert!(state.has_notification());

    assert!(state.acknowledge());
    assert_eq!(state.state, VisualNotificationState::Fading);
    assert!(state.acknowledged);
    assert!(!state.has_notification());
    assert_eq!(state.notification_message, Some("broken".to_string()));

    state.clear();
    assert_eq!(state.state, VisualNotificationState::Idle);
    assert!(state.notification_type.is_none());
    assert!(state.notification_message.is_none());
    assert!(state.border_color.is_none());
    assert!(state.badge_icon.is_none());
    assert!(!state.acknowledged);
    assert_eq!(state.brightness, 1000);
    state.clear();
    assert_eq!(state.state, VisualNotificationState::Idle);
}

#[test]
fn illegal_moves_are_refused() {
    let mut idle = VisualState::new();
    assert!(!idle.acknowledge());
    assert_eq!(idle.state, VisualNotificationState::Idle);
    assert!(!idle.acknowledged);
    assert!(!idle.start_fade(5));
    assert_eq!(idle.state, VisualNotificationState::Idle);
    assert!(!idle.is_animating);

    let mut state = VisualState::new();
    state.set_notification(
        NotificationType::Info,
        "m".to_string(),
        "#3b82f6".to_string(),
        "i".to_string(),
    );
    state.brightness = 400;
    assert!(state.start_fade(9));
    assert_eq!(state.state, VisualNotificationState::Fading);
    assert!(state.is_animating);
    assert_eq!(state.animation_start_tick, 9);
    assert_eq!(state.animation_phase, 0);
    assert_eq!(state.brightness, 400);
    // Fading may stay Fading
    assert!(state.acknowledge());
    assert!(state.start_fade(11));
    // and a new notification makes it Active again
    state.set_notification(
        NotificationType::Success,
        "n".to_string(),
        "#22c55e".to_string(),
        "+".to_string(),
    );
    assert_eq!(state.state, VisualNotificationState::Active);
    assert!(!state.acknowledged);
    assert_eq!(state.brightness, 1000);
    assert!(state.is_animating);
}

#[test]
fn new_and_default_differ_in_brightness_only() {
    let new = VisualState::new();
    let default = VisualState::default();
    assert_eq!(new.brightness, 1000);
    assert_eq!(default.brightness, 0);
    assert_eq!(new.animation_style, AnimationStyle::Pulse);
    assert_eq!(default.animation_style, AnimationStyle::Pulse);
    assert_eq!(new.animation_phase, 0);
    assert!(!new.is_animating && !default.is_animating);
    assert!(new.notification_type.is_none() && default.notification_type.is_none());
}

#[test]
fn history_is_bounded_by_the_newest() {
    let mut manager = StateManager::new();
    for i in 0..105 {
        manager.record_transition(StateTransition::new(
            VisualNotificationState::Idle,
            VisualNotificationState::Active,
            &format!("{}", i),
        ));
    }
    let all = manager.recent_transitions(1000);
    assert_eq!(all.len(), 100);
    assert_eq!(all[0].reason, "5");
    assert_eq!(all[99].reason, "104");
    assert_eq!(all[0].timestamp, 0);
    let three = manager.recent_transitions(3);
    assert_eq!(three.len(), 3);
    assert_eq!(three[0].reason, "102");
    assert_eq!(manager.recent_transitions(0).len(), 0);
    manager.clear_history();
    assert_eq!(manager.recent_transitions(10).len(), 0);

    let mut forgetful = StateManager::default();
    forgetful.record_transition(StateTransition::new(
        VisualNotificationState::Idle,
        VisualNotificationState::Active,
        "x",
    ));
    assert_eq!(forgetful.recent_transitions(10).len(), 0);
}

#[test]
fn plain_form_of_a_state() {
    let mut state = VisualState::new();
    state.notification_timestamp = 42;
    let plain = PaneNotificationState::from(&state);
    assert_eq!(plain.pane_id, 0);
    assert_eq!(plain.state, "Idle");
    assert_eq!(plain.notification_type, None);
    assert_eq!(plain.notification_message, None);
    assert!(!plain.acknowledged);
    assert_eq!(plain.last_update, 42);

    state.set_notification(
        NotificationType::Attention,
        "look".to_string(),
        "#eab308".to_string(),
        "!".to_string(),
    );
    state.acknowledge();
    let plain = PaneNotificationState::of(&state);
    assert_eq!(plain.state, "Fading");
    assert_eq!(plain.notification_type, Some("attention".to_string()));
    assert_eq!(plain.notification_message, Some("look".to_string()));
    assert!(plain.acknowledged);
    assert_eq!(PluginState::default(), PluginState::Initializing);
}
