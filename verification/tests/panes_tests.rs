use visual_notifications::notification::NotificationType;
use visual_notifications::panes::PaneStates;
use visual_notifications::state::VisualState;

#[test]
fn panes_are_kept_in_ascending_order() {
    let mut panes = PaneStates::new();
    assert_eq!(panes.len(), 0);
    assert!(panes.get(1).is_none());
    assert_eq!(panes.position(1), 0);
    assert_eq!(panes.get_or_insert(5), 0);
    assert_eq!(panes.get_or_insert(2), 0);
    assert_eq!(panes.get_or_insert(9), 2);
    assert_eq!(panes.get_or_insert(5), 1);
    assert_eq!(panes.get_or_insert(0), 0);
    assert_eq!(panes.get_or_insert(u32::MAX), 4);
    assert_eq!(panes.len(), 5);
    let ids: Vec<u32> = (0..panes.len()).map(|i| panes.pane_at(i)).collect();
    assert_eq!(ids, vec![0, 2, 5, 9, u32::MAX]);
    assert_eq!(panes.position(5), 2);
    assert_eq!(panes.position(6), 3);
    assert_eq!(panes.position(1), 1);
}

#[test]
fn a_new_pane_gets_a_fresh_state() {
    let mut panes = PaneStates::default();
    let index = panes.get_or_insert(4);
    assert_eq!(panes.state_at(index).brightness, 0);
    assert!(panes.state_at(index).notification_type.is_none());
    panes.state_at_mut(index).notification_type = Some(NotificationType::Info);
    panes.state_at_mut(index).brightness = 7;
    // asking again keeps what is there
    let again = panes.get_or_insert(4);
    assert_eq!(again, index);
    assert_eq!(panes.state_at(again).brightness, 7);
    assert_eq!(panes.get(4).unwrap().notification_type, Some(NotificationType::Info));
    assert!(panes.get(3).is_none());
    panes.get_or_insert(1);
    assert_eq!(panes.get(4).unwrap().brightness, 7);
    assert_eq!(panes.get(1).unwrap().brightness, VisualState::default().brightness);
}
