use rphide::presence::{presence_step, PresenceAction};
use rphide::trigger::Status;

#[test]
fn hide_then_show_sets_then_clears() {
    let mut current = Status::Show;
    assert_eq!(presence_step(&mut current, &Status::Hide), PresenceAction::SetActivity);
    assert!(matches!(current, Status::Hide));
    assert_eq!(presence_step(&mut current, &Status::Hide), PresenceAction::Nothing);
    assert_eq!(presence_step(&mut current, &Status::Show), PresenceAction::ClearActivity);
    assert!(matches!(current, Status::Show));
    assert_eq!(presence_step(&mut current, &Status::Show), PresenceAction::Nothing);
}

#[test]
fn check_window_changes_nothing() {
    let mut current = Status::Show;
    let a = presence_step(&mut current, &Status::CheckWindow(vec!["t".to_string()]));
    assert_eq!(a, PresenceAction::Nothing);
    assert!(matches!(current, Status::Show));
}

#[test]
fn activity_is_set_and_cleared_in_turn() {
    let received = vec![
        Status::CheckWindow(vec!["t".to_string()]),
        Status::Hide,
        Status::Hide,
        Status::CheckWindow(vec![]),
        Status::Show,
        Status::Show,
        Status::Hide,
        Status::CheckWindow(vec!["u".to_string()]),
    ];
    let mut current = Status::Show;
    let actions: Vec<PresenceAction> =
        received.iter().map(|s| presence_step(&mut current, s)).collect();
    assert_eq!(
        actions,
        vec![
            PresenceAction::Nothing,
            PresenceAction::SetActivity,
            PresenceAction::Nothing,
            PresenceAction::Nothing,
            PresenceAction::ClearActivity,
            PresenceAction::Nothing,
            PresenceAction::SetActivity,
            PresenceAction::Nothing,
        ]
    );
    assert!(matches!(current, Status::Hide));
}
