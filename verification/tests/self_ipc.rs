use rphide::self_ipc::{
    knock_reply, occupy_step, parse_pid, primary_step, runtime_path, tray_is_running,
    ui_update_for, take_over_step, Action, BindOutcome, OccupyAction, PrimaryCommand,
    SecondaryTask, TakeOverEvent, TakeOverStep,
};
use rphide::ui::UiUpdate;

#[test]
fn action_codes() {
    for (a, c) in [(Action::Knock, 0u8), (Action::Hide, 1), (Action::Unhide, 2), (Action::Quit, 3)] {
        assert_eq!(a.code(), c);
        assert_eq!(Action::from_code(c), Some(a));
    }
    assert_eq!(Action::from_code(4), None);
    assert_eq!(Action::from_code(255), None);
}

#[test]
fn secondary_task_codes() {
    for (t, c) in [(SecondaryTask::Tray, 0u8), (SecondaryTask::Exit, 1), (SecondaryTask::Unknown, 2)] {
        assert_eq!(t.code(), c);
        assert_eq!(SecondaryTask::from_code(c), t);
    }
    assert_eq!(SecondaryTask::from_code(9), SecondaryTask::Unknown);
}

#[test]
fn requests_map_to_window_updates() {
    assert_eq!(ui_update_for(Action::Knock), None);
    assert_eq!(ui_update_for(Action::Hide), Some(UiUpdate::Hide));
    assert_eq!(ui_update_for(Action::Unhide), Some(UiUpdate::Unhide));
    assert_eq!(ui_update_for(Action::Quit), Some(UiUpdate::AcutallyQuit));
    assert_eq!(knock_reply(true), SecondaryTask::Tray);
    assert_eq!(knock_reply(false), SecondaryTask::Exit);
}

#[test]
fn pid_file_parsing() {
    assert_eq!(parse_pid("1234"), Some(1234));
    assert_eq!(parse_pid("+7"), Some(7));
    assert_eq!(parse_pid("-5"), Some(-5));
    assert_eq!(parse_pid("007"), Some(7));
    assert_eq!(parse_pid("2147483647"), Some(i32::MAX));
    assert_eq!(parse_pid("-2147483648"), Some(i32::MIN));
    assert_eq!(parse_pid("2147483648"), None);
    assert_eq!(parse_pid("1234\n"), None);
    assert_eq!(parse_pid(""), None);
    assert_eq!(parse_pid("-"), None);
    assert_eq!(parse_pid("12a"), None);
}

#[test]
fn tray_process_name_must_match() {
    let own = "rphide".to_string();
    assert!(tray_is_running(Some("rphide".to_string()), &own));
    assert!(!tray_is_running(Some("bash".to_string()), &own));
    assert!(!tray_is_running(None, &own));
}

#[test]
fn runtime_path_takes_first_set_directory() {
    let c = vec![None, Some("/run/tmp".to_string()), Some("/other".to_string())];
    assert_eq!(runtime_path(&c, "/rphide-ipc"), "/run/tmp/rphide-ipc");
    let c = vec![Some("/run/user/1000".to_string()), None];
    assert_eq!(runtime_path(&c, "/rphide-tray.pid"), "/run/user/1000/rphide-tray.pid");
    assert_eq!(runtime_path(&vec![None, None, None, None], "/discord-ipc-0"), "/tmp/discord-ipc-0");
    assert_eq!(runtime_path(&vec![], "/x"), "/tmp/x");
}

#[test]
fn first_byte_decides_what_the_primary_does() {
    assert_eq!(primary_step(0), PrimaryCommand::AnswerKnock);
    assert_eq!(primary_step(1), PrimaryCommand::Notify(UiUpdate::Hide));
    assert_eq!(primary_step(2), PrimaryCommand::Notify(UiUpdate::Unhide));
    assert_eq!(primary_step(3), PrimaryCommand::Notify(UiUpdate::AcutallyQuit));
    assert_eq!(primary_step(4), PrimaryCommand::Unknown);
    assert_eq!(primary_step(255), PrimaryCommand::Unknown);
}

#[test]
fn connections_pass_on_their_updates_in_order() {
    let codes = [1u8, 0, 9, 2, 3, 1];
    let updates: Vec<UiUpdate> = codes
        .iter()
        .filter_map(|c| match primary_step(*c) {
            PrimaryCommand::Notify(u) => Some(u),
            _ => None,
        })
        .collect();
    assert_eq!(
        updates,
        vec![UiUpdate::Hide, UiUpdate::Unhide, UiUpdate::AcutallyQuit, UiUpdate::Hide]
    );
}

#[test]
fn socket_in_use_is_taken_over() {
    assert_eq!(occupy_step(BindOutcome::Bound), OccupyAction::Keep);
    assert_eq!(occupy_step(BindOutcome::InUse), OccupyAction::TakeOver);
    assert_eq!(occupy_step(BindOutcome::Failed), OccupyAction::GiveUp);
}

#[test]
fn take_over_removes_retries_asks_then_waits() {
    assert_eq!(take_over_step(TakeOverEvent::Started), TakeOverStep::RemoveSocket);
    assert_eq!(take_over_step(TakeOverEvent::Removed), TakeOverStep::Retry);
    assert_eq!(take_over_step(TakeOverEvent::Retried), TakeOverStep::AskRestart);
    assert_eq!(take_over_step(TakeOverEvent::Asked), TakeOverStep::AwaitAnswer);
    assert_eq!(take_over_step(TakeOverEvent::Answered), TakeOverStep::Finish);
    assert_eq!(take_over_step(TakeOverEvent::RemoveFailed), TakeOverStep::GiveUp);
}
