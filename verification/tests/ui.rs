use rphide::ui::{Ui, UiResult, UiUpdate};
use std::sync::mpsc;

fn new_ui() -> (Ui, mpsc::Sender<UiUpdate>, mpsc::Receiver<UiResult>) {
    let (update_tx, update_rx) = mpsc::channel();
    let (result_tx, result_rx) = mpsc::channel();
    (Ui::default(update_rx, result_tx, "0.1.0"), update_tx, result_rx)
}

#[test]
fn default_window_state() {
    let (ui, _, _) = new_ui();
    assert_eq!(ui.title(), "rphide v0.1.0");
    assert!(ui.visible());
    assert!(!ui.show_restart_discord_dialog());
}

#[test]
fn closing_hides_until_quit() {
    let (mut ui, _, _) = new_ui();
    assert!(!ui.on_close_event());
    assert!(!ui.visible());
    assert!(!ui.apply_update(UiUpdate::Unhide));
    assert!(ui.visible());
    assert!(ui.apply_update(UiUpdate::AcutallyQuit));
    assert!(ui.on_close_event());
}

#[test]
fn updates_arrive_through_the_channel() {
    let (mut ui, tx, _) = new_ui();
    assert_eq!(ui.receive_update(), None);
    tx.send(UiUpdate::AskRestart).unwrap();
    tx.send(UiUpdate::Hide).unwrap();
    assert_eq!(ui.receive_update(), Some(UiUpdate::AskRestart));
    assert!(ui.show_restart_discord_dialog());
    assert_eq!(ui.receive_update(), Some(UiUpdate::Hide));
    assert!(!ui.visible());
    assert_eq!(ui.receive_update(), None);
}

#[test]
fn restart_choice_is_sent_back() {
    let (mut ui, _, results) = new_ui();
    ui.apply_update(UiUpdate::AskRestart);
    assert!(ui.restart_discord_clicked());
    assert!(!ui.show_restart_discord_dialog());
    assert_eq!(results.try_recv(), Ok(UiResult::RestartDiscord));
}

#[test]
fn restart_choice_without_listener_is_reported() {
    let (mut ui, _, results) = new_ui();
    drop(results);
    ui.apply_update(UiUpdate::AskRestart);
    assert!(!ui.restart_discord_clicked());
    assert!(!ui.show_restart_discord_dialog());
}

#[test]
fn quit_button_makes_close_quit() {
    let (mut ui, _, _) = new_ui();
    ui.quit_clicked();
    assert!(ui.on_close_event());
    assert!(ui.visible());
}

#[test]
fn one_answer_per_restart_request() {
    let (mut ui, tx, results) = new_ui();
    tx.send(UiUpdate::AskRestart).unwrap();
    assert_eq!(ui.receive_update(), Some(UiUpdate::AskRestart));
    assert!(ui.restart_discord_clicked());
    assert_eq!(results.try_recv(), Ok(UiResult::RestartDiscord));
    assert!(results.try_recv().is_err());
    tx.send(UiUpdate::AskRestart).unwrap();
    tx.send(UiUpdate::AskRestart).unwrap();
    assert_eq!(ui.receive_update(), Some(UiUpdate::AskRestart));
    assert_eq!(ui.receive_update(), Some(UiUpdate::AskRestart));
    assert!(ui.restart_discord_clicked());
    assert_eq!(results.try_recv(), Ok(UiResult::RestartDiscord));
    assert!(results.try_recv().is_err());
    assert!(!ui.show_restart_discord_dialog());
}

#[test]
fn quit_request_sends_no_answer() {
    let (mut ui, tx, results) = new_ui();
    tx.send(UiUpdate::AcutallyQuit).unwrap();
    assert_eq!(ui.receive_update(), Some(UiUpdate::AcutallyQuit));
    assert!(ui.on_close_event());
    assert!(ui.visible());
    assert!(!ui.show_restart_discord_dialog());
    assert!(results.try_recv().is_err());
}

#[test]
fn quit_click_sends_no_answer() {
    let (mut ui, _, results) = new_ui();
    ui.apply_update(UiUpdate::AskRestart);
    ui.quit_clicked();
    assert!(ui.on_close_event());
    assert!(ui.show_restart_discord_dialog());
    assert!(results.try_recv().is_err());
}

#[test]
fn quit_survives_close_events_and_clicks() {
    let (mut ui, tx, results) = new_ui();
    tx.send(UiUpdate::AcutallyQuit).unwrap();
    assert_eq!(ui.receive_update(), Some(UiUpdate::AcutallyQuit));
    assert!(ui.on_close_event());
    ui.apply_update(UiUpdate::AskRestart);
    ui.apply_update(UiUpdate::Hide);
    assert!(ui.on_close_event());
    assert!(ui.restart_discord_clicked());
    ui.quit_clicked();
    ui.apply_update(UiUpdate::Unhide);
    assert!(ui.on_close_event());
    assert_eq!(ui.title(), "rphide v0.1.0");
    assert_eq!(results.try_recv(), Ok(UiResult::RestartDiscord));
    assert!(results.try_recv().is_err());
}
