use rphide::config::Trigger;
use rphide::trigger::{best_status, check_title_regex, scan_status, Status};

fn trig(name: &str, window: Option<&str>) -> Trigger {
    Trigger { process_name: name.to_string(), window_name: window.map(|w| w.to_string()) }
}

fn procs(names: &[&str]) -> Vec<String> {
    names.iter().map(|n| n.to_string()).collect()
}

fn patterns(s: &Status) -> Option<Vec<String>> {
    match s {
        Status::CheckWindow(v) => Some(v.clone()),
        _ => None,
    }
}

#[test]
fn no_match_shows() {
    let s = scan_status(&procs(&["bash", "init"]), &vec![trig("obs", None)]);
    assert!(matches!(s, Status::Show));
    assert!(matches!(scan_status(&vec![], &vec![trig("obs", None)]), Status::Show));
    assert!(matches!(scan_status(&procs(&["obs"]), &vec![]), Status::Show));
}

#[test]
fn match_without_window_hides() {
    let s = best_status(&procs(&["bash", "obs"]), &vec![trig("obs", None)]);
    assert!(matches!(s, Status::Hide));
}

#[test]
fn matches_with_windows_collect_titles_in_order() {
    let triggers = vec![trig("chrome", Some("Netflix")), trig("zoom", Some("Meeting")), trig("chrome", Some("Mail"))];
    let s = best_status(&procs(&["zoom", "bash", "chrome"]), &triggers);
    assert_eq!(
        patterns(&s),
        Some(vec!["Meeting".to_string(), "Netflix".to_string(), "Mail".to_string()])
    );
}

#[test]
fn window_free_match_wins_over_titles() {
    let triggers = vec![trig("chrome", Some("Netflix")), trig("obs", None)];
    let s = best_status(&procs(&["chrome", "obs"]), &triggers);
    assert!(matches!(s, Status::Hide));
}

#[test]
fn title_checks_hide_for_now() {
    let triggers = vec![trig("chrome", Some("Netflix"))];
    assert!(matches!(scan_status(&procs(&["chrome"]), &triggers), Status::Hide));
    assert!(matches!(check_title_regex(&vec!["x".to_string()]), Status::Hide));
    assert!(matches!(check_title_regex(&vec![]), Status::Hide));
}

#[test]
fn names_compare_exactly() {
    let s = scan_status(&procs(&["OBS", "obs64"]), &vec![trig("obs", None)]);
    assert!(matches!(s, Status::Show));
}
