use aw_watcher_nvim::activity::Activity;
use aw_watcher_nvim::state::{ConnectionState, DEBOUNCE_NANOS};

const SEC: u64 = 1_000_000_000;

fn act(file: &str, project: &str, language: &str) -> Activity {
    Activity::new(file.to_string(), project.to_string(), language.to_string())
}

fn connected() -> ConnectionState {
    let mut s = ConnectionState::new();
    s.apply_start(true);
    s
}

#[test]
fn new_state_is_disconnected_and_empty() {
    let s = ConnectionState::new();
    assert!(!s.status());
    assert_eq!(s.last_heartbeat, None);
    assert_eq!(s.last.file, "");
    assert_eq!(s.last.project, "");
    assert_eq!(s.last.language, "");
}

#[test]
fn scenario_window_then_unchanged_then_new_file() {
    let mut s = connected();
    let first = s.on_signal(0, act("a", "/p", "rust"));
    assert_eq!(first.map(|a| a.file), Some("a".to_string()));
    assert_eq!(s.last_heartbeat, Some(0));
    assert!(s.on_signal(SEC / 2, act("a", "/p", "rust")).is_none());
    assert!(s.on_signal(3 * SEC / 2, act("a", "/p", "rust")).is_none());
    let last = s.on_signal(2 * SEC, act("b", "/p", "rust"));
    assert_eq!(last.map(|a| a.file), Some("b".to_string()));
    assert_eq!(s.last_heartbeat, Some(2 * SEC));
    assert_eq!(s.last.file, "b");
}

#[test]
fn disconnected_sends_nothing_for_any_signal() {
    let mut s = ConnectionState::new();
    let signals = [
        (0, act("a", "/p", "rust")),
        (5 * SEC, act("b", "/q", "c")),
        (10 * SEC, act("c", "/r", "lua")),
        (100 * SEC, act("", "", "")),
    ];
    for (t, a) in signals {
        assert!(!s.passes_gate(t));
        assert!(s.on_signal(t, a).is_none());
    }
    assert_eq!(s.last_heartbeat, None);
    assert_eq!(s.last.file, "");
}

#[test]
fn same_activity_within_window_sends_once() {
    let mut s = connected();
    assert!(s.on_signal(10 * SEC, act("a", "/p", "rust")).is_some());
    assert!(s.on_signal(10 * SEC + DEBOUNCE_NANOS, act("a", "/p", "rust")).is_none());
}

#[test]
fn window_boundary_is_inclusive() {
    let mut s = connected();
    assert!(s.on_signal(SEC, act("a", "/p", "rust")).is_some());
    assert!(!s.passes_gate(2 * SEC));
    assert!(s.on_signal(2 * SEC, act("b", "/p", "rust")).is_none());
    assert!(s.passes_gate(2 * SEC + 1));
    assert!(s.on_signal(2 * SEC + 1, act("b", "/p", "rust")).is_some());
}

#[test]
fn unchanged_activity_after_window_sends_nothing() {
    let mut s = connected();
    assert!(s.on_signal(0, act("a", "/p", "rust")).is_some());
    assert!(s.on_signal(60 * SEC, act("a", "/p", "rust")).is_none());
    assert_eq!(s.last_heartbeat, Some(0));
}

#[test]
fn changed_language_after_window_sends() {
    let mut s = connected();
    assert!(s.on_signal(0, act("a", "/p", "rust")).is_some());
    let r = s.on_signal(2 * SEC, act("a", "/p", "markdown"));
    assert_eq!(r.map(|a| a.language), Some("markdown".to_string()));
    assert_eq!(s.last.language, "markdown");
    assert_eq!(s.last_heartbeat, Some(2 * SEC));
}

#[test]
fn changed_project_after_window_sends() {
    let mut s = connected();
    assert!(s.on_signal(0, act("a", "/p", "rust")).is_some());
    assert!(s.on_signal(2 * SEC, act("a", "/q", "rust")).is_some());
    assert_eq!(s.last.project, "/q");
}

#[test]
fn first_signal_with_empty_activity_sends_nothing() {
    let mut s = connected();
    assert!(s.passes_gate(0));
    assert!(s.on_signal(0, act("", "", "")).is_none());
    assert_eq!(s.last_heartbeat, None);
}

#[test]
fn clock_going_back_counts_as_no_time() {
    let mut s = connected();
    assert!(s.on_signal(5 * SEC, act("a", "/p", "rust")).is_some());
    assert!(!s.passes_gate(0));
    assert!(s.on_signal(0, act("b", "/p", "rust")).is_none());
}

#[test]
fn largest_clock_reading() {
    let mut s = connected();
    assert!(s.on_signal(0, act("a", "/p", "rust")).is_some());
    assert!(s.on_signal(u64::MAX, act("b", "/p", "rust")).is_some());
    assert_eq!(s.last_heartbeat, Some(u64::MAX));
}

#[test]
fn fault_disconnects_and_silences_signals() {
    let mut s = connected();
    assert!(s.on_signal(0, act("a", "/p", "rust")).is_some());
    s.on_delivery_fault();
    assert!(!s.status());
    assert!(s.on_signal(5 * SEC, act("b", "/p", "rust")).is_none());
    assert_eq!(s.last.file, "a");
    s.apply_start(true);
    assert!(s.on_signal(6 * SEC, act("b", "/p", "rust")).is_some());
}

#[test]
fn stop_keeps_the_recorded_activity() {
    let mut s = connected();
    assert!(s.on_signal(0, act("a", "/p", "rust")).is_some());
    s.stop();
    assert!(!s.status());
    assert_eq!(s.last_heartbeat, Some(0));
    assert_eq!(s.last.file, "a");
}

#[test]
fn failed_start_reports_disconnected() {
    let mut s = ConnectionState::new();
    s.apply_start(false);
    assert!(!s.status());
    assert_eq!(s.status_line(), "aw-watcher-nvim running: false");
    let mut t = connected();
    t.apply_start(false);
    assert!(!t.status());
    assert_eq!(t.status_line(), "aw-watcher-nvim running: false");
}

#[test]
fn successful_start_reports_connected() {
    let s = connected();
    assert!(s.status());
    assert_eq!(s.status_line(), "aw-watcher-nvim running: true");
}
