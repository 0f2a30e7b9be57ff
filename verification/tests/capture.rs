use keywatch::differ::{poll_step, KeyTracker};
use keywatch::hook::{hook_step, EscapePolicy, HookOutcome};
use keywatch::hotkey::{HotkeyMonitor, HotkeySignal};

fn expect_report(out: HookOutcome, want: &[&str]) {
    match out {
        HookOutcome::Report(snap) => {
            let want: Vec<String> = want.iter().map(|s| s.to_string()).collect();
            assert_eq!(snap, want);
        }
        HookOutcome::Quiet => panic!("expected a report, got nothing"),
        HookOutcome::EndSession => panic!("expected a report, got session end"),
    }
}

#[test]
fn hook_press_press_release_reports_full_sets() {
    let mut tracker = KeyTracker::new();
    let policy = EscapePolicy::Report;
    let a = 0x41;
    let b = 0x42;
    expect_report(hook_step(&mut tracker, &policy, a, true), &["A"]);
    expect_report(hook_step(&mut tracker, &policy, b, true), &["A", "B"]);
    expect_report(hook_step(&mut tracker, &policy, a, false), &["B"]);
}

#[test]
fn repeated_press_reports_unchanged_set_without_duplicate() {
    let mut tracker = KeyTracker::new();
    let policy = EscapePolicy::Report;
    expect_report(hook_step(&mut tracker, &policy, 0x41, true), &["A"]);
    expect_report(hook_step(&mut tracker, &policy, 0x41, true), &["A"]);
}

#[test]
fn spurious_release_reports_nothing() {
    let mut tracker = KeyTracker::new();
    let policy = EscapePolicy::Report;
    assert!(matches!(
        hook_step(&mut tracker, &policy, 0x41, false),
        HookOutcome::Quiet
    ));
    expect_report(hook_step(&mut tracker, &policy, 0x42, true), &["B"]);
}

#[test]
fn escape_ends_session_only_under_terminator_policy() {
    let mut tracker = KeyTracker::new();
    assert!(matches!(
        hook_step(&mut tracker, &EscapePolicy::EndSession, 0x1B, true),
        HookOutcome::EndSession
    ));
    expect_report(
        hook_step(&mut tracker, &EscapePolicy::Report, 0x1B, true),
        &["Escape"],
    );
}

#[test]
fn tracker_release_removes_first_match_only() {
    let mut tracker = KeyTracker::new();
    let snap = tracker.press("A".to_string());
    assert_eq!(snap, vec!["A".to_string()]);
    let snap = tracker.press("B".to_string());
    assert_eq!(snap, vec!["A".to_string(), "B".to_string()]);
    let snap = tracker.release(&"A".to_string());
    assert_eq!(snap, Some(vec!["B".to_string()]));
    assert_eq!(tracker.release(&"A".to_string()), None);
    assert_eq!(tracker.snapshot(), vec!["B".to_string()]);
}

#[test]
fn identical_polls_report_nothing() {
    let prev: Vec<u8> = vec![0x41, 0x11];
    let curr: Vec<u8> = vec![0x41, 0x11];
    assert_eq!(poll_step(&prev, &curr), None);
    let empty_prev: Vec<u8> = vec![];
    let empty_curr: Vec<u8> = vec![];
    assert_eq!(poll_step(&empty_prev, &empty_curr), None);
}

#[test]
fn changed_poll_reports_whole_translated_set() {
    let prev: Vec<u8> = vec![];
    let curr: Vec<u8> = vec![0xA2, 0x41];
    assert_eq!(
        poll_step(&prev, &curr),
        Some(vec!["LControl".to_string(), "A".to_string()])
    );
    let shrunk: Vec<u8> = vec![0xA2];
    assert_eq!(
        poll_step(&curr, &shrunk),
        Some(vec!["LControl".to_string()])
    );
}

#[test]
fn hotkey_chord_signals_once_per_edge() {
    let control = 0x11;
    let b = 0x42;
    let mut mon = HotkeyMonitor::new(vec![control, b]).unwrap();
    assert_eq!(mon.on_event(control, true), None);
    assert_eq!(mon.on_event(b, true), Some(HotkeySignal::Pressed));
    assert_eq!(mon.on_event(b, true), None);
    assert!(mon.is_held());
    assert_eq!(mon.on_event(b, false), Some(HotkeySignal::Released));
    assert_eq!(mon.on_event(b, false), None);
    assert!(!mon.is_held());
}

#[test]
fn hotkey_ignores_unrelated_keys() {
    let mut mon = HotkeyMonitor::new(vec![0x11, 0x42]).unwrap();
    assert_eq!(mon.on_event(0x41, true), None);
    assert_eq!(mon.on_event(0x11, true), None);
    assert_eq!(mon.on_event(0x42, true), Some(HotkeySignal::Pressed));
    assert_eq!(mon.on_event(0x41, false), None);
    assert!(mon.is_held());
}

#[test]
fn hotkey_chord_must_be_nonempty_and_distinct() {
    assert!(HotkeyMonitor::new(vec![]).is_none());
    assert!(HotkeyMonitor::new(vec![0x11, 0x11]).is_none());
    assert!(HotkeyMonitor::new(vec![0x11]).is_some());
}
