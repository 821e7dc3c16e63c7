use smarttodo::session::{PressPlan, ReleasePlan, Session};

#[test]
fn new_session_is_idle() {
    let s: Session<u32> = Session::new();
    assert!(!s.is_holding());
    assert!(!s.is_recording());
}

#[test]
fn push_to_talk_cycle_hands_over_the_recorder() {
    let mut s: Session<u32> = Session::new();
    assert_eq!(s.press(), PressPlan::Begin { start_recorder: true });
    assert!(s.is_holding());
    s.install(7);
    assert!(s.is_recording());
    assert_eq!(s.release(), ReleasePlan::Transcribe(7));
    assert!(!s.is_holding());
    assert!(!s.is_recording());
}

#[test]
fn key_repeat_is_ignored() {
    let mut s: Session<u32> = Session::new();
    assert_eq!(s.press(), PressPlan::Begin { start_recorder: true });
    s.install(1);
    assert_eq!(s.press(), PressPlan::Ignored);
    assert_eq!(s.press(), PressPlan::Ignored);
    assert!(s.is_holding());
    assert!(s.is_recording());
}

#[test]
fn release_without_press_is_ignored() {
    let mut s: Session<u32> = Session::new();
    assert_eq!(s.release(), ReleasePlan::Ignored);
    assert!(!s.is_holding());
}

#[test]
fn failed_start_leaves_nothing_to_transcribe() {
    let mut s: Session<u32> = Session::new();
    assert_eq!(s.press(), PressPlan::Begin { start_recorder: true });
    // the recorder could not be started, so nothing is installed
    assert_eq!(s.release(), ReleasePlan::Idle);
    assert!(!s.is_recording());
}

#[test]
fn press_while_recording_from_command_reuses_recorder() {
    let mut s: Session<u32> = Session::new();
    assert!(s.needs_recorder());
    s.install(3);
    assert!(!s.needs_recorder());
    assert_eq!(s.press(), PressPlan::Begin { start_recorder: false });
    assert_eq!(s.release(), ReleasePlan::Transcribe(3));
}

#[test]
fn stop_and_cancel_take_the_recorder() {
    let mut s: Session<u32> = Session::new();
    assert_eq!(s.take_recorder(), None);
    s.install(9);
    assert_eq!(s.take_recorder(), Some(9));
    assert_eq!(s.take_recorder(), None);
    assert!(!s.is_recording());
}

#[test]
fn take_keeps_the_hold() {
    let mut s: Session<u32> = Session::new();
    s.press();
    s.install(2);
    assert_eq!(s.take_recorder(), Some(2));
    assert!(s.is_holding());
    assert_eq!(s.release(), ReleasePlan::Idle);
}

#[test]
fn panel_hides_on_resign_only_when_idle_and_visible() {
    let mut s: Session<u32> = Session::new();
    assert!(s.hide_on_resign(true));
    assert!(!s.hide_on_resign(false));
    s.install(4);
    assert!(!s.hide_on_resign(true));
    assert!(!s.hide_on_resign(false));
}
