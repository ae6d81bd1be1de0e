use watch_rs::config::WatchConfig;
use watch_rs::cycle::WatchError;
use watch_rs::machine::{is_quit_key, KeyPress, Phase, WatchState};
use watch_rs::render::Directive;

fn key(ch: char, ctrl: bool) -> KeyPress {
    KeyPress { ch: Some(ch), ctrl, alt: false, shift: false, other_mods: false }
}

fn started(command: &str) -> WatchState {
    let args: Vec<String> = vec![];
    let cfg = WatchConfig::new(command, &args, 1);
    WatchState::init(cfg).on_enter(true)
}

fn waiting() -> WatchState {
    let s = started("true");
    let (s, frame) = s.on_cycle_output(80, 24, b"ok".to_vec(), b"".to_vec(), true, Some(0));
    assert!(frame.is_some());
    assert_eq!(s.phase, Phase::Wait);
    s
}

#[test]
fn quit_keys_are_recognised() {
    assert!(is_quit_key(&key('q', false)));
    assert!(is_quit_key(&key('q', true)));
    assert!(is_quit_key(&key('c', true)));
    assert!(!is_quit_key(&key('c', false)));
    assert!(!is_quit_key(&key('x', false)));
    let mut chord_with_shift = key('c', true);
    chord_with_shift.shift = true;
    assert!(!is_quit_key(&chord_with_shift));
    let no_char = KeyPress { ch: None, ctrl: true, alt: false, shift: false, other_mods: false };
    assert!(!is_quit_key(&no_char));
}

#[test]
fn one_frame_per_successful_cycle() {
    let s = started("true");
    let (s, first) = s.on_cycle_output(80, 24, b"a".to_vec(), b"".to_vec(), true, Some(0));
    assert!(first.is_some());
    assert_eq!(s.phase, Phase::Wait);
    let s = s.on_elapsed();
    assert_eq!(s.phase, Phase::Run);
    let (s, second) = s.on_cycle_output(80, 24, b"b".to_vec(), b"".to_vec(), true, Some(0));
    assert!(second.is_some());
    assert_eq!(s.phase, Phase::Wait);
}

#[test]
fn quit_during_wait_renders_exactly_one_final_frame() {
    let s = waiting();
    let (s, frame) = s.on_key(key('q', false));
    assert_eq!(s.phase, Phase::Done);
    let frame = frame.unwrap();
    assert_eq!(frame[0], Directive::LeaveAlternateScreen);
    assert!(!s.mode.alternate);
}

#[test]
fn remaining_wait_shrinks_and_saturates() {
    assert_eq!(WatchState::remaining_wait_ms(1000, 200), 800);
    assert_eq!(WatchState::remaining_wait_ms(1000, 1000), 0);
    assert_eq!(WatchState::remaining_wait_ms(1000, 1200), 0);
}

#[test]
fn other_keys_are_ignored_and_waiting_resumes() {
    let s = waiting();
    let (s, frame) = s.on_key(key('x', false));
    assert!(frame.is_none());
    assert_eq!(s.phase, Phase::Wait);
    let (s, frame) = s.on_key(KeyPress {
        ch: Some('c'),
        ctrl: false,
        alt: true,
        shift: false,
        other_mods: false,
    });
    assert!(frame.is_none());
    assert_eq!(s.phase, Phase::Wait);
}

#[test]
fn cancellation_restores_normal_mode() {
    let s = waiting();
    assert!(s.mode.raw && s.mode.alternate && s.mode.cursor_hidden && s.mode.wrap_forced);
    let (s, _) = s.on_key(key('c', true));
    assert_eq!(s.phase, Phase::Done);
    assert!(!s.mode.alternate);
    let s = s.on_exit();
    assert!(!s.mode.raw && !s.mode.alternate && !s.mode.cursor_hidden && !s.mode.wrap_forced);
}

#[test]
fn failing_command_ends_session_with_its_exit_code() {
    let s = started("false");
    let (s, frame) = s.on_cycle_output(80, 24, Vec::new(), Vec::new(), false, Some(2));
    assert!(frame.is_none());
    assert_eq!(s.phase, Phase::Failed);
    assert_eq!(s.error, Some(WatchError::Execution { code: Some(2) }));
    let s = s.on_exit();
    assert!(!s.mode.raw && !s.mode.alternate);
}

#[test]
fn undecodable_output_ends_session() {
    let s = started("true");
    let (s, frame) = s.on_cycle_output(80, 24, vec![0xff], Vec::new(), true, Some(0));
    assert!(frame.is_none());
    assert_eq!(s.phase, Phase::Failed);
    assert_eq!(s.error, Some(WatchError::OutputDecode));
}

#[test]
fn terminal_failure_aborts_startup() {
    let args: Vec<String> = vec![];
    let cfg = WatchConfig::new("true", &args, 1);
    let s = WatchState::init(cfg);
    assert_eq!(s.phase, Phase::Setup);
    let s = s.on_enter(false);
    assert_eq!(s.phase, Phase::Failed);
    assert_eq!(s.error, Some(WatchError::Terminal));
    assert!(!s.mode.raw && !s.mode.alternate);
}

#[test]
fn spawn_failure_is_fatal() {
    let s = started("nosuchshell");
    let s = s.on_spawn_failed();
    assert_eq!(s.phase, Phase::Failed);
    assert_eq!(s.error, Some(WatchError::Spawn));
}

#[test]
fn elapsed_interval_starts_the_next_iteration() {
    let s = waiting();
    let s = s.on_elapsed();
    assert_eq!(s.phase, Phase::Run);
}
