use watch_rs::cycle::{cycle_outcome, WatchError};

#[test]
fn successful_cycle_trims_both_streams() {
    let r = cycle_outcome(b"\n  hello  \n".to_vec(), b" warn \n".to_vec(), true, Some(0)).unwrap();
    assert_eq!(r.stdout, "hello");
    assert_eq!(r.stderr, "warn");
    assert!(r.exit_succeeded);
    assert_eq!(r.exit_code, Some(0));
}

#[test]
fn empty_streams_stay_empty() {
    let r = cycle_outcome(Vec::new(), Vec::new(), true, Some(0)).unwrap();
    assert_eq!(r.stdout, "");
    assert_eq!(r.stderr, "");
}

#[test]
fn nonzero_exit_is_an_execution_error() {
    let r = cycle_outcome(b"ignored".to_vec(), b"".to_vec(), false, Some(2));
    assert_eq!(r.unwrap_err(), WatchError::Execution { code: Some(2) });
}

#[test]
fn signal_death_carries_no_exit_code() {
    let r = cycle_outcome(Vec::new(), Vec::new(), false, None);
    assert_eq!(r.unwrap_err(), WatchError::Execution { code: None });
}

#[test]
fn invalid_stdout_bytes_are_a_decode_error() {
    let r = cycle_outcome(vec![0xff, 0xfe], b"".to_vec(), true, Some(0));
    assert_eq!(r.unwrap_err(), WatchError::OutputDecode);
}

#[test]
fn invalid_stderr_bytes_are_a_decode_error() {
    let r = cycle_outcome(b"ok".to_vec(), vec![0x80], true, Some(0));
    assert_eq!(r.unwrap_err(), WatchError::OutputDecode);
}

#[test]
fn exit_status_is_checked_before_decoding() {
    let r = cycle_outcome(vec![0xff], vec![0xff], false, Some(7));
    assert_eq!(r.unwrap_err(), WatchError::Execution { code: Some(7) });
}

#[test]
fn multibyte_text_is_decoded() {
    let r = cycle_outcome(
        String::from("h\u{e9}llo w\u{f6}rld").into_bytes(),
        Vec::new(),
        true,
        Some(0),
    )
    .unwrap();
    assert_eq!(r.stdout, "h\u{e9}llo w\u{f6}rld");
}
