use watch_rs::config::WatchConfig;
use watch_rs::cycle::{cycle_outcome, CycleResult};
use watch_rs::render::{
    render_body, render_final_frame, render_footer, render_frame, render_header, Directive,
};

fn cycle(stdout: &[u8], stderr: &[u8]) -> CycleResult {
    cycle_outcome(stdout.to_vec(), stderr.to_vec(), true, Some(0)).unwrap()
}

fn config(command: &str, interval: u64) -> WatchConfig {
    let args: Vec<String> = vec![];
    WatchConfig::new(command, &args, interval)
}

#[test]
fn body_shows_output_without_stderr_section() {
    let c = cycle(b"ok", b"");
    let body = render_body(&c);
    assert_eq!(body.len(), 4);
    match &body[0] {
        Directive::Print { seg } => {
            assert_eq!(seg.text, "Output:");
            assert!(seg.bold && seg.underlined && !seg.blink && !seg.italic);
        }
        other => panic!("expected the output label, got {:?}", other),
    }
    assert_eq!(body[1], Directive::MoveToNextLine { lines: 1 });
    match &body[2] {
        Directive::Print { seg } => {
            assert_eq!(seg.text, "ok");
            assert!(!seg.bold && !seg.underlined && !seg.blink && !seg.italic);
        }
        other => panic!("expected the output text, got {:?}", other),
    }
    for d in &body {
        if let Directive::Print { seg } = d {
            assert_ne!(seg.text, "StdErr:");
        }
    }
}

#[test]
fn body_shows_empty_output_then_stderr() {
    let c = cycle(b"", b"warn: x");
    let body = render_body(&c);
    assert_eq!(body.len(), 8);
    match (&body[2], &body[4], &body[6]) {
        (
            Directive::Print { seg: out },
            Directive::Print { seg: label },
            Directive::Print { seg: err },
        ) => {
            assert_eq!(out.text, "");
            assert_eq!(label.text, "StdErr:");
            assert!(label.bold && label.underlined);
            assert_eq!(err.text, "warn: x");
            assert!(!err.bold && !err.underlined);
        }
        other => panic!("unexpected body shape: {:?}", other),
    }
}

#[test]
fn stdout_envelope_is_trimmed_in_the_body() {
    let c = cycle(b"\n  hello  \n", b"");
    let body = render_body(&c);
    match &body[2] {
        Directive::Print { seg } => assert_eq!(seg.text, "hello"),
        other => panic!("expected the output text, got {:?}", other),
    }
}

#[test]
fn rendering_is_idempotent() {
    let args = vec!["-l".to_string()];
    let cfg = WatchConfig::new("ls", &args, 5);
    let c = cycle(b"total 0", b"");
    let first = render_frame(&cfg, &c, 80, 24);
    let second = render_frame(&cfg, &c, 80, 24);
    assert_eq!(first, second);
}

#[test]
fn header_layout_on_a_wide_screen() {
    let cfg = config("ls", 5);
    let h = render_header(&cfg, 80);
    assert_eq!(h.len(), 7);
    assert_eq!(h[0], Directive::ClearAll);
    assert_eq!(h[1], Directive::MoveTo { col: 0, row: 0 });
    match &h[2] {
        Directive::Print { seg } => {
            assert_eq!(seg.text, "> ");
            assert!(!seg.blink);
        }
        other => panic!("expected the prompt marker, got {:?}", other),
    }
    match &h[3] {
        Directive::Print { seg } => {
            assert_eq!(seg.text, "ls ");
            assert!(seg.blink);
        }
        other => panic!("expected the command line, got {:?}", other),
    }
    // "Interval: 5s" is 12 characters, right-aligned on 80 columns.
    assert_eq!(h[4], Directive::MoveToColumn { col: 68 });
    match &h[5] {
        Directive::Print { seg } => {
            assert_eq!(seg.text, "Interval: 5s");
            assert!(seg.bold);
        }
        other => panic!("expected the interval message, got {:?}", other),
    }
    assert_eq!(h[6], Directive::MoveToNextLine { lines: 2 });
}

#[test]
fn footer_right_aligns_the_quit_hint() {
    let f = render_footer(80, 24);
    assert_eq!(f.len(), 2);
    // The hint is 29 characters, so it starts at column 51 of row 23.
    assert_eq!(f[0], Directive::MoveTo { col: 51, row: 23 });
    match &f[1] {
        Directive::Print { seg } => {
            assert_eq!(seg.text, "Press 'q' or 'Ctrl+C' to exit");
            assert!(seg.italic);
        }
        other => panic!("expected the quit hint, got {:?}", other),
    }
}

#[test]
fn narrow_screen_aligns_to_column_zero() {
    let f = render_footer(10, 1);
    assert_eq!(f[0], Directive::MoveTo { col: 0, row: 0 });
}

#[test]
fn frame_is_header_body_footer_in_order() {
    let cfg = config("date", 2);
    let c = cycle(b"x", b"");
    let frame = render_frame(&cfg, &c, 80, 24);
    let mut expect = render_header(&cfg, 80);
    expect.extend(render_body(&c));
    expect.extend(render_footer(80, 24));
    assert_eq!(frame, expect);
}

#[test]
fn final_frame_leaves_the_alternate_screen() {
    let cfg = config("date", 2);
    let c = cycle(b"out", b"err");
    let f = render_final_frame(&cfg, &c);
    assert_eq!(f[0], Directive::LeaveAlternateScreen);
    match &f[2] {
        Directive::Print { seg } => {
            assert_eq!(seg.text, "date ");
            assert!(!seg.blink);
        }
        other => panic!("expected the command line, got {:?}", other),
    }
    let mut body_part = vec![f[4].clone(), f[5].clone(), f[6].clone(), f[7].clone()];
    body_part.extend_from_slice(&f[8..]);
    assert_eq!(body_part, render_body(&c));
}
