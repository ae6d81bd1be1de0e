use watch_rs::text::{build_command_line, join_args, trim_envelope, u64_to_dec};

#[test]
fn trims_whitespace_envelope() {
    assert_eq!(trim_envelope("\n  hello  \n"), "hello");
}

#[test]
fn trim_keeps_interior_whitespace() {
    assert_eq!(trim_envelope("  a  b\tc  "), "a  b\tc");
}

#[test]
fn trim_of_all_whitespace_is_empty() {
    assert_eq!(trim_envelope(" \t\r\n"), "");
}

#[test]
fn trim_of_empty_is_empty() {
    assert_eq!(trim_envelope(""), "");
}

#[test]
fn trim_without_envelope_is_identity() {
    assert_eq!(trim_envelope("ok"), "ok");
}

#[test]
fn joins_arguments_with_spaces() {
    let args = vec!["-l".to_string(), "-a".to_string()];
    assert_eq!(join_args(&args), "-l -a");
}

#[test]
fn single_argument_joins_to_itself() {
    let args = vec!["-l".to_string()];
    assert_eq!(join_args(&args), "-l");
}

#[test]
fn empty_argument_list_joins_to_empty() {
    let args: Vec<String> = vec![];
    assert_eq!(join_args(&args), "");
}

#[test]
fn command_line_keeps_trailing_space_without_args() {
    let args: Vec<String> = vec![];
    assert_eq!(build_command_line("ls", &args), "ls ");
}

#[test]
fn command_line_joins_command_and_args() {
    let args = vec!["-l".to_string(), "foo bar".to_string()];
    assert_eq!(build_command_line("ls", &args), "ls -l foo bar");
}

#[test]
fn formats_decimals() {
    assert_eq!(u64_to_dec(0), "0");
    assert_eq!(u64_to_dec(7), "7");
    assert_eq!(u64_to_dec(10), "10");
    assert_eq!(u64_to_dec(12345), "12345");
    assert_eq!(u64_to_dec(u64::MAX), "18446744073709551615");
}
