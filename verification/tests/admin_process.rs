use wnf::admin_process::make_params;

fn wide(s: &str) -> Vec<u16> {
    s.encode_utf16().collect()
}

fn params(args: &[&str]) -> Option<Vec<u16>> {
    let args: Vec<Vec<u16>> = args.iter().map(|arg| wide(arg)).collect();
    make_params(&args)
}

fn units(s: &str) -> Vec<u16> {
    let mut v = wide(s);
    v.push(0);
    v
}

#[test]
fn fail_on_argument_containing_null() {
    assert!(params(&["a\0b"]).is_none());
}

#[test]
fn make_params_empty() {
    assert_eq!(params(&[]), Some(units("")));
}

#[test]
fn make_params_single() {
    assert_eq!(params(&["ab"]), Some(units("\"ab\"")));
}

#[test]
fn make_params_multiple() {
    assert_eq!(params(&["ab", "cd", "ef"]), Some(units("\"ab\" \"cd\" \"ef\"")));
}

#[test]
fn make_params_quote_escaped() {
    assert_eq!(params(&["a\"b"]), Some(units("\"a\\\"b\"")));
}

#[test]
fn make_params_backslash_not_escaped() {
    assert_eq!(params(&["a\\b"]), Some(units("\"a\\b\"")));
}

#[test]
fn make_params_backslash_quote_both_escaped() {
    assert_eq!(params(&["a\\\"b"]), Some(units("\"a\\\\\\\"b\"")));
}

#[test]
fn make_params_two_backslashes_quote_all_escaped() {
    assert_eq!(params(&["a\\\\\"b"]), Some(units("\"a\\\\\\\\\\\"b\"")));
}

#[test]
fn make_params_backslash_at_end_escaped() {
    assert_eq!(params(&["ab\\"]), Some(units("\"ab\\\\\"")));
}

#[test]
fn make_params_null_in_later_argument() {
    assert!(params(&["ok", "x\0"]).is_none());
}

#[test]
fn command_line_has_only_the_terminating_null() {
    let line = params(&["a b", "c\"d\\", ""]).unwrap();
    assert_eq!(line.iter().position(|&unit| unit == 0), Some(line.len() - 1));
    assert_eq!(line, units("\"a b\" \"c\\\"d\\\\\" \"\""));
}
