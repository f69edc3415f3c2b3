use bootimage::protocol::{decode_exit_status, TestResult};

#[test]
fn code_one_with_ok_line_passes() {
    let v = decode_exit_status(Some(1), "ok\n", "test-a");
    assert_eq!(v.result, TestResult::Passed);
    assert_eq!(v.diagnostic, None);
}

#[test]
fn code_one_with_failed_line_fails_with_the_rest() {
    let v = decode_exit_status(Some(1), "failed\nreason here\n", "test-a");
    assert_eq!(v.result, TestResult::Failed);
    assert_eq!(v.diagnostic.as_deref(), Some("reason here\n"));
}

#[test]
fn code_one_with_other_text_is_invalid() {
    let v = decode_exit_status(Some(1), "garbage\n", "test-a");
    assert_eq!(v.result, TestResult::Invalid);
    assert_eq!(v.diagnostic.as_deref(), Some("garbage\n"));
    let v = decode_exit_status(Some(1), "ok", "test-a");
    assert_eq!(v.result, TestResult::Invalid);
    let v = decode_exit_status(Some(1), "", "test-a");
    assert_eq!(v.result, TestResult::Invalid);
    let v = decode_exit_status(Some(1), "boot\nok\n", "test-a");
    assert_eq!(v.result, TestResult::Invalid);
}

#[test]
fn code_five_passes_whatever_the_text() {
    for text in ["", "anything", "failed\nno\n", "ünïcödé\n"] {
        let v = decode_exit_status(Some(5), text, "test-a");
        assert_eq!(v.result, TestResult::Passed);
        assert_eq!(v.diagnostic, None);
    }
}

#[test]
fn code_seven_fails_with_text_after_the_marker() {
    let v = decode_exit_status(Some(7), "booting\n...failed\nX\n", "test-a");
    assert_eq!(v.result, TestResult::Failed);
    assert_eq!(v.diagnostic.as_deref(), Some("X\n"));
    let v = decode_exit_status(Some(7), "é failed\nfirst\nfailed\nsecond\n", "test-a");
    assert_eq!(v.diagnostic.as_deref(), Some("first\nfailed\nsecond\n"));
}

#[test]
fn code_seven_without_marker_names_the_target() {
    let v = decode_exit_status(Some(7), "panicked somewhere\n", "test-b");
    assert_eq!(v.result, TestResult::Failed);
    assert_eq!(v.diagnostic.as_deref(), Some("test-b"));
}

#[test]
fn unknown_codes_are_invalid() {
    for code in [0, 3, 9, 42, -1] {
        let v = decode_exit_status(Some(code), "ok\n", "test-a");
        assert_eq!(v.result, TestResult::Invalid);
        assert_eq!(v.diagnostic.as_deref(), Some("ok\n"));
    }
}

#[test]
fn missing_exit_code_is_invalid() {
    let v = decode_exit_status(None, "ok\n", "test-a");
    assert_eq!(v.result, TestResult::Invalid);
    assert_eq!(v.diagnostic.as_deref(), Some("ok\n"));
}

#[test]
fn result_names_match_the_report() {
    assert_eq!(TestResult::Passed.name(), "Ok");
    assert_eq!(TestResult::Failed.name(), "Failed");
    assert_eq!(TestResult::TimedOut.name(), "TimedOut");
    assert_eq!(TestResult::Invalid.name(), "Invalid");
}
