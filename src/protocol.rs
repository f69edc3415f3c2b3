use vstd::prelude::*;
use vstd::string::StrSliceExecFns;
use crate::text::{chars_of, contains, find, first_occurrence, matches_at, starts_with};

verus! {

/// The verdict on one test kernel.
#[derive(Debug, Clone, Copy, PartialEq, Eq, Structural)]
pub enum TestResult {
    Passed,
    Failed,
    TimedOut,
    Invalid,
}

impl TestResult {
    /// The variant's name, as the test report prints it.
    pub fn name(&self) -> (r: String)
        ensures
            r@ == test_result_name(*self),
    {
        match self {
            TestResult::Passed => String::from_str("Ok"),
            TestResult::Failed => String::from_str("Failed"),
            TestResult::TimedOut => String::from_str("TimedOut"),
            TestResult::Invalid => String::from_str("Invalid"),
        }
    }
}

/// The name under which a verdict is reported.
pub open spec fn test_result_name(r: TestResult) -> Seq<char> {
    match r {
        TestResult::Passed => "Ok"@,
        TestResult::Failed => "Failed"@,
        TestResult::TimedOut => "TimedOut"@,
        TestResult::Invalid => "Invalid"@,
    }
}

/// A verdict together with the text worth showing to a human, if any.
#[derive(Debug)]
pub struct Verdict {
    pub result: TestResult,
    pub diagnostic: Option<String>,
}

/// Exit code of the emulator when the kernel wrote status 0 to the debug-exit
/// port: it then says on its serial line whether it passed.
pub const EXIT_STATUS_REPORTED: i32 = 1;

/// Exit code for status 2: the kernel ran to completion.
pub const EXIT_COMPLETED: i32 = 5;

/// Exit code for status 3: the kernel failed.
pub const EXIT_FAILED: i32 = 7;

/// The line a test kernel writes when it passed.
pub open spec fn ok_marker() -> Seq<char> {
    seq!['o', 'k', '\n']
}

/// The line a test kernel writes before its failure message.
pub open spec fn failed_marker() -> Seq<char> {
    seq!['f', 'a', 'i', 'l', 'e', 'd', '\n']
}

/// The diagnostic text of an optional diagnostic.
pub open spec fn diagnostic_view(d: Option<String>) -> Option<Seq<char>> {
    match d {
        Some(s) => Some(s@),
        None => None,
    }
}

/// The verdict for an emulator exit code (none when the process was killed by
/// a signal) and the kernel's serial output.
pub open spec fn decoded_result(code: Option<i32>, output: Seq<char>) -> TestResult {
    match code {
        None => TestResult::Invalid,
        Some(c) => if c == EXIT_STATUS_REPORTED {
            if starts_with(output, ok_marker()) {
                TestResult::Passed
            } else if starts_with(output, failed_marker()) {
                TestResult::Failed
            } else {
                TestResult::Invalid
            }
        } else if c == EXIT_COMPLETED {
            TestResult::Passed
        } else if c == EXIT_FAILED {
            TestResult::Failed
        } else {
            TestResult::Invalid
        },
    }
}

/// The diagnostic that goes with `decoded_result`: the text after the failure
/// marker when there is one, the target's name when a failing kernel left no
/// marker, the whole output when the outcome cannot be decoded, and nothing
/// for a pass.
pub open spec fn decoded_diagnostic(
    code: Option<i32>,
    output: Seq<char>,
    target_name: Seq<char>,
) -> Option<Seq<char>> {
    match code {
        None => Some(output),
        Some(c) => if c == EXIT_STATUS_REPORTED {
            if starts_with(output, ok_marker()) {
                None
            } else if starts_with(output, failed_marker()) {
                Some(output.subrange(failed_marker().len() as int, output.len() as int))
            } else {
                Some(output)
            }
        } else if c == EXIT_COMPLETED {
            None
        } else if c == EXIT_FAILED {
            if contains(output, failed_marker()) {
                Some(
                    output.subrange(
                        first_occurrence(output, failed_marker()) + failed_marker().len(),
                        output.len() as int,
                    ),
                )
            } else {
                Some(target_name)
            }
        } else {
            Some(output)
        },
    }
}

fn ok_marker_chars() -> (r: Vec<char>)
    ensures
        r@ == ok_marker(),
{
    let r = vec!['o', 'k', '\n'];
    assert(r@ =~= ok_marker());
    r
}

fn failed_marker_chars() -> (r: Vec<char>)
    ensures
        r@ == failed_marker(),
{
    let r = vec!['f', 'a', 'i', 'l', 'e', 'd', '\n'];
    assert(r@ =~= failed_marker());
    r
}

/// The text of `s` from character `from` to its end.
fn tail_from(s: &str, from: usize) -> (r: String)
    requires
        from <= s@.len(),
    ensures
        r@ == s@.subrange(from as int, s@.len() as int),
{
    let len = s.unicode_len();
    String::from_str(s.substring_char(from, len))
}

/// Classifies the outcome of one test run from the emulator's exit code
/// (`None` when the process ended without one) and the kernel's serial output.
/// Exit code 1 defers to the first line of the output (`ok` or `failed`),
/// 5 is a pass, 7 a failure, and anything else cannot be decoded.
pub fn decode_exit_status(code: Option<i32>, output: &str, target_name: &str) -> (r: Verdict)
    ensures
        r.result == decoded_result(code, output@),
        diagnostic_view(r.diagnostic) == decoded_diagnostic(code, output@, target_name@),
{
    let text = chars_of(output);
    let ok = ok_marker_chars();
    let failed = failed_marker_chars();
    match code {
        None => Verdict { result: TestResult::Invalid, diagnostic: Some(String::from_str(output)) },
        Some(c) => {
            if c == EXIT_STATUS_REPORTED {
                if matches_at(&text, &ok, 0) {
                    Verdict { result: TestResult::Passed, diagnostic: None }
                } else if matches_at(&text, &failed, 0) {
                    Verdict {
                        result: TestResult::Failed,
                        diagnostic: Some(tail_from(output, failed.len())),
                    }
                } else {
                    Verdict {
                        result: TestResult::Invalid,
                        diagnostic: Some(String::from_str(output)),
                    }
                }
            } else if c == EXIT_COMPLETED {
                Verdict { result: TestResult::Passed, diagnostic: None }
            } else if c == EXIT_FAILED {
                match find(&text, &failed) {
                    Some(i) => {
                        assert(crate::text::occurs_at(text@, failed@, i as int));
                        assert(i + failed.len() <= text.len());
                        Verdict {
                            result: TestResult::Failed,
                            diagnostic: Some(tail_from(output, i + failed.len())),
                        }
                    },
                    None => Verdict {
                        result: TestResult::Failed,
                        diagnostic: Some(String::from_str(target_name)),
                    },
                }
            } else {
                Verdict { result: TestResult::Invalid, diagnostic: Some(String::from_str(output)) }
            }
        },
    }
}

/// Exit code 5 is a pass and a process without an exit code is undecodable,
/// whatever the output; so is any code other than 1, 5 and 7.
pub proof fn lemma_exit_code_decides(code: i32, output: Seq<char>, target_name: Seq<char>)
    ensures
        decoded_result(Some(EXIT_COMPLETED), output) == TestResult::Passed,
        decoded_result(None, output) == TestResult::Invalid,
        decoded_diagnostic(None, output, target_name) == Some(output),
        decoded_diagnostic(Some(EXIT_COMPLETED), output, target_name) is None,
        code != EXIT_STATUS_REPORTED && code != EXIT_COMPLETED && code != EXIT_FAILED
            ==> decoded_result(Some(code), output) == TestResult::Invalid,
        decoded_result(Some(EXIT_FAILED), output) == TestResult::Failed,
{
}

} // verus!
