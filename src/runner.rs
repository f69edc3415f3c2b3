use vstd::prelude::*;
use crate::protocol::{
    TestResult,
    Verdict,
    decode_exit_status,
    decoded_diagnostic,
    decoded_result,
    diagnostic_view,
};
use crate::text::{chars_of, matches_at, starts_with};

verus! {

/// How long a test kernel may run before it is killed, in seconds.
pub const TEST_TIMEOUT_SECS: u64 = 60;

/// What happened to one emulator process.
#[derive(Debug)]
pub enum RunOutcome {
    /// The process outlived the timeout and was killed.
    TimedOut,
    /// The process ended by itself, with an exit code unless a signal ended it,
    /// leaving this serial output behind.
    Exited { code: Option<i32>, output: String },
}

/// The verdict on a run.
pub open spec fn run_result(outcome: RunOutcome) -> TestResult {
    match outcome {
        RunOutcome::TimedOut => TestResult::TimedOut,
        RunOutcome::Exited { code, output } => decoded_result(code, output@),
    }
}

/// The diagnostic that goes with `run_result`.
pub open spec fn run_diagnostic(outcome: RunOutcome, target_name: Seq<char>) -> Option<Seq<char>> {
    match outcome {
        RunOutcome::TimedOut => None,
        RunOutcome::Exited { code, output } => decoded_diagnostic(code, output@, target_name),
    }
}

/// Judges one run: a run that timed out is `TimedOut`; otherwise the exit code
/// and the serial output decide.
pub fn verdict_of_run(outcome: &RunOutcome, target_name: &str) -> (r: Verdict)
    ensures
        r.result == run_result(*outcome),
        diagnostic_view(r.diagnostic) == run_diagnostic(*outcome, target_name@),
{
    match outcome {
        RunOutcome::TimedOut => Verdict { result: TestResult::TimedOut, diagnostic: None },
        RunOutcome::Exited { code, output } => decode_exit_status(*code, output.as_str(), target_name),
    }
}

/// The prefix that marks a binary target as a test kernel.
pub open spec fn test_prefix() -> Seq<char> {
    seq!['t', 'e', 's', 't', '-']
}

/// Whether a target is a test kernel: a binary, and nothing else, whose name
/// starts with `test-`.
pub open spec fn is_test_target_spec(kinds: Seq<Seq<char>>, name: Seq<char>) -> bool {
    kinds == seq!["bin"@] && starts_with(name, test_prefix())
}

/// Whether the build target with these kinds and this name is a test kernel.
pub fn is_test_target(kinds: &Vec<String>, name: &str) -> (r: bool)
    ensures
        r == is_test_target_spec(kinds@.map_values(|k: String| k@), name@),
{
    let ghost kv = kinds@.map_values(|k: String| k@);
    let is_bin = kinds.len() == 1 && kinds[0] == String::from_str("bin");
    assert(is_bin == (kv == seq!["bin"@])) by {
        if kinds.len() == 1 {
            assert(kv.len() == 1);
            if kv[0] == "bin"@ {
                assert(kv =~= seq!["bin"@]);
            }
        } else {
            assert(kv.len() != 1);
        }
    }
    if !is_bin {
        return false;
    }
    let prefix = vec!['t', 'e', 's', 't', '-'];
    assert(prefix@ =~= test_prefix());
    matches_at(&chars_of(name), &prefix, 0)
}

/// The file that receives the serial output of a test image.
pub fn output_file_name(image_path: &str) -> (r: String)
    ensures
        r@ == image_path@ + "-output.txt"@,
{
    let mut name = String::from_str(image_path);
    name.append("-output.txt");
    name
}

/// The emulator's arguments for booting a test image: the image as a raw
/// drive, the debug-exit device, no display, and the serial line sent to a
/// file.
pub open spec fn emulator_args_spec(image_path: Seq<char>, output_file: Seq<char>) -> Seq<
    Seq<char>,
> {
    seq![
        "-drive"@,
        "format=raw,file="@ + image_path,
        "-device"@,
        "isa-debug-exit,iobase=0xf4,iosize=0x04"@,
        "-display"@,
        "none"@,
        "-serial"@,
        "file:"@ + output_file,
    ]
}

/// The arguments of the emulator process that runs one test image.
pub fn emulator_args(image_path: &str, output_file: &str) -> (r: Vec<String>)
    ensures
        r@.map_values(|a: String| a@) == emulator_args_spec(image_path@, output_file@),
{
    let mut drive = String::from_str("format=raw,file=");
    drive.append(image_path);
    let mut serial = String::from_str("file:");
    serial.append(output_file);
    let r = vec![
        String::from_str("-drive"),
        drive,
        String::from_str("-device"),
        String::from_str("isa-debug-exit,iobase=0xf4,iosize=0x04"),
        String::from_str("-display"),
        String::from_str("none"),
        String::from_str("-serial"),
        serial,
    ];
    assert(r@.map_values(|a: String| a@) =~= emulator_args_spec(image_path@, output_file@));
    r
}

/// How many of `results` equal `r`.
pub open spec fn count_of(results: Seq<TestResult>, r: TestResult) -> nat
    decreases results.len(),
{
    if results.len() == 0 {
        0
    } else {
        count_of(results.drop_last(), r) + if results.last() == r {
            1nat
        } else {
            0nat
        }
    }
}

/// Whether every test passed.
pub open spec fn all_passed(results: Seq<TestResult>) -> bool {
    forall|i: int| 0 <= i < results.len() ==> results[i] == TestResult::Passed
}

/// The tally of a test run.
#[derive(Debug, Clone, Copy, PartialEq, Eq, Structural)]
pub struct Summary {
    pub passed: usize,
    pub failed: usize,
    pub timed_out: usize,
    pub invalid: usize,
}

/// Counts the verdicts of each kind.
pub fn summarize(results: &Vec<TestResult>) -> (s: Summary)
    ensures
        s.passed == count_of(results@, TestResult::Passed),
        s.failed == count_of(results@, TestResult::Failed),
        s.timed_out == count_of(results@, TestResult::TimedOut),
        s.invalid == count_of(results@, TestResult::Invalid),
{
    let mut s = Summary { passed: 0, failed: 0, timed_out: 0, invalid: 0 };
    let mut i: usize = 0;
    while i < results.len()
        invariant
            i <= results@.len(),
            s.passed + s.failed + s.timed_out + s.invalid == i,
            s.passed == count_of(results@.subrange(0, i as int), TestResult::Passed),
            s.failed == count_of(results@.subrange(0, i as int), TestResult::Failed),
            s.timed_out == count_of(results@.subrange(0, i as int), TestResult::TimedOut),
            s.invalid == count_of(results@.subrange(0, i as int), TestResult::Invalid),
        decreases results@.len() - i,
    {
        assert(results@.subrange(0, i + 1).drop_last() =~= results@.subrange(0, i as int));
        match results[i] {
            TestResult::Passed => s.passed = s.passed + 1,
            TestResult::Failed => s.failed = s.failed + 1,
            TestResult::TimedOut => s.timed_out = s.timed_out + 1,
            TestResult::Invalid => s.invalid = s.invalid + 1,
        }
        i = i + 1;
    }
    assert(results@.subrange(0, i as int) =~= results@);
    s
}

/// Whether every test passed, which alone makes the whole run succeed.
pub fn all_tests_passed(results: &Vec<TestResult>) -> (r: bool)
    ensures
        r == all_passed(results@),
{
    let mut i: usize = 0;
    while i < results.len()
        invariant
            i <= results@.len(),
            forall|j: int| 0 <= j < i ==> results@[j] == TestResult::Passed,
        decreases results@.len() - i,
    {
        if results[i] != TestResult::Passed {
            return false;
        }
        i = i + 1;
    }
    true
}

/// The positions of the tests that did not pass, in order; one line of the
/// report is written for each.
pub fn failing_tests(results: &Vec<TestResult>) -> (r: Vec<usize>)
    ensures
        forall|k: int| 0 <= k < r@.len() ==> r@[k] < results@.len() && results@[r@[k] as int] != TestResult::Passed,
        forall|k: int, l: int| 0 <= k < l < r@.len() ==> r@[k] < r@[l],
        forall|j: int|
            0 <= j < results@.len() && results@[j] != TestResult::Passed ==> r@.contains(
                j as usize,
            ),
{
    let mut r: Vec<usize> = Vec::new();
    let mut i: usize = 0;
    while i < results.len()
        invariant
            i <= results@.len(),
            forall|k: int| 0 <= k < r@.len() ==> r@[k] < i && results@[r@[k] as int] != TestResult::Passed,
            forall|k: int, l: int| 0 <= k < l < r@.len() ==> r@[k] < r@[l],
            forall|j: int|
                0 <= j < i && results@[j] != TestResult::Passed ==> r@.contains(j as usize),
        decreases results@.len() - i,
    {
        let ghost prev = r@;
        if results[i] != TestResult::Passed {
            r.push(i);
        }
        assert forall|j: int|
            0 <= j < i + 1 && results@[j] != TestResult::Passed implies r@.contains(j as usize) by {
            if j < i {
                let idx = choose|idx: int| 0 <= idx < prev.len() && prev[idx] == j as usize;
                assert(r@[idx] == j as usize);
            } else {
                assert(r@[r@.len() - 1] == i);
            }
        }
        i = i + 1;
    }
    r
}

/// The exit code of the test command: 0 when every test passed, 1 otherwise.
pub fn test_exit_code(results: &Vec<TestResult>) -> (r: i32)
    ensures
        r == 0 <==> all_passed(results@),
        r == 0 || r == 1,
{
    if all_tests_passed(results) {
        0
    } else {
        1
    }
}

proof fn lemma_count_one_exception(
    results: Seq<TestResult>,
    k: int,
    other: TestResult,
    main: TestResult,
    n: int,
)
    requires
        0 <= k < results.len(),
        0 <= n <= results.len(),
        results[k] == other,
        other != main,
        forall|i: int| 0 <= i < results.len() && i != k ==> results[i] == main,
    ensures
        count_of(results.subrange(0, n), other) == if k < n {
            1int
        } else {
            0int
        },
        count_of(results.subrange(0, n), main) == if k < n {
            n - 1
        } else {
            n
        },
    decreases n,
{
    if n > 0 {
        lemma_count_one_exception(results, k, other, main, n - 1);
        assert(results.subrange(0, n).drop_last() =~= results.subrange(0, n - 1));
    }
}

/// When every test but one passes and that one times out, the run reports
/// exactly one timeout and all others as passed, and it fails as a whole.
pub proof fn lemma_single_timeout_fails_run(outcomes: Seq<RunOutcome>, k: int)
    requires
        0 <= k < outcomes.len(),
        outcomes[k] is TimedOut,
        forall|i: int|
            0 <= i < outcomes.len() && i != k ==> run_result(#[trigger] outcomes[i])
                == TestResult::Passed,
    ensures
        ({
            let results = outcomes.map_values(|o: RunOutcome| run_result(o));
            &&& count_of(results, TestResult::TimedOut) == 1
            &&& count_of(results, TestResult::Passed) == outcomes.len() - 1
            &&& !all_passed(results)
        }),
{
    let results = outcomes.map_values(|o: RunOutcome| run_result(o));
    assert(results[k] == TestResult::TimedOut);
    assert forall|i: int| 0 <= i < results.len() && i != k implies results[i]
        == TestResult::Passed by {
        assert(run_result(outcomes[i]) == TestResult::Passed);
    }
    lemma_count_one_exception(
        results,
        k,
        TestResult::TimedOut,
        TestResult::Passed,
        results.len() as int,
    );
    assert(results.subrange(0, results.len() as int) =~= results);
}

} // verus!
