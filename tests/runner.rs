use bootimage::protocol::TestResult;
use bootimage::runner::{
    emulator_args, failing_tests, is_test_target, output_file_name, summarize, test_exit_code,
    verdict_of_run, RunOutcome, Summary, TEST_TIMEOUT_SECS,
};

fn kinds(k: &[&str]) -> Vec<String> {
    k.iter().map(|s| s.to_string()).collect()
}

#[test]
fn one_timeout_among_passes_fails_the_run() {
    let n = 5;
    let outcomes: Vec<RunOutcome> = (0..n)
        .map(|i| {
            if i == 2 {
                RunOutcome::TimedOut
            } else {
                RunOutcome::Exited { code: Some(5), output: String::new() }
            }
        })
        .collect();
    let results: Vec<TestResult> = outcomes
        .iter()
        .map(|o| verdict_of_run(o, "test-x").result)
        .collect();
    let s = summarize(&results);
    assert_eq!(s, Summary { passed: n - 1, failed: 0, timed_out: 1, invalid: 0 });
    assert_eq!(test_exit_code(&results), 1);
    assert_eq!(failing_tests(&results), vec![2]);
}

#[test]
fn all_passing_run_succeeds() {
    let results = vec![TestResult::Passed; 3];
    assert_eq!(test_exit_code(&results), 0);
    assert!(failing_tests(&results).is_empty());
    assert_eq!(test_exit_code(&Vec::new()), 0);
}

#[test]
fn summary_counts_each_kind() {
    let results = vec![
        TestResult::Invalid,
        TestResult::Passed,
        TestResult::Failed,
        TestResult::Failed,
        TestResult::TimedOut,
    ];
    let s = summarize(&results);
    assert_eq!(s, Summary { passed: 1, failed: 2, timed_out: 1, invalid: 1 });
    assert_eq!(failing_tests(&results), vec![0, 2, 3, 4]);
}

#[test]
fn timed_out_run_has_no_diagnostic() {
    let v = verdict_of_run(&RunOutcome::TimedOut, "test-x");
    assert_eq!(v.result, TestResult::TimedOut);
    assert_eq!(v.diagnostic, None);
    let v = verdict_of_run(
        &RunOutcome::Exited { code: Some(1), output: "failed\nboom\n".to_string() },
        "test-x",
    );
    assert_eq!(v.result, TestResult::Failed);
    assert_eq!(v.diagnostic.as_deref(), Some("boom\n"));
    assert_eq!(TEST_TIMEOUT_SECS, 60);
}

#[test]
fn test_targets_are_binaries_named_test() {
    assert!(is_test_target(&kinds(&["bin"]), "test-basic-boot"));
    assert!(is_test_target(&kinds(&["bin"]), "test-"));
    assert!(!is_test_target(&kinds(&["bin"]), "kernel"));
    assert!(!is_test_target(&kinds(&["bin"]), "tes"));
    assert!(!is_test_target(&kinds(&["lib"]), "test-lib"));
    assert!(!is_test_target(&kinds(&["bin", "lib"]), "test-both"));
    assert!(!is_test_target(&kinds(&[]), "test-none"));
}

#[test]
fn serial_output_file_sits_beside_the_image() {
    assert_eq!(output_file_name("/t/bootimage-test-a.bin"), "/t/bootimage-test-a.bin-output.txt");
}

#[test]
fn emulator_arguments_boot_the_image() {
    let args = emulator_args("img.bin", "img.bin-output.txt");
    assert_eq!(
        args,
        vec![
            "-drive",
            "format=raw,file=img.bin",
            "-device",
            "isa-debug-exit,iobase=0xf4,iosize=0x04",
            "-display",
            "none",
            "-serial",
            "file:img.bin-output.txt",
        ]
    );
}
