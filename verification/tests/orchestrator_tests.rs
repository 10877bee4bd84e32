use dynparse::orchestrator::{Phase, RetryOrchestrator, Step, DEFAULT_MAX_ATTEMPTS};

fn fresh(max: usize) -> RetryOrchestrator {
    RetryOrchestrator::new(
        String::from("<div class=\"product\"><h1>Super Toaster 5000</h1><p>Price: $49.99</p></div>"),
        String::from("Extract the product name and its price as a float."),
        max,
    )
}

#[test]
fn successful_first_attempt_returns_the_json() {
    let mut o = fresh(DEFAULT_MAX_ATTEMPTS);
    assert_eq!(o.current_attempt(), 1);
    let json = String::from("{\"name\": \"Super Toaster 5000\", \"price\": 49.99}");
    let step = o.record_execution_report(
        String::from("import sys, json, re\nprint(json.dumps({}))"),
        Some(0),
        json.clone(),
        String::new(),
    );
    match step {
        Step::Succeeded { json: returned } => assert_eq!(returned, json),
        _ => panic!("a clean run with valid JSON must succeed"),
    }
    assert!(matches!(o.phase, Phase::Succeeded));
    let log = o.attempt_log();
    assert_eq!(log.len(), 1);
    assert_eq!(log[0].attempt_number, 1);
    assert!(log[0].success);
    assert!(log[0].error.is_none());
}

#[test]
fn three_generation_failures_exhaust_the_budget() {
    let mut o = fresh(3);
    let s1 = o.record_generation_failure(String::from("backend down"));
    assert!(matches!(s1, Step::Retry));
    let s2 = o.record_generation_failure(String::from("backend down"));
    assert!(matches!(s2, Step::Retry));
    let s3 = o.record_generation_failure(String::from("backend still down"));
    assert!(matches!(s3, Step::Exhausted));
    assert!(matches!(o.phase, Phase::Exhausted));

    let log = o.attempt_log();
    assert_eq!(log.len(), 3);
    for (i, rec) in log.iter().enumerate() {
        assert_eq!(rec.attempt_number, i + 1);
        assert!(!rec.success);
        assert!(rec.script.is_empty());
        assert!(rec.error.is_some());
    }
    assert_eq!(
        o.final_error(),
        "Failed to generate script after 3 attempts. Last error: \
         Failed to generate script: backend still down"
    );
}

#[test]
fn attempt_numbers_stay_contiguous_across_mixed_failures() {
    let mut o = fresh(3);
    o.record_generation_failure(String::from("no reply"));
    o.record_execution_report(String::from("bad()"), Some(1), String::new(), String::from("err"));
    let json = String::from("{\"ok\": true}");
    let step = o.record_execution_report(String::from("good()"), Some(0), json, String::new());
    assert!(matches!(step, Step::Succeeded { .. }));

    let log = o.attempt_log();
    assert_eq!(log.len(), 3);
    assert_eq!(log[0].attempt_number, 1);
    assert_eq!(log[1].attempt_number, 2);
    assert_eq!(log[2].attempt_number, 3);
    let successes = log.iter().filter(|r| r.success).count();
    assert_eq!(successes, 1);
    assert!(log[2].success, "the one success is the last record");
}

#[test]
fn nonzero_exit_diagnostic_names_code_and_stderr() {
    let mut o = fresh(3);
    let step = o.record_execution_report(
        String::from("print(1/0)"),
        Some(1),
        String::new(),
        String::from("ZeroDivisionError: division by zero"),
    );
    assert!(matches!(step, Step::Retry));
    let log = o.attempt_log();
    let err = log[0].error.as_ref().expect("a failed attempt records an error");
    assert!(err.contains("exit code: 1"));
    assert!(err.contains("ZeroDivisionError: division by zero"));
    assert!(err.contains("print(1/0)"));
    assert_eq!(
        err,
        "Script execution failed: Python script execution failed with exit code: 1\n\
         STDERR: ZeroDivisionError: division by zero\nSCRIPT:\nprint(1/0)"
    );
}

#[test]
fn retry_prompt_includes_prior_script_and_error() {
    let mut o = fresh(3);
    let script = String::from("import json\nprint('not json')");
    o.record_execution_report(script.clone(), Some(0), String::from("not json"), String::new());
    assert_eq!(o.current_attempt(), 2);
    let prompt = o.compose_prompt();
    assert!(prompt.contains(&script));
    assert!(prompt.contains("Script output is not valid JSON: "));
    assert!(prompt.contains("Previous Attempts and Errors"));
}

#[test]
fn empty_output_failure_is_recorded_with_its_message() {
    let mut o = fresh(2);
    let step = o.record_execution_report(
        String::from("pass"),
        Some(0),
        String::from(" \n\t"),
        String::new(),
    );
    assert!(matches!(step, Step::Retry));
    let log = o.attempt_log();
    assert_eq!(
        log[0].error.as_deref(),
        Some("Script execution failed: Script executed successfully but produced no output")
    );
}

#[test]
fn execution_exhaustion_reports_the_full_transcript() {
    let mut o = fresh(1);
    let step = o.record_execution_report(
        String::from("boom()"),
        Some(2),
        String::new(),
        String::from("NameError"),
    );
    assert!(matches!(step, Step::Exhausted));
    let report = o.final_error();
    assert!(report.starts_with("All 1 parsing attempts failed. Final error: "));
    assert!(report.contains("\n\nAll attempts:\n"));
    assert!(report.contains("--- Attempt 1 ---\nStatus: FAILED\n"));
    assert!(report.contains("exit code: 2"));
    assert!(report.contains("NameError"));
    assert!(report.contains("Script:\nboom()\n\n"));
}

#[test]
fn single_attempt_budget_exhausts_on_first_failure() {
    let mut o = fresh(1);
    let step = o.record_generation_failure(String::from("x"));
    assert!(matches!(step, Step::Exhausted));
    assert!(matches!(o.phase, Phase::Exhausted));
    assert_eq!(o.attempt_log().len(), 1);
}

#[test]
fn success_never_comes_from_invalid_output_even_with_clean_exit() {
    let mut o = fresh(3);
    let step = o.record_execution_report(
        String::from("print('{not valid json')"),
        Some(0),
        String::from("{not valid json"),
        String::new(),
    );
    assert!(matches!(step, Step::Retry));
    assert!(!o.attempt_log()[0].success);
}
