use dynparse::executor::{classify_output, output_is_blank, render_exec_error, ExecError};

#[test]
fn blank_detection() {
    assert!(output_is_blank(""));
    assert!(output_is_blank("   \n\t \r\n"));
    assert!(!output_is_blank("  x "));
    assert!(!output_is_blank("{}"));
}

#[test]
fn clean_exit_with_valid_json_succeeds() {
    let out = String::from("{\"name\": \"Super Toaster 5000\", \"price\": 49.99}");
    let r = classify_output(Some(0), out.clone(), String::new());
    match r {
        Ok(json) => assert_eq!(json, out),
        Err(_) => panic!("valid JSON output must be accepted"),
    }
}

#[test]
fn whitespace_only_output_is_empty_output() {
    let r = classify_output(Some(0), String::from("   \n\t  "), String::new());
    match r {
        Err(ExecError::EmptyOutput) => {}
        _ => panic!("a clean exit that prints only whitespace must report EmptyOutput"),
    }
}

#[test]
fn invalid_json_is_rejected_with_diagnostic() {
    let r = classify_output(Some(0), String::from("{not valid json"), String::new());
    match r {
        Err(ExecError::InvalidOutput {
            parse_error,
            output,
        }) => {
            assert!(!parse_error.is_empty());
            assert_eq!(output, "{not valid json");
        }
        _ => panic!("unparsable output must report InvalidOutput, never success"),
    }
}

#[test]
fn nonzero_exit_is_execution_failed() {
    let r = classify_output(
        Some(2),
        String::from("{\"would\": \"be fine\"}"),
        String::from("Traceback: boom"),
    );
    match r {
        Err(ExecError::ExecutionFailed { exit_code, stderr }) => {
            assert_eq!(exit_code, Some(2));
            assert_eq!(stderr, "Traceback: boom");
        }
        _ => panic!("a non-zero exit must fail regardless of stdout content"),
    }
}

#[test]
fn signal_death_is_execution_failed() {
    let r = classify_output(None, String::from("{}"), String::new());
    assert!(matches!(r, Err(ExecError::ExecutionFailed { exit_code: None, .. })));
}

#[test]
fn render_execution_failed_message() {
    let e = ExecError::ExecutionFailed {
        exit_code: Some(2),
        stderr: String::from("SyntaxError"),
    };
    let msg = render_exec_error(&e, "print(");
    assert_eq!(
        msg,
        "Python script execution failed with exit code: 2\nSTDERR: SyntaxError\nSCRIPT:\nprint("
    );
}

#[test]
fn render_signal_death_reports_minus_one() {
    let e = ExecError::ExecutionFailed {
        exit_code: None,
        stderr: String::from("killed"),
    };
    let msg = render_exec_error(&e, "s");
    assert_eq!(
        msg,
        "Python script execution failed with exit code: -1\nSTDERR: killed\nSCRIPT:\ns"
    );
}

#[test]
fn render_empty_and_invalid_messages() {
    let empty = render_exec_error(&ExecError::EmptyOutput, "s");
    assert_eq!(empty, "Script executed successfully but produced no output");
    let invalid = render_exec_error(
        &ExecError::InvalidOutput {
            parse_error: String::from("expected value at line 1"),
            output: String::from("{not valid json"),
        },
        "s",
    );
    assert_eq!(
        invalid,
        "Script output is not valid JSON: expected value at line 1\nOutput was: {not valid json"
    );
}
