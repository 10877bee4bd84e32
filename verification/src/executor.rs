use vstd::prelude::*;
use vstd::string::{StrSliceExecFns, StringExecFns};

use crate::numfmt::{int_str, push_int_i32};
use crate::strutil::{contains_seq, lemma_concat_contains};

verus! {

/// Whether a text parses as a single well-formed JSON value.  The stand-in
/// for what `serde_json`'s parser accepts; said to hold exactly when the
/// trusted check below returns Ok.
pub uninterp spec fn is_valid_json(s: Seq<char>) -> bool;

/// Whether a character has the Unicode white-space property, as
/// `char::is_whitespace` decides it.
pub uninterp spec fn char_is_whitespace(c: char) -> bool;

/// Relies on serde_json::from_str::<serde_json::Value>: whether a text
/// parses as a single well-formed JSON value is a function of the text
/// alone, and the call returns Ok exactly on such texts.  The Err value is
/// the parser's diagnostic, rendered as text.
#[verifier::external_body]
fn check_json(s: &str) -> (r: Result<(), String>)
    ensures
        r is Ok <==> is_valid_json(s@),
{
    match serde_json::from_str::<serde_json::Value>(s) {
        Ok(_) => Ok(()),
        Err(e) => Err(e.to_string()),
    }
}

/// Relies on char::is_whitespace: the Unicode white-space property of a
/// character is a function of the character alone.
#[verifier::external_body]
fn whitespace_char(c: char) -> (r: bool)
    ensures
        r == char_is_whitespace(c),
{
    c.is_whitespace()
}

/// A text is blank when every character is whitespace; trimming such a
/// text leaves nothing.
pub open spec fn is_blank(s: Seq<char>) -> bool {
    forall|i: int| 0 <= i < s.len() ==> char_is_whitespace(#[trigger] s[i])
}

/// True exactly when `s` holds no character beyond whitespace.
pub fn output_is_blank(s: &str) -> (r: bool)
    ensures
        r == is_blank(s@),
{
    let n = s.unicode_len();
    let mut i: usize = 0;
    while i < n
        invariant
            n == s@.len(),
            i <= n,
            forall|j: int| 0 <= j < i ==> char_is_whitespace(#[trigger] s@[j]),
        decreases n - i,
    {
        let c = s.get_char(i);
        if !whitespace_char(c) {
            return false;
        }
        i = i + 1;
    }
    true
}

/// A classified failure of one script run.  `ExecutionFailed` carries the
/// process's exit code (absent when it was killed by a signal) and its
/// captured standard-error text; `EmptyOutput` marks a clean exit whose
/// standard output trims to nothing; `InvalidOutput` carries the JSON
/// parser's diagnostic and the raw output it rejected.
#[derive(Debug)]
pub enum ExecError {
    /// The process exited abnormally or with a non-zero code.
    ExecutionFailed { exit_code: Option<i32>, stderr: String },
    /// The process exited cleanly but printed only whitespace.
    EmptyOutput,
    /// The process exited cleanly but its output is not well-formed JSON.
    InvalidOutput { parse_error: String, output: String },
}

/// The exit code a diagnostic reports: the process's own code, or -1 when
/// the process returned none.
pub open spec fn exit_code_value(exit_code: Option<i32>) -> int {
    match exit_code {
        Some(c) => c as int,
        None => -1,
    }
}

/// The diagnostic text for a non-zero or abnormal exit: the exit code, the
/// captured standard-error text, and the script that ran.
pub open spec fn spec_exec_failed_msg(
    exit_code: Option<i32>,
    stderr: Seq<char>,
    script: Seq<char>,
) -> Seq<char> {
    "Python script execution failed with exit code: "@ + int_str(exit_code_value(exit_code))
        + "\nSTDERR: "@ + stderr + "\nSCRIPT:\n"@ + script
}

/// The diagnostic text of a classified failure, as the attempt log and the
/// retry prompts carry it.
pub open spec fn spec_exec_error_msg(e: ExecError, script: Seq<char>) -> Seq<char> {
    match e {
        ExecError::ExecutionFailed { exit_code, stderr } => spec_exec_failed_msg(
            exit_code,
            stderr@,
            script,
        ),
        ExecError::EmptyOutput => "Script executed successfully but produced no output"@,
        ExecError::InvalidOutput { parse_error, output } => "Script output is not valid JSON: "@
            + parse_error@ + "\nOutput was: "@ + output@,
    }
}

/// Enforces the output contract on a finished script run.  Success
/// requires a zero exit code, a standard output that is more than
/// whitespace, and that the output parses as a single well-formed JSON
/// value; the returned text is then the raw standard output.  Every other
/// run is classified: a non-zero or abnormal exit keeps its exit code and
/// standard-error text, a blank output is `EmptyOutput`, and unparsable
/// output is `InvalidOutput` with the parser's diagnostic.
pub fn classify_output(exit_code: Option<i32>, stdout: String, stderr: String) -> (r: Result<
    String,
    ExecError,
>)
    ensures
        (r is Ok <==> exit_code == Some(0i32) && !is_blank(stdout@) && is_valid_json(stdout@)),
        r is Ok ==> r.unwrap()@ == stdout@,
        exit_code != Some(0i32) ==> (r matches Err(e) && e matches ExecError::ExecutionFailed {
            exit_code: c,
            stderr: s,
        } && c == exit_code && s@ == stderr@),
        exit_code == Some(0i32) && is_blank(stdout@) ==> (r matches Err(e) && e matches
            ExecError::EmptyOutput),
        exit_code == Some(0i32) && !is_blank(stdout@) && !is_valid_json(stdout@) ==> (r matches Err(
            e,
        ) && e matches ExecError::InvalidOutput { parse_error, output } && output@ == stdout@),
{
    let success: bool = match exit_code {
        Some(c) => c == 0,
        None => false,
    };
    if !success {
        return Err(ExecError::ExecutionFailed { exit_code, stderr });
    }
    if output_is_blank(stdout.as_str()) {
        return Err(ExecError::EmptyOutput);
    }
    match check_json(stdout.as_str()) {
        Ok(_) => Ok(stdout),
        Err(parse_error) => Err(ExecError::InvalidOutput { parse_error, output: stdout }),
    }
}

/// Renders a classified failure to the diagnostic text the attempt log
/// records, with the script that ran included for a failed execution.
pub fn render_exec_error(e: &ExecError, script: &str) -> (r: String)
    ensures
        r@ == spec_exec_error_msg(*e, script@),
{
    let mut out = String::new();
    match e {
        ExecError::ExecutionFailed { exit_code, stderr } => {
            out.append("Python script execution failed with exit code: ");
            let code: i32 = match exit_code {
                Some(c) => *c,
                None => -1,
            };
            push_int_i32(&mut out, code);
            out.append("\nSTDERR: ");
            out.append(stderr.as_str());
            out.append("\nSCRIPT:\n");
            out.append(script);
            proof {
                assert(out@ =~= spec_exec_error_msg(*e, script@));
            }
        },
        ExecError::EmptyOutput => {
            out.append("Script executed successfully but produced no output");
        },
        ExecError::InvalidOutput { parse_error, output } => {
            out.append("Script output is not valid JSON: ");
            out.append(parse_error.as_str());
            out.append("\nOutput was: ");
            out.append(output.as_str());
            proof {
                assert(out@ =~= spec_exec_error_msg(*e, script@));
            }
        },
    }
    out
}

/// Law: the diagnostic for a non-zero or abnormal exit contains the
/// decimal exit code and the captured standard-error text.
pub proof fn lemma_failed_exit_diagnostic(
    exit_code: Option<i32>,
    stderr: Seq<char>,
    script: Seq<char>,
)
    ensures
        contains_seq(
            spec_exec_failed_msg(exit_code, stderr, script),
            int_str(exit_code_value(exit_code)),
        ),
        contains_seq(spec_exec_failed_msg(exit_code, stderr, script), stderr),
{
    let msg = spec_exec_failed_msg(exit_code, stderr, script);
    let code = int_str(exit_code_value(exit_code));
    let a = "Python script execution failed with exit code: "@;
    let b = "\nSTDERR: "@ + stderr + "\nSCRIPT:\n"@ + script;
    assert(msg =~= a + code + b);
    lemma_concat_contains(a, code, b);
    assert(contains_seq(a + code + b, code));
    let a2 = "Python script execution failed with exit code: "@ + code + "\nSTDERR: "@;
    let b2 = "\nSCRIPT:\n"@ + script;
    assert(msg =~= a2 + stderr + b2);
    lemma_concat_contains(a2, stderr, b2);
    assert(contains_seq(a2 + stderr + b2, stderr));
}

} // verus!
