use vstd::prelude::*;
use vstd::string::StringExecFns;

use crate::attempt::{
    lemma_at_most_one_success, lemma_attempt_numbers_contiguous, log_wf, ParseAttempt,
};
use crate::executor::{
    classify_output, exit_code_value, is_blank, is_valid_json, render_exec_error,
    spec_exec_failed_msg,
};
use crate::numfmt::{dec_str, int_str, push_dec_usize};
use crate::prompt::{
    build_user_prompt, format_attempt_history, spec_history_entries, spec_user_prompt,
};
use crate::strutil::{contains_seq, lemma_contains_extend_left};

verus! {

/// The default attempt budget: an operation makes at most this many
/// generate/execute rounds before it gives up.
pub const DEFAULT_MAX_ATTEMPTS: usize = 3;

/// Where one parse operation stands: still making attempts, finished with
/// validated JSON text, or finished with its attempt budget spent.
pub enum Phase {
    /// Attempts remain and no attempt has succeeded yet.
    Running,
    /// The last recorded attempt produced validated JSON text.
    Succeeded,
    /// Every budgeted attempt was made and all of them failed.
    Exhausted,
}

/// What the caller of a recording step must do next.
pub enum Step {
    /// The attempt failed and budget remains: compose the next prompt.
    Retry,
    /// The attempt produced validated JSON text; the operation is over.
    Succeeded { json: String },
    /// The attempt failed and spent the last of the budget.
    Exhausted,
}

/// The state of one parse operation: the caller-supplied document and
/// instructions, the growing attempt log, and the phase.  The caller
/// drives it from outside: it asks for the prompt of the current attempt,
/// obtains a script and runs it by whatever outside means it has, and
/// hands the outcome back to one of the recording steps.
pub struct RetryOrchestrator {
    /// The attempt budget; at least 1.
    pub max_attempts: usize,
    /// The document to parse, fixed for the whole operation.
    pub document: String,
    /// The extraction instructions, fixed for the whole operation.
    pub instructions: String,
    /// One record per completed attempt, in chronological order.
    pub log: Vec<ParseAttempt>,
    /// Where the operation stands.
    pub phase: Phase,
    /// Whether the most recent failure happened during generation (no
    /// script was produced) rather than during execution.
    pub last_generation_failure: bool,
}

impl RetryOrchestrator {
    /// The state invariant: the log is well formed (contiguous numbering
    /// from 1, failures before the last record, diagnostics exactly on
    /// failures), it never outgrows the budget, and the phase agrees with
    /// the log's contents.
    pub open spec fn wf(&self) -> bool {
        &&& 1 <= self.max_attempts
        &&& self.log@.len() <= self.max_attempts
        &&& log_wf(self.log@)
        &&& (self.phase is Running ==> self.log@.len() < self.max_attempts && (self.log@.len() == 0
            || !self.log@.last().success))
        &&& (self.phase is Succeeded ==> self.log@.len() >= 1 && self.log@.last().success)
        &&& (self.phase is Exhausted ==> self.log@.len() == self.max_attempts
            && !self.log@.last().success)
    }

    /// Starts a fresh operation: empty log, attempt counter at 1, ready to
    /// compose the first prompt.
    pub fn new(document: String, instructions: String, max_attempts: usize) -> (r:
        RetryOrchestrator)
        requires
            max_attempts >= 1,
        ensures
            r.wf(),
            r.phase is Running,
            r.log@.len() == 0,
            r.max_attempts == max_attempts,
            r.document@ == document@,
            r.instructions@ == instructions@,
    {
        RetryOrchestrator {
            max_attempts,
            document,
            instructions,
            log: Vec::new(),
            phase: Phase::Running,
            last_generation_failure: false,
        }
    }

    /// The number of the attempt about to be made, starting at 1.
    pub fn current_attempt(&self) -> (n: usize)
        requires
            self.wf(),
            self.phase is Running,
        ensures
            n == self.log@.len() + 1,
    {
        self.log.len() + 1
    }

    /// Composes the user prompt for the attempt about to be made, from the
    /// document, the instructions and the full failure history so far.
    pub fn compose_prompt(&self) -> (r: String)
        requires
            self.wf(),
            self.phase is Running,
        ensures
            r@ == spec_user_prompt(
                self.document@,
                self.instructions@,
                self.log@,
                self.log@.len() + 1int,
            ),
    {
        let attempt = self.current_attempt();
        build_user_prompt(self.document.as_str(), self.instructions.as_str(), &self.log, attempt)
    }

    /// Records an attempt on which the model backend itself failed, so no
    /// script exists: the record carries an empty script and the backend's
    /// error behind a fixed prefix.  Moves to the next attempt, or to
    /// `Exhausted` when this failure spent the last of the budget.
    pub fn record_generation_failure(&mut self, backend_error: String) -> (r: Step)
        requires
            old(self).wf(),
            old(self).phase is Running,
        ensures
            final(self).wf(),
            final(self).max_attempts == old(self).max_attempts,
            final(self).document@ == old(self).document@,
            final(self).instructions@ == old(self).instructions@,
            final(self).log@.len() == old(self).log@.len() + 1,
            final(self).log@.drop_last() == old(self).log@,
            final(self).log@.last().attempt_number == old(self).log@.len() + 1,
            final(self).log@.last().script@ == Seq::<char>::empty(),
            !final(self).log@.last().success,
            final(self).log@.last().error is Some,
            final(self).log@.last().error.unwrap()@ == "Failed to generate script: "@
                + backend_error@,
            final(self).last_generation_failure,
            !(r is Succeeded),
            (r is Exhausted <==> final(self).log@.len() == final(self).max_attempts),
            (r is Exhausted <==> final(self).phase is Exhausted),
            (r is Retry <==> final(self).phase is Running),
    {
        let mut msg = String::new();
        msg.append("Failed to generate script: ");
        msg.append(backend_error.as_str());
        let record = ParseAttempt {
            attempt_number: self.log.len() + 1,
            script: String::new(),
            error: Some(msg),
            success: false,
        };
        self.log.push(record);
        self.last_generation_failure = true;
        proof {
            assert(self.log@.drop_last() =~= old(self).log@);
            assert(log_wf(self.log@));
        }
        if self.log.len() == self.max_attempts {
            self.phase = Phase::Exhausted;
            Step::Exhausted
        } else {
            Step::Retry
        }
    }

    /// Records an attempt whose script ran to completion, classifying the
    /// run against the output contract.  On a clean exit with non-blank,
    /// well-formed JSON output the operation succeeds and the raw output is
    /// returned; any other run is recorded as a failure whose diagnostic
    /// text names what went wrong, and the operation retries or exhausts.
    pub fn record_execution_report(
        &mut self,
        script: String,
        exit_code: Option<i32>,
        stdout: String,
        stderr: String,
    ) -> (r: Step)
        requires
            old(self).wf(),
            old(self).phase is Running,
        ensures
            final(self).wf(),
            final(self).max_attempts == old(self).max_attempts,
            final(self).document@ == old(self).document@,
            final(self).instructions@ == old(self).instructions@,
            final(self).log@.len() == old(self).log@.len() + 1,
            final(self).log@.drop_last() == old(self).log@,
            final(self).log@.last().attempt_number == old(self).log@.len() + 1,
            final(self).log@.last().script@ == script@,
            (r is Succeeded <==> exit_code == Some(0i32) && !is_blank(stdout@) && is_valid_json(
                stdout@,
            )),
            r matches Step::Succeeded { json } ==> json@ == stdout@ && is_valid_json(json@),
            (r is Succeeded <==> final(self).phase is Succeeded),
            (r is Succeeded <==> final(self).log@.last().success),
            (r is Succeeded ==> final(self).log@.last().error is None),
            (!(r is Succeeded) ==> final(self).log@.last().error is Some
                && !final(self).last_generation_failure),
            (exit_code != Some(0i32) ==> final(self).log@.last().error.unwrap()@
                == "Script execution failed: "@ + spec_exec_failed_msg(
                exit_code,
                stderr@,
                script@,
            )),
            (exit_code == Some(0i32) && is_blank(stdout@)
                ==> final(self).log@.last().error.unwrap()@ == "Script execution failed: "@
                + "Script executed successfully but produced no output"@),
            (exit_code == Some(0i32) && !is_blank(stdout@) && !is_valid_json(stdout@)
                ==> exists|pe: Seq<char>|
                final(self).log@.last().error.unwrap()@ == "Script execution failed: "@
                    + "Script output is not valid JSON: "@ + pe + "\nOutput was: "@ + stdout@),
            (!(r is Succeeded) ==> (r is Exhausted <==> final(self).log@.len()
                == final(self).max_attempts)),
            (r is Exhausted <==> final(self).phase is Exhausted),
            (r is Retry <==> final(self).phase is Running),
    {
        let outcome = classify_output(exit_code, stdout, stderr);
        match outcome {
            Ok(json) => {
                let record = ParseAttempt {
                    attempt_number: self.log.len() + 1,
                    script,
                    error: None,
                    success: true,
                };
                self.log.push(record);
                self.phase = Phase::Succeeded;
                proof {
                    assert(self.log@.drop_last() =~= old(self).log@);
                    assert(log_wf(self.log@));
                }
                Step::Succeeded { json }
            },
            Err(e) => {
                let mut msg = String::new();
                msg.append("Script execution failed: ");
                let rendered = render_exec_error(&e, script.as_str());
                msg.append(rendered.as_str());
                let ghost pe_witness: Seq<char> = match e {
                    crate::executor::ExecError::InvalidOutput { parse_error, output } =>
                        parse_error@,
                    _ => Seq::<char>::empty(),
                };
                let record = ParseAttempt {
                    attempt_number: self.log.len() + 1,
                    script,
                    error: Some(msg),
                    success: false,
                };
                self.log.push(record);
                self.last_generation_failure = false;
                proof {
                    assert(self.log@.drop_last() =~= old(self).log@);
                    assert(log_wf(self.log@));
                    if exit_code == Some(0i32) && !is_blank(stdout@) && !is_valid_json(stdout@) {
                        assert(self.log@.last().error.unwrap()@ == "Script execution failed: "@
                            + "Script output is not valid JSON: "@ + pe_witness
                            + "\nOutput was: "@ + stdout@);
                    }
                }
                if self.log.len() == self.max_attempts {
                    self.phase = Phase::Exhausted;
                    Step::Exhausted
                } else {
                    Step::Retry
                }
            },
        }
    }

    /// The aggregate diagnostic for an exhausted operation: how many
    /// attempts were spent and the last error; when the last failure was an
    /// execution failure, the full rendered transcript of every attempt
    /// follows.
    pub open spec fn spec_final_error(&self) -> Seq<char> {
        if self.last_generation_failure {
            "Failed to generate script after "@ + dec_str(self.max_attempts as nat)
                + " attempts. Last error: "@ + self.log@.last().error.unwrap()@
        } else {
            "All "@ + dec_str(self.max_attempts as nat) + " parsing attempts failed. Final error: "@
                + self.log@.last().error.unwrap()@ + "\n\nAll attempts:\n"@ + spec_history_entries(
                self.log@,
            )
        }
    }

    /// Renders the terminal failure report for an exhausted operation.
    pub fn final_error(&self) -> (r: String)
        requires
            self.wf(),
            self.phase is Exhausted,
        ensures
            r@ == self.spec_final_error(),
    {
        let mut out = String::new();
        let last = &self.log[self.log.len() - 1];
        match &last.error {
            Some(e) => {
                if self.last_generation_failure {
                    out.append("Failed to generate script after ");
                    push_dec_usize(&mut out, self.max_attempts);
                    out.append(" attempts. Last error: ");
                    out.append(e.as_str());
                } else {
                    out.append("All ");
                    push_dec_usize(&mut out, self.max_attempts);
                    out.append(" parsing attempts failed. Final error: ");
                    out.append(e.as_str());
                    out.append("\n\nAll attempts:\n");
                    let transcript = format_attempt_history(&self.log);
                    out.append(transcript.as_str());
                }
                proof {
                    assert(out@ =~= self.spec_final_error());
                }
            },
            None => {
                proof {
                    assert(false);
                }
            },
        }
        out
    }

    /// Read access to the attempt log, for callers that report details.
    pub fn attempt_log(&self) -> (r: &Vec<ParseAttempt>)
        ensures
            r@ == self.log@,
    {
        &self.log
    }
}

/// Law: throughout an operation, the attempt log is numbered
/// `1, 2, ..., k` with no gaps or repeats, `k` never exceeds the attempt
/// budget, and at most one record is a success - the last one, when
/// present.
pub proof fn lemma_orchestrator_log_invariants(o: &RetryOrchestrator)
    requires
        o.wf(),
    ensures
        o.log@.len() <= o.max_attempts,
        forall|i: int| 0 <= i < o.log@.len() ==> (#[trigger] o.log@[i]).attempt_number == i + 1,
        forall|i: int, j: int|
            0 <= i < o.log@.len() && 0 <= j < o.log@.len() && i != j ==> (
            #[trigger] o.log@[i]).attempt_number != (#[trigger] o.log@[j]).attempt_number,
        forall|i: int| 0 <= i < o.log@.len() && (#[trigger] o.log@[i]).success ==> i == o.log@.len() - 1,
        forall|i: int, j: int|
            0 <= i < o.log@.len() && 0 <= j < o.log@.len() && (#[trigger] o.log@[i]).success && (
            #[trigger] o.log@[j]).success ==> i == j,
{
    lemma_attempt_numbers_contiguous(o.log@);
    lemma_at_most_one_success(o.log@);
}

/// Law: when a script run exits non-zero or abnormally, the diagnostic the
/// attempt log records for it contains the decimal exit code and the
/// captured standard-error text.
pub proof fn lemma_recorded_exit_diagnostic(
    exit_code: Option<i32>,
    stderr: Seq<char>,
    script: Seq<char>,
)
    requires
        exit_code != Some(0i32),
    ensures
        contains_seq(
            "Script execution failed: "@ + spec_exec_failed_msg(exit_code, stderr, script),
            int_str(exit_code_value(exit_code)),
        ),
        contains_seq(
            "Script execution failed: "@ + spec_exec_failed_msg(exit_code, stderr, script),
            stderr,
        ),
{
    crate::executor::lemma_failed_exit_diagnostic(exit_code, stderr, script);
    lemma_contains_extend_left(
        "Script execution failed: "@,
        spec_exec_failed_msg(exit_code, stderr, script),
        int_str(exit_code_value(exit_code)),
    );
    lemma_contains_extend_left(
        "Script execution failed: "@,
        spec_exec_failed_msg(exit_code, stderr, script),
        stderr,
    );
}

} // verus!
