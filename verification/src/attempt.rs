use vstd::prelude::*;

verus! {

/// One generation/execution attempt, recorded after it completes and never
/// mutated afterwards.  `script` is empty when generation itself failed;
/// `error` is present exactly when the attempt failed.
#[derive(Debug)]
pub struct ParseAttempt {
    /// Position of the attempt, starting at 1.
    pub attempt_number: usize,
    /// The candidate script the model produced (empty on generation failure).
    pub script: String,
    /// Diagnostic text for a failed attempt, absent on success.
    pub error: Option<String>,
    /// Whether the attempt produced validated JSON text.
    pub success: bool,
}

/// Well-formedness of one record: failure and diagnostic presence agree.
pub open spec fn record_wf(a: ParseAttempt) -> bool {
    a.success <==> a.error is None
}

/// Well-formedness of an attempt log: every record is well formed, numbers
/// are contiguous from 1 in order, and only the last record may be a
/// success.
pub open spec fn log_wf(log: Seq<ParseAttempt>) -> bool {
    &&& forall|i: int| 0 <= i < log.len() ==> record_wf(#[trigger] log[i])
    &&& forall|i: int| 0 <= i < log.len() ==> (#[trigger] log[i]).attempt_number == i + 1
    &&& forall|i: int| 0 <= i < log.len() - 1 ==> !(#[trigger] log[i]).success
}

/// Law: in a well-formed log the attempt numbers are exactly
/// `1, 2, ..., k` where `k` is the log's length - no gaps, no repeats.
pub proof fn lemma_attempt_numbers_contiguous(log: Seq<ParseAttempt>)
    requires
        log_wf(log),
    ensures
        forall|i: int| 0 <= i < log.len() ==> (#[trigger] log[i]).attempt_number == i + 1,
        forall|i: int, j: int|
            0 <= i < log.len() && 0 <= j < log.len() && i != j ==> (#[trigger] log[i]).attempt_number
                != (#[trigger] log[j]).attempt_number,
{
}

/// Law: a well-formed log holds at most one successful record, and when one
/// is present it is the last record.
pub proof fn lemma_at_most_one_success(log: Seq<ParseAttempt>)
    requires
        log_wf(log),
    ensures
        forall|i: int|
            0 <= i < log.len() && (#[trigger] log[i]).success ==> i == log.len() - 1,
        forall|i: int, j: int|
            0 <= i < log.len() && 0 <= j < log.len() && (#[trigger] log[i]).success && (
            #[trigger] log[j]).success ==> i == j,
{
}

} // verus!
