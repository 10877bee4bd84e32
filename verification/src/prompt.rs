use vstd::prelude::*;
use vstd::string::StringExecFns;

use crate::attempt::ParseAttempt;
use crate::numfmt::{dec_str, push_dec_usize};
use crate::strutil::{
    contains_seq, lemma_concat_contains, lemma_contains_extend_right, lemma_contains_trans,
};

verus! {

/// The fixed instruction block handed to the model as the system prompt.
pub open spec fn spec_system_prompt() -> Seq<char> {
    "\nYou are an expert Python programmer that creates parsing scripts. Your task is to write a single, complete Python script based on the user's request.\n\nCRITICAL RULES:\n1. The script you write will receive the raw document text via standard input (stdin).\n2. The script must print a single, valid JSON object to standard output (stdout).\n3. The script MUST NOT use any external libraries like BeautifulSoup. Use only standard libraries like `sys`, `json`, and `re`.\n4. Your output must be ONLY the raw Python code. Do not include explanations, markdown, or code blocks.\n5. Always include proper error handling to avoid crashes.\n6. If you cannot find the requested data, return an empty JSON object {} rather than failing.\n7. Make sure your JSON output is properly formatted and valid.\n\nIf this is a retry attempt, learn from the previous errors and fix them in your new script.\n"@
}

/// Returns the system prompt for the model: the rules every generated
/// script must follow.  Stable across calls.
pub fn get_system_prompt() -> (r: &'static str)
    ensures
        r@ == spec_system_prompt(),
{
    "\nYou are an expert Python programmer that creates parsing scripts. Your task is to write a single, complete Python script based on the user's request.\n\nCRITICAL RULES:\n1. The script you write will receive the raw document text via standard input (stdin).\n2. The script must print a single, valid JSON object to standard output (stdout).\n3. The script MUST NOT use any external libraries like BeautifulSoup. Use only standard libraries like `sys`, `json`, and `re`.\n4. Your output must be ONLY the raw Python code. Do not include explanations, markdown, or code blocks.\n5. Always include proper error handling to avoid crashes.\n6. If you cannot find the requested data, return an empty JSON object {} rather than failing.\n7. Make sure your JSON output is properly formatted and valid.\n\nIf this is a retry attempt, learn from the previous errors and fix them in your new script.\n"
}

/// The opening of every user prompt: the instructions and the document,
/// embedded verbatim.
pub open spec fn spec_prompt_intro(document: Seq<char>, instructions: Seq<char>) -> Seq<char> {
    "\n**Instructions:**\n"@ + instructions + "\n\n**Document to Parse:**\n---\n"@ + document
        + "\n---\n"@
}

/// The feedback line(s) for one earlier attempt inside a retry prompt: its
/// number, its status, and - for a failure - its error text and, when one
/// was produced, the script that failed.
pub open spec fn spec_history_item(a: ParseAttempt) -> Seq<char> {
    "Attempt "@ + dec_str(a.attempt_number as nat) + ": "@ + (match a.error {
        Some(e) => "FAILED - "@ + e@ + "\n"@ + (if a.script@.len() > 0 {
            "Script that failed:\n```python\n"@ + a.script@ + "\n```\n\n"@
        } else {
            Seq::<char>::empty()
        }),
        None => "SUCCESS\n"@,
    })
}

/// The feedback lines for all earlier attempts, in log order.
pub open spec fn spec_history_items(log: Seq<ParseAttempt>) -> Seq<char>
    decreases log.len(),
{
    if log.len() == 0 {
        Seq::<char>::empty()
    } else {
        spec_history_items(log.drop_last()) + spec_history_item(log.last())
    }
}

/// The whole user prompt for one attempt: instructions and document, then -
/// from the second attempt on - the full failure history, then the request
/// for the next script.  A pure function of its inputs.
pub open spec fn spec_user_prompt(
    document: Seq<char>,
    instructions: Seq<char>,
    log: Seq<ParseAttempt>,
    current_attempt: int,
) -> Seq<char> {
    spec_prompt_intro(document, instructions) + (if current_attempt > 1 && log.len() > 0 {
        "\n**Previous Attempts and Errors:**\n"@ + spec_history_items(log)
            + "Please learn from these errors and create a better script.\n\n"@
    } else {
        Seq::<char>::empty()
    }) + "Provide the Python script now:"@
}

proof fn lemma_history_items_step(log: Seq<ParseAttempt>, i: int)
    requires
        0 <= i < log.len(),
    ensures
        spec_history_items(log.take(i + 1)) == spec_history_items(log.take(i))
            + spec_history_item(log[i]),
{
    assert(log.take(i + 1).drop_last() =~= log.take(i));
    assert(log.take(i + 1).last() == log[i]);
}

/// Builds the user prompt for attempt `current_attempt`: the instructions
/// and the document verbatim, and, on a retry with a non-empty log, every
/// prior attempt's status, error text and failed script, in order.
pub fn build_user_prompt(
    document: &str,
    instructions: &str,
    attempts: &Vec<ParseAttempt>,
    current_attempt: usize,
) -> (r: String)
    ensures
        r@ == spec_user_prompt(document@, instructions@, attempts@, current_attempt as int),
{
    let mut out = String::new();
    out.append("\n**Instructions:**\n");
    out.append(instructions);
    out.append("\n\n**Document to Parse:**\n---\n");
    out.append(document);
    out.append("\n---\n");
    proof {
        assert(out@ =~= spec_prompt_intro(document@, instructions@));
    }
    let ghost intro = out@;
    if current_attempt > 1 && attempts.len() > 0 {
        out.append("\n**Previous Attempts and Errors:**\n");
        let ghost base = out@;
        let n = attempts.len();
        let mut i: usize = 0;
        proof {
            assert(attempts@.take(0) =~= Seq::<ParseAttempt>::empty());
        }
        while i < n
            invariant
                n == attempts@.len(),
                i <= n,
                out@ == base + spec_history_items(attempts@.take(i as int)),
            decreases n - i,
        {
            let a = &attempts[i];
            let ghost pre = out@;
            out.append("Attempt ");
            push_dec_usize(&mut out, a.attempt_number);
            out.append(": ");
            match &a.error {
                Some(e) => {
                    out.append("FAILED - ");
                    out.append(e.as_str());
                    out.append("\n");
                    if !a.script.as_str().is_empty() {
                        out.append("Script that failed:\n```python\n");
                        out.append(a.script.as_str());
                        out.append("\n```\n\n");
                    }
                },
                None => {
                    out.append("SUCCESS\n");
                },
            }
            proof {
                assert(out@ =~= pre + spec_history_item(attempts@[i as int]));
                lemma_history_items_step(attempts@, i as int);
                assert(out@ =~= base + spec_history_items(attempts@.take(i as int + 1)));
            }
            i = i + 1;
        }
        proof {
            assert(attempts@.take(n as int) =~= attempts@);
        }
        out.append("Please learn from these errors and create a better script.\n\n");
    }
    out.append("Provide the Python script now:");
    proof {
        assert(out@ =~= spec_user_prompt(document@, instructions@, attempts@,
            current_attempt as int));
    }
    out
}

/// The report block for one attempt in the final failure transcript.
pub open spec fn spec_history_entry(a: ParseAttempt) -> Seq<char> {
    "--- Attempt "@ + dec_str(a.attempt_number as nat) + " ---\n"@ + (if a.success {
        "Status: SUCCESS\n"@
    } else {
        "Status: FAILED\n"@ + (match a.error {
            Some(e) => "Error: "@ + e@ + "\n"@,
            None => Seq::<char>::empty(),
        })
    }) + (if a.script@.len() > 0 {
        "Script:\n"@ + a.script@ + "\n\n"@
    } else {
        Seq::<char>::empty()
    })
}

/// The full failure transcript: one report block per attempt, in order.
pub open spec fn spec_history_entries(log: Seq<ParseAttempt>) -> Seq<char>
    decreases log.len(),
{
    if log.len() == 0 {
        Seq::<char>::empty()
    } else {
        spec_history_entries(log.drop_last()) + spec_history_entry(log.last())
    }
}

proof fn lemma_history_entries_step(log: Seq<ParseAttempt>, i: int)
    requires
        0 <= i < log.len(),
    ensures
        spec_history_entries(log.take(i + 1)) == spec_history_entries(log.take(i))
            + spec_history_entry(log[i]),
{
    assert(log.take(i + 1).drop_last() =~= log.take(i));
    assert(log.take(i + 1).last() == log[i]);
}

/// Renders the whole attempt log for error reporting: every attempt's
/// number, status, error text if any, and full script text, in order.
#[verifier::rlimit(50)]
pub fn format_attempt_history(attempts: &Vec<ParseAttempt>) -> (r: String)
    ensures
        r@ == spec_history_entries(attempts@),
{
    let mut out = String::new();
    let n = attempts.len();
    let mut i: usize = 0;
    proof {
        assert(attempts@.take(0) =~= Seq::<ParseAttempt>::empty());
    }
    while i < n
        invariant
            n == attempts@.len(),
            i <= n,
            out@ == spec_history_entries(attempts@.take(i as int)),
        decreases n - i,
    {
        let a = &attempts[i];
        let ghost pre = out@;
        out.append("--- Attempt ");
        push_dec_usize(&mut out, a.attempt_number);
        out.append(" ---\n");
        if a.success {
            out.append("Status: SUCCESS\n");
        } else {
            out.append("Status: FAILED\n");
            match &a.error {
                Some(e) => {
                    out.append("Error: ");
                    out.append(e.as_str());
                    out.append("\n");
                },
                None => {},
            }
        }
        if !a.script.as_str().is_empty() {
            out.append("Script:\n");
            out.append(a.script.as_str());
            out.append("\n\n");
        }
        proof {
            assert(out@ =~= pre + spec_history_entry(attempts@[i as int]));
            lemma_history_entries_step(attempts@, i as int);
            assert(out@ =~= spec_history_entries(attempts@.take(i as int + 1)));
        }
        i = i + 1;
    }
    proof {
        assert(attempts@.take(n as int) =~= attempts@);
    }
    out
}

proof fn lemma_history_item_contains(a: ParseAttempt)
    requires
        a.error is Some,
    ensures
        contains_seq(spec_history_item(a), a.error.unwrap()@),
        a.script@.len() > 0 ==> contains_seq(spec_history_item(a), a.script@),
{
    let head = "Attempt "@ + dec_str(a.attempt_number as nat) + ": "@ + "FAILED - "@;
    let tail = "\n"@ + (if a.script@.len() > 0 {
        "Script that failed:\n```python\n"@ + a.script@ + "\n```\n\n"@
    } else {
        Seq::<char>::empty()
    });
    assert(spec_history_item(a) =~= head + a.error.unwrap()@ + tail);
    lemma_concat_contains(head, a.error.unwrap()@, tail);
    assert(contains_seq(head + a.error.unwrap()@ + tail, a.error.unwrap()@));
    if a.script@.len() > 0 {
        let head2 = "Attempt "@ + dec_str(a.attempt_number as nat) + ": "@ + "FAILED - "@
            + a.error.unwrap()@ + "\n"@ + "Script that failed:\n```python\n"@;
        assert(spec_history_item(a) =~= head2 + a.script@ + "\n```\n\n"@);
        lemma_concat_contains(head2, a.script@, "\n```\n\n"@);
    }
}

proof fn lemma_history_items_contain_item(log: Seq<ParseAttempt>, i: int)
    requires
        0 <= i < log.len(),
    ensures
        contains_seq(spec_history_items(log), spec_history_item(log[i])),
    decreases log.len(),
{
    let items = spec_history_items(log);
    let item = spec_history_item(log[i]);
    if i == log.len() - 1 {
        let front = spec_history_items(log.drop_last());
        assert(items =~= front + item + Seq::<char>::empty());
        lemma_concat_contains(front, item, Seq::<char>::empty());
    } else {
        lemma_history_items_contain_item(log.drop_last(), i);
        assert(log.drop_last()[i] == log[i]);
        lemma_contains_extend_right(
            spec_history_items(log.drop_last()),
            spec_history_item(log.last()),
            item,
        );
    }
}

/// Law: a retry prompt feeds every earlier failed attempt back verbatim.
/// For any attempt after the first, the user prompt contains, letter for
/// letter, each failed record's error text and - when the attempt produced
/// a script - its script text.
pub proof fn lemma_prompt_feeds_back_failures(
    document: Seq<char>,
    instructions: Seq<char>,
    log: Seq<ParseAttempt>,
    current_attempt: int,
    i: int,
)
    requires
        current_attempt > 1,
        log.len() > 0,
        0 <= i < log.len(),
        log[i].error is Some,
    ensures
        contains_seq(
            spec_user_prompt(document, instructions, log, current_attempt),
            log[i].error.unwrap()@,
        ),
        log[i].script@.len() > 0 ==> contains_seq(
            spec_user_prompt(document, instructions, log, current_attempt),
            log[i].script@,
        ),
{
    let prompt = spec_user_prompt(document, instructions, log, current_attempt);
    let items = spec_history_items(log);
    let item = spec_history_item(log[i]);
    let front = spec_prompt_intro(document, instructions)
        + "\n**Previous Attempts and Errors:**\n"@;
    let back = "Please learn from these errors and create a better script.\n\n"@
        + "Provide the Python script now:"@;
    assert(prompt =~= front + items + back);
    lemma_concat_contains(front, items, back);
    assert(contains_seq(prompt, items));
    lemma_history_items_contain_item(log, i);
    lemma_contains_trans(prompt, items, item);
    lemma_history_item_contains(log[i]);
    lemma_contains_trans(prompt, item, log[i].error.unwrap()@);
    if log[i].script@.len() > 0 {
        lemma_contains_trans(prompt, item, log[i].script@);
    }
}

} // verus!
