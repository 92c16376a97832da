//! The two classification policies, and the operations that apply them to a run.
use vstd::prelude::*;
use crate::capture::{
    merge_transcript, merged, spawn_failure_message, spawn_failure_text, CapturedOutput, Run,
};
use crate::text::{contains_fail, error_line_in, fail_in, has_error_line};

verus! {

/// Compile mode: the run failed exactly when some line of the transcript
/// begins with `Error`. The exit status plays no part, since the interpreter
/// exits with zero even on an error.
pub open spec fn compile_fails(t: Seq<char>) -> bool {
    error_line_in(t)
}

/// Test mode: the run failed when the exit status was not success, or `FAIL`
/// occurs anywhere in the transcript, or some line begins with `Error`.
pub open spec fn test_fails(success: bool, t: Seq<char>) -> bool {
    !success || fail_in(t) || error_line_in(t)
}

/// Classifies a transcript in compile mode. A failure carries the whole
/// transcript for display.
pub fn classify_compile(transcript: String) -> (r: Result<(), String>)
    ensures
        error_line_in(transcript@) ==> r == Err::<(), String>(transcript),
        !error_line_in(transcript@) ==> r == Ok::<(), String>(()),
{
    if has_error_line(transcript.as_str()) {
        Err(transcript)
    } else {
        Ok(())
    }
}

/// Classifies a transcript in test mode, given whether the exit status
/// reported success. Either way the result carries the whole transcript.
pub fn classify_test(success: bool, transcript: String) -> (r: Result<String, String>)
    ensures
        !success ==> r is Err,
        fail_in(transcript@) ==> r is Err,
        error_line_in(transcript@) ==> r is Err,
        success && !fail_in(transcript@) && !error_line_in(transcript@) ==> r is Ok,
        match r {
            Ok(m) => m == transcript,
            Err(m) => m == transcript,
        },
{
    if !success || contains_fail(transcript.as_str()) || has_error_line(transcript.as_str()) {
        Err(transcript)
    } else {
        Ok(transcript)
    }
}

/// Compile mode on a run. A run that could not be spawned gives the spawn
/// failure message and is never classified; a completed run fails exactly
/// when its merged transcript has a line that begins with `Error`, whatever
/// its exit status, and the failure carries that transcript.
pub fn evaluate_compile(run: &Run) -> (r: Result<(), String>)
    ensures
        match *run {
            Run::SpawnFailed(cause) => r matches Err(m) && m@ == spawn_failure_text(cause@),
            Run::Completed(out) => match r {
                Ok(_) => !compile_fails(merged(out)),
                Err(m) => compile_fails(merged(out)) && m@ == merged(out),
            },
        },
{
    match run {
        Run::SpawnFailed(cause) => Err(spawn_failure_message(cause.as_str())),
        Run::Completed(out) => {
            let transcript = merge_transcript(out.stdout.as_slice(), out.stderr.as_slice());
            classify_compile(transcript)
        },
    }
}

/// Test mode on a run. A run that could not be spawned gives the spawn
/// failure message and is never classified; a completed run fails exactly
/// when `test_fails` holds of its exit status and merged transcript, and
/// either way the result carries that transcript.
pub fn evaluate_test(run: &Run) -> (r: Result<String, String>)
    ensures
        match *run {
            Run::SpawnFailed(cause) => r matches Err(m) && m@ == spawn_failure_text(cause@),
            Run::Completed(out) => match r {
                Ok(m) => !test_fails(out.success, merged(out)) && m@ == merged(out),
                Err(m) => test_fails(out.success, merged(out)) && m@ == merged(out),
            },
        },
{
    match run {
        Run::SpawnFailed(cause) => Err(spawn_failure_message(cause.as_str())),
        Run::Completed(out) => {
            let transcript = merge_transcript(out.stdout.as_slice(), out.stderr.as_slice());
            classify_test(out.success, transcript)
        },
    }
}

} // verus!
