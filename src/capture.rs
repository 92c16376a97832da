//! What one run of the interpreter leaves behind, and its merged transcript.
use vstd::prelude::*;
use vstd::string::StringExecFns;

verus! {

/// The executable that is run over each source file.
pub const INTERPRETER: &'static str = "seqlisp";

/// The text that `String::from_utf8_lossy` decodes from `b`: valid UTF-8 is
/// kept as it is, and each invalid sequence becomes U+FFFD.
pub uninterp spec fn lossy_text(b: Seq<u8>) -> Seq<char>;

/// Relies on `String::from_utf8_lossy`: the decoded text depends on the bytes
/// alone, and no bytes decode to no text.
#[verifier::external_body]
fn decode_lossy(b: &[u8]) -> (r: String)
    ensures
        r@ == lossy_text(b@),
        b@.len() == 0 ==> r@.len() == 0,
{
    String::from_utf8_lossy(b).into_owned()
}

/// A run of the interpreter that was spawned and ran to completion.
pub struct CapturedOutput {
    /// The exit status reported success (exit code zero).
    pub success: bool,
    /// Everything the process wrote to standard output.
    pub stdout: Vec<u8>,
    /// Everything the process wrote to standard error.
    pub stderr: Vec<u8>,
}

/// How an attempt to run the interpreter ended.
pub enum Run {
    /// The process ran to completion (or was killed) and its output was captured.
    Completed(CapturedOutput),
    /// The process could not be spawned; the operating system's description of why.
    SpawnFailed(String),
}

/// The merged transcript of a run: decoded standard output, then decoded
/// standard error, never interleaved.
pub open spec fn merged(out: CapturedOutput) -> Seq<char> {
    lossy_text(out.stdout@) + lossy_text(out.stderr@)
}

/// Decodes both streams and joins them, standard output first.
pub fn merge_transcript(stdout: &[u8], stderr: &[u8]) -> (r: String)
    ensures
        r@ == lossy_text(stdout@) + lossy_text(stderr@),
{
    let out_text = decode_lossy(stdout);
    let err_text = decode_lossy(stderr);
    out_text.concat(err_text.as_str())
}

/// The message for a run that could not be spawned, carrying the operating
/// system's description `cause` and a hint on how to mend it.
pub open spec fn spawn_failure_text(cause: Seq<char>) -> Seq<char> {
    "Failed to run seqlisp: "@ + cause + ". Is seqlisp installed and in PATH?"@
}

/// Builds the message for a run that could not be spawned.
pub fn spawn_failure_message(cause: &str) -> (r: String)
    ensures
        r@ == spawn_failure_text(cause@),
{
    let mut m = String::from_str("Failed to run seqlisp: ");
    m.append(cause);
    m.append(". Is seqlisp installed and in PATH?");
    m
}

} // verus!
