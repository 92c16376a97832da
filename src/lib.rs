//! Runs an interpreter over a source file and classifies the run.
//!
//! The interpreter does not reliably report failure through its exit code,
//! so a run is judged from its exit status together with its merged
//! transcript: the decoded standard output followed by the decoded standard
//! error. The judgement itself is a pure function, verified here; spawning
//! the process is left to the caller.
pub mod capture;
pub mod classify;
pub mod text;
