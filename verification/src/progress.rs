//! The startup progress reported to the window.
use vstd::prelude::*;

verus! {

/// One step of the startup, as the window is told of it.
pub struct StartupProgress {
    pub step: String,
    pub message: String,
}

/// The progress report of `step`, with its message.
pub fn startup_progress(step: &str, message: &str) -> (p: StartupProgress)
    ensures
        p.step@ == step@,
        p.message@ == message@,
{
    StartupProgress { step: String::from_str(step), message: String::from_str(message) }
}

/// The log line of a progress report.
pub fn progress_log_line(step: &str, message: &str) -> (line: String)
    ensures
        line@ == "[startup] "@ + step@ + ": "@ + message@,
{
    String::from_str("[startup] ").concat(step).concat(": ").concat(message)
}

/// The name of the event that carries progress reports.
pub fn progress_event_name() -> (name: String)
    ensures
        name@ == "startup_progress"@,
{
    String::from_str("startup_progress")
}

} // verus!
