//! Interpretation of the controller's operating-mode status code, and
//! the start decisions built on it.

use vstd::prelude::*;
use vstd::string::StringExecFns;

verus! {

/// The controller's operating mode, as its status code reports it.
pub enum OperatingMode {
    /// Status code 0x00.
    Unknown,
    /// Status code 0x08.
    Running,
    /// Status code 0x04.
    Stopped,
    /// Any other status code.
    Unrecognized,
}

/// Classifies a status code read off the controller.
pub fn classify_operating_mode(status: i32) -> (mode: OperatingMode)
    ensures
        mode is Unknown <==> status == 0x00,
        mode is Running <==> status == 0x08,
        mode is Stopped <==> status == 0x04,
        mode is Unrecognized <==> (status != 0x00 && status != 0x08 && status != 0x04),
{
    if status == 0x00 {
        OperatingMode::Unknown
    } else if status == 0x08 {
        OperatingMode::Running
    } else if status == 0x04 {
        OperatingMode::Stopped
    } else {
        OperatingMode::Unrecognized
    }
}

/// The message reported for an operating mode.
pub fn operating_mode_message(mode: &OperatingMode) -> (message: String)
    ensures
        mode is Unknown ==> message@ == "Status Unknown"@,
        mode is Running ==> message@ == "Running"@,
        mode is Stopped ==> message@ == "Stopped"@,
        mode is Unrecognized ==> message@ == "Unknown Status Code"@,
{
    match mode {
        OperatingMode::Unknown => String::from_str("Status Unknown"),
        OperatingMode::Running => String::from_str("Running"),
        OperatingMode::Stopped => String::from_str("Stopped"),
        OperatingMode::Unrecognized => String::from_str("Unknown Status Code"),
    }
}

/// Whether a start request must be answered with "already running"
/// instead of commanding a start: exactly when the status code reports
/// the running mode.
pub fn already_running(status: i32) -> (running: bool)
    ensures
        running == (status == 0x08),
{
    status == 0x08
}

} // verus!
