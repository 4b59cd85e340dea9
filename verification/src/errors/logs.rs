//! Messages about log files and log retention.

use crate::text::{decimal, decimal_string};
use vstd::prelude::*;
use vstd::string::*;

verus! {

/// The log directory could not be created.
pub const FAILED_TO_CREATE_DIR: &'static str = "Failed to create log directory";

/// The log file could not be created.
pub const FAILED_TO_CREATE_FILE: &'static str = "Failed to create log file";

/// No log file exists at `path`.
pub fn not_found(path: &str) -> (msg: String)
    ensures
        msg@ == "Log file not found at: "@ + path@,
{
    let mut msg = String::from_str("Log file not found at: ");
    msg.append(path);
    msg
}

/// The log file could not be opened for viewing.
pub fn failed_to_open(error: &str) -> (msg: String)
    ensures
        msg@ == "Failed to open log file: "@ + error@,
{
    let mut msg = String::from_str("Failed to open log file: ");
    msg.append(error);
    msg
}

/// A line of standard output could not be written to the log.
pub fn failed_to_write_stdout(error: &str) -> (msg: String)
    ensures
        msg@ == "Failed to write stdout to log: "@ + error@,
{
    let mut msg = String::from_str("Failed to write stdout to log: ");
    msg.append(error);
    msg
}

/// A line of standard error could not be written to the log.
pub fn failed_to_write_stderr(error: &str) -> (msg: String)
    ensures
        msg@ == "Failed to write stderr to log: "@ + error@,
{
    let mut msg = String::from_str("Failed to write stderr to log: ");
    msg.append(error);
    msg
}

/// The log could not be flushed.
pub fn failed_to_flush(error: &str) -> (msg: String)
    ensures
        msg@ == "Failed to flush log file: "@ + error@,
{
    let mut msg = String::from_str("Failed to flush log file: ");
    msg.append(error);
    msg
}

/// The retention window is outside the accepted range.
pub fn retention_invalid(days: u32) -> (msg: String)
    ensures
        msg@ == "Log retention days must be between 1 and 3650 (10 years), got: "@ + decimal(
            days as nat,
        ),
{
    let number = decimal_string(days as u64);
    let mut msg = String::from_str(
        "Log retention days must be between 1 and 3650 (10 years), got: ",
    );
    msg.append(number.as_str());
    msg
}

} // verus!
