//! Messages about exhausted storage.

use vstd::prelude::*;
use vstd::string::*;

verus! {

/// The configuration could not be written because storage is exhausted.
pub const FULL: &'static str = "Disk space exhausted. Cannot save configuration. Free up disk space and try again.";

/// A log line could not be written because storage is exhausted.
pub fn full_log_write(error: &str) -> (msg: String)
    ensures
        msg@ == "Disk full - cannot write to log file: "@ + error@,
{
    let mut msg = String::from_str("Disk full - cannot write to log file: ");
    msg.append(error);
    msg
}

} // verus!
