//! Messages about tunnel entries and their lifecycle.

use vstd::prelude::*;
use vstd::string::*;

pub mod validation;

verus! {

/// No entry carries the identifier `id`.
pub fn not_found(id: &str) -> (msg: String)
    ensures
        msg@ == "Tunnel with ID "@ + id@ + " not found"@,
{
    let mut msg = String::from_str("Tunnel with ID ");
    msg.append(id);
    msg.append(" not found");
    msg
}

/// The entry named `tag` already has a live process.
pub fn already_running(tag: &str) -> (msg: String)
    ensures
        msg@ == "Tunnel '"@ + tag@ + "' is already running. Stop it before starting again."@,
{
    let mut msg = String::from_str("Tunnel '");
    msg.append(tag);
    msg.append("' is already running. Stop it before starting again.");
    msg
}

/// The entry named `tag` has a process record without a process id.
pub fn transitional_state(tag: &str) -> (msg: String)
    ensures
        msg@ == "Tunnel '"@ + tag@ + "' is currently starting or stopping. Please wait."@,
{
    let mut msg = String::from_str("Tunnel '");
    msg.append(tag);
    msg.append("' is currently starting or stopping. Please wait.");
    msg
}

/// An entry cannot be edited while its process runs.
pub const CANNOT_EDIT_RUNNING: &'static str = "Cannot edit tunnel while it is running. Stop the tunnel first.";

/// A stop was asked for an entry without a live process.
pub const NOT_RUNNING: &'static str = "Tunnel is not running";

/// A stop was asked for an entry whose process has no process id any more.
pub const ALREADY_STOPPING: &'static str = "Tunnel is already stopping or has stopped";

/// No log file is known for the entry.
pub const NO_LOGS: &'static str = "Tunnel is not running or has no logs";

/// Starting the entry named `tag` failed.
pub fn failed_to_start(tag: &str) -> (msg: String)
    ensures
        msg@ == "Failed to start tunnel '"@ + tag@ + "'"@,
{
    let mut msg = String::from_str("Failed to start tunnel '");
    msg.append(tag);
    msg.append("'");
    msg
}

} // verus!
