//! Messages about spawning processes.

use vstd::prelude::*;
use vstd::string::*;

verus! {

/// The process could not bind its port.
pub const PORT_IN_USE: &'static str = "Port is already in use. The tunnel may be using a port that is already bound.";

/// The operating system refused to create the process.
pub fn spawn_failed(error: &str) -> (msg: String)
    ensures
        msg@ == "Failed to spawn wstunnel process: "@ + error@,
{
    let mut msg = String::from_str("Failed to spawn wstunnel process: ");
    msg.append(error);
    msg
}

/// A spawned process reported no process id.
pub const FAILED_TO_GET_PID: &'static str = "Failed to get process ID";

/// A registered process reported no process id.
pub const FAILED_TO_PROCESS_PID: &'static str = "Failed to process ID after spawning tunnel";

/// The standard output of the process could not be captured.
pub const FAILED_TO_CAPTURE_STDOUT: &'static str = "Failed to capture stdout";

/// The standard error of the process could not be captured.
pub const FAILED_TO_CAPTURE_STDERR: &'static str = "Failed to capture stderr";

} // verus!
