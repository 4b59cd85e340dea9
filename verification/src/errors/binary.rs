//! Messages about the tunnel binary.

use vstd::prelude::*;
use vstd::string::*;

verus! {

/// The tunnel binary is missing at `path`, found before a start was attempted.
pub fn not_found(path: &str) -> (msg: String)
    ensures
        msg@ == "wstunnel binary not found at path: "@ + path@ + ". Please check the binary path configuration or use --wstunnel-path flag."@,
{
    let mut msg = String::from_str("wstunnel binary not found at path: ");
    msg.append(path);
    msg.append(". Please check the binary path configuration or use --wstunnel-path flag.");
    msg
}

/// The tunnel binary is missing at `path`, found when the process was spawned.
pub fn not_found_simple(path: &str) -> (msg: String)
    ensures
        msg@ == "wstunnel binary not found at "@ + path@ + ". Please verify the binary path."@,
{
    let mut msg = String::from_str("wstunnel binary not found at ");
    msg.append(path);
    msg.append(". Please verify the binary path.");
    msg
}

/// The tunnel binary at `path` may not be executed.
pub fn permission_denied(path: &str) -> (msg: String)
    ensures
        msg@ == "Permission denied executing wstunnel binary at "@ + path@ + ". Check file permissions."@,
{
    let mut msg = String::from_str("Permission denied executing wstunnel binary at ");
    msg.append(path);
    msg.append(". Check file permissions.");
    msg
}

} // verus!
