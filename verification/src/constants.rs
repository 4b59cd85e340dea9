//! Values fixed for the whole application.

use vstd::prelude::*;
use vstd::string::*;

verus! {

/// The title shown for the application.
pub const APP_TITLE: &'static str = "wstunnel Manager";

/// The directory that holds log files unless the configuration names another.
pub fn default_log_directory() -> (dir: String)
    ensures
        dir@ == "./logs"@,
{
    String::from_str("./logs")
}

} // verus!
