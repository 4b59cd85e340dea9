//! Messages about entries that fail validation.

use vstd::prelude::*;
use vstd::string::*;

verus! {

/// The tag is blank.
pub const TAG_EMPTY: &'static str = "Tunnel tag cannot be empty or whitespace-only";

/// The tag is longer than a tag may be; `tag` is what the message shows of it.
pub fn tag_too_long(tag: &str) -> (msg: String)
    ensures
        msg@ == "Tunnel tag too long (max 100 characters): "@ + tag@,
{
    let mut msg = String::from_str("Tunnel tag too long (max 100 characters): ");
    msg.append(tag);
    msg
}

/// The command-line arguments are blank.
pub const CLI_ARGS_EMPTY: &'static str = "CLI arguments cannot be empty";

/// An entry failed validation in the given context.
pub fn failed(context: &str) -> (msg: String)
    ensures
        msg@ == "Failed to validate tunnel entry: "@ + context@,
{
    let mut msg = String::from_str("Failed to validate tunnel entry: ");
    msg.append(context);
    msg
}

/// Two entries carry the identifier `id`.
pub fn duplicate_id(id: &str) -> (msg: String)
    ensures
        msg@ == "Duplicate tunnel ID found: "@ + id@,
{
    let mut msg = String::from_str("Duplicate tunnel ID found: ");
    msg.append(id);
    msg
}

} // verus!
