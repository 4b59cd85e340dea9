//! Messages about loading, validating and saving the configuration.

use crate::text::{decimal, decimal_string};
use vstd::prelude::*;
use vstd::string::*;

verus! {

/// The configuration read from `context` is not valid.
pub fn validation_failed(context: &str) -> (msg: String)
    ensures
        msg@ == "Config validation failed for "@ + context@,
{
    let mut msg = String::from_str("Config validation failed for ");
    msg.append(context);
    msg
}

/// The configuration file was unreadable as a configuration and has been
/// replaced; a copy of the old file was kept at `backup_path`.
pub fn corrupted(_path: &str, backup_path: &str, error: &str) -> (msg: String)
    ensures
        msg@ == "Config file was corrupted and has been replaced with defaults. Backup saved to "@
            + backup_path@ + ". Error: "@ + error@,
{
    let mut msg = String::from_str(
        "Config file was corrupted and has been replaced with defaults. Backup saved to ",
    );
    msg.append(backup_path);
    msg.append(". Error: ");
    msg.append(error);
    msg
}

/// The file at `path` does not parse.
pub fn corrupted_yaml(path: &str, error: &str) -> (msg: String)
    ensures
        msg@ == "Corrupted YAML config at "@ + path@ + ": "@ + error@,
{
    let mut msg = String::from_str("Corrupted YAML config at ");
    msg.append(path);
    msg.append(": ");
    msg.append(error);
    msg
}

/// A copy of the unreadable file was made at `path`.
pub fn backup_created(path: &str) -> (msg: String)
    ensures
        msg@ == "Created backup of corrupted config at "@ + path@,
{
    let mut msg = String::from_str("Created backup of corrupted config at ");
    msg.append(path);
    msg
}

/// The configuration is not valid once the new entry is in it.
pub fn validation_failed_after_add() -> (msg: String)
    ensures
        msg@ == "Configuration validation failed after adding tunnel"@,
{
    String::from_str("Configuration validation failed after adding tunnel")
}

/// The configuration is not valid once the entry is replaced.
pub fn validation_failed_after_edit() -> (msg: String)
    ensures
        msg@ == "Configuration validation failed after editing tunnel"@,
{
    String::from_str("Configuration validation failed after editing tunnel")
}

/// The configuration could not be persisted.
pub const SAVE_FAILED: &'static str = "Failed to save configuration to disk";

/// The global settings are not valid.
pub const GLOBAL_VALIDATION_FAILED: &'static str = "Global settings validation failed";

/// The configuration declares a schema version other than the supported one.
pub fn unsupported_version(version: u32) -> (msg: String)
    ensures
        msg@ == "Unsupported config version: "@ + decimal(version as nat)
            + ". Expected version 1"@,
{
    let number = decimal_string(version as u64);
    let mut msg = String::from_str("Unsupported config version: ");
    msg.append(number.as_str());
    msg.append(". Expected version 1");
    msg
}

/// The default configuration could not be written to `path`.
pub fn failed_to_create_default(path: &str) -> (msg: String)
    ensures
        msg@ == "Failed to create default config at "@ + path@,
{
    let mut msg = String::from_str("Failed to create default config at ");
    msg.append(path);
    msg
}

/// The file at `path` could not be read.
pub fn failed_to_read(path: &str) -> (msg: String)
    ensures
        msg@ == "Failed to read config from "@ + path@,
{
    let mut msg = String::from_str("Failed to read config from ");
    msg.append(path);
    msg
}

/// The configuration could not be turned into its file form.
pub fn failed_to_serialize() -> (msg: String)
    ensures
        msg@ == "Failed to serialize config to YAML"@,
{
    String::from_str("Failed to serialize config to YAML")
}

/// The directory that holds the configuration could not be created.
pub fn failed_to_create_dir(error: &str) -> (msg: String)
    ensures
        msg@ == "Failed to create config directory: "@ + error@,
{
    let mut msg = String::from_str("Failed to create config directory: ");
    msg.append(error);
    msg
}

/// The temporary file at `path` could not be written.
pub fn failed_to_write_temp(path: &str) -> (msg: String)
    ensures
        msg@ == "Failed to write temporary config to "@ + path@,
{
    let mut msg = String::from_str("Failed to write temporary config to ");
    msg.append(path);
    msg
}

/// The temporary file could not be moved over the configuration file.
pub fn failed_to_rename(from: &str, to: &str) -> (msg: String)
    ensures
        msg@ == "Failed to rename "@ + from@ + " to "@ + to@,
{
    let mut msg = String::from_str("Failed to rename ");
    msg.append(from);
    msg.append(" to ");
    msg.append(to);
    msg
}

/// The temporary file could not be reopened to force it to storage.
pub const FAILED_TO_OPEN_TEMP: &'static str = "Failed to open temp file for fsync";

/// The temporary file could not be forced to storage.
pub const FAILED_TO_FSYNC: &'static str = "Failed to fsync temp file";

/// No watcher could be created for the configuration file.
pub const FAILED_TO_CREATE_WATCHER: &'static str = "Failed to create file watcher";

/// The file at `path` could not be watched.
pub fn failed_to_watch(path: &str) -> (msg: String)
    ensures
        msg@ == "Failed to watch config file: "@ + path@,
{
    let mut msg = String::from_str("Failed to watch config file: ");
    msg.append(path);
    msg
}

} // verus!
