use wstunnel_manager::constants::{default_log_directory, APP_TITLE};
use wstunnel_manager::errors;
use wstunnel_manager::text::{
    char_is_control, char_is_whitespace, decimal_string, from_chars, str_contains, str_is_blank,
    to_chars, trim_bounds,
};

#[test]
fn whitespace_is_the_unicode_white_space_set() {
    for code in 0..=0x10FFFFu32 {
        if let Some(c) = char::from_u32(code) {
            assert_eq!(char_is_whitespace(c), c.is_whitespace(), "U+{:04X}", code);
            assert_eq!(char_is_control(c), c.is_control(), "U+{:04X}", code);
        }
    }
}

#[test]
fn blank_strings() {
    assert!(str_is_blank(""));
    assert!(str_is_blank(" \t\r\n"));
    assert!(!str_is_blank(" a "));
    assert!(!str_is_blank("\u{200b}"));
}

#[test]
fn trimming_agrees_with_the_standard_library() {
    for s in ["", "   ", "a", "  a b  ", "\ta\n", "\u{3000}x\u{a0}", "x  ", "  x"] {
        let chars = to_chars(s);
        let (from, to) = trim_bounds(&chars);
        assert_eq!(from_chars(&chars, from, to), s.trim());
    }
}

#[test]
fn characters_round_trip() {
    let chars = to_chars("héllo");
    assert_eq!(chars, vec!['h', 'é', 'l', 'l', 'o']);
    assert_eq!(from_chars(&chars, 1, 4), "éll");
    assert_eq!(from_chars(&chars, 2, 2), "");
}

#[test]
fn substring_search() {
    assert!(str_contains("No space left on device (os error 28)", "No space left on device"));
    assert!(str_contains("abc", ""));
    assert!(str_contains("", ""));
    assert!(!str_contains("", "a"));
    assert!(!str_contains("ab", "abc"));
    assert!(str_contains("xxabc", "abc"));
    assert!(str_contains("abcxx", "abc"));
    assert!(!str_contains("ababab", "abc"));
    assert!(str_contains("aab", "ab"));
}

#[test]
fn decimal_numerals() {
    assert_eq!(decimal_string(0), "0");
    assert_eq!(decimal_string(7), "7");
    assert_eq!(decimal_string(10), "10");
    assert_eq!(decimal_string(3650), "3650");
    assert_eq!(decimal_string(1_000_000_007), "1000000007");
    assert_eq!(decimal_string(u64::MAX), u64::MAX.to_string());
}

#[test]
fn constants() {
    assert_eq!(APP_TITLE, "wstunnel Manager");
    assert_eq!(default_log_directory(), "./logs");
}

#[test]
fn tunnel_messages() {
    assert_eq!(errors::tunnel::not_found("abc"), "Tunnel with ID abc not found");
    assert_eq!(
        errors::tunnel::already_running("t1"),
        "Tunnel 't1' is already running. Stop it before starting again."
    );
    assert_eq!(
        errors::tunnel::transitional_state("t1"),
        "Tunnel 't1' is currently starting or stopping. Please wait."
    );
    assert_eq!(errors::tunnel::failed_to_start("t1"), "Failed to start tunnel 't1'");
    assert_eq!(
        errors::tunnel::CANNOT_EDIT_RUNNING,
        "Cannot edit tunnel while it is running. Stop the tunnel first."
    );
    assert_eq!(errors::tunnel::NOT_RUNNING, "Tunnel is not running");
    assert_eq!(
        errors::tunnel::ALREADY_STOPPING,
        "Tunnel is already stopping or has stopped"
    );
    assert_eq!(errors::tunnel::NO_LOGS, "Tunnel is not running or has no logs");
    assert_eq!(
        errors::tunnel::validation::tag_too_long("101"),
        "Tunnel tag too long (max 100 characters): 101"
    );
    assert_eq!(
        errors::tunnel::validation::failed("tunnel entry"),
        "Failed to validate tunnel entry: tunnel entry"
    );
    assert_eq!(
        errors::tunnel::validation::duplicate_id("x"),
        "Duplicate tunnel ID found: x"
    );
}

#[test]
fn binary_messages() {
    assert_eq!(
        errors::binary::not_found("/p"),
        "wstunnel binary not found at path: /p. Please check the binary path configuration or use --wstunnel-path flag."
    );
    assert_eq!(
        errors::binary::not_found_simple("/p"),
        "wstunnel binary not found at /p. Please verify the binary path."
    );
    assert_eq!(
        errors::binary::permission_denied("/p"),
        "Permission denied executing wstunnel binary at /p. Check file permissions."
    );
}

#[test]
fn config_messages() {
    assert_eq!(
        errors::config::validation_failed("c.yaml"),
        "Config validation failed for c.yaml"
    );
    assert_eq!(
        errors::config::corrupted("c.yaml", "c.yaml.bak", "bad"),
        "Config file was corrupted and has been replaced with defaults. Backup saved to c.yaml.bak. Error: bad"
    );
    assert_eq!(
        errors::config::corrupted_yaml("c.yaml", "bad"),
        "Corrupted YAML config at c.yaml: bad"
    );
    assert_eq!(
        errors::config::backup_created("c.yaml.bak"),
        "Created backup of corrupted config at c.yaml.bak"
    );
    assert_eq!(
        errors::config::validation_failed_after_add(),
        "Configuration validation failed after adding tunnel"
    );
    assert_eq!(
        errors::config::validation_failed_after_edit(),
        "Configuration validation failed after editing tunnel"
    );
    assert_eq!(
        errors::config::unsupported_version(2),
        "Unsupported config version: 2. Expected version 1"
    );
    assert_eq!(
        errors::config::failed_to_create_default("c.yaml"),
        "Failed to create default config at c.yaml"
    );
    assert_eq!(
        errors::config::failed_to_read("c.yaml"),
        "Failed to read config from c.yaml"
    );
    assert_eq!(
        errors::config::failed_to_serialize(),
        "Failed to serialize config to YAML"
    );
    assert_eq!(
        errors::config::failed_to_create_dir("d"),
        "Failed to create config directory: d"
    );
    assert_eq!(
        errors::config::failed_to_write_temp("c.tmp"),
        "Failed to write temporary config to c.tmp"
    );
    assert_eq!(
        errors::config::failed_to_rename("c.tmp", "c.yaml"),
        "Failed to rename c.tmp to c.yaml"
    );
    assert_eq!(
        errors::config::failed_to_watch("c.yaml"),
        "Failed to watch config file: c.yaml"
    );
    assert_eq!(errors::config::SAVE_FAILED, "Failed to save configuration to disk");
}

#[test]
fn disk_log_and_process_messages() {
    assert_eq!(
        errors::disk::full_log_write("a.log"),
        "Disk full - cannot write to log file: a.log"
    );
    assert_eq!(errors::logs::not_found("a.log"), "Log file not found at: a.log");
    assert_eq!(errors::logs::failed_to_open("e"), "Failed to open log file: e");
    assert_eq!(
        errors::logs::failed_to_write_stdout("e"),
        "Failed to write stdout to log: e"
    );
    assert_eq!(
        errors::logs::failed_to_write_stderr("e"),
        "Failed to write stderr to log: e"
    );
    assert_eq!(errors::logs::failed_to_flush("e"), "Failed to flush log file: e");
    assert_eq!(
        errors::logs::retention_invalid(0),
        "Log retention days must be between 1 and 3650 (10 years), got: 0"
    );
    assert_eq!(
        errors::process::spawn_failed("e"),
        "Failed to spawn wstunnel process: e"
    );
}
