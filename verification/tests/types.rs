use std::time::Duration;
use wstunnel_manager::backend::types::{
    default_version, Config, ConfigError, EntryError, GlobalSettings, ProcessId, SettingsError,
    Timestamp, TunnelEntry, TunnelId, TunnelMode,
};

fn entry(tag: &str, cli_args: &str) -> TunnelEntry {
    TunnelEntry {
        id: TunnelId::new(),
        tag: tag.to_string(),
        mode: TunnelMode::Client,
        cli_args: cli_args.to_string(),
        autostart: false,
        runtime_state: None,
    }
}

#[test]
fn test_config_validate_valid() {
    let config = Config {
        version: 1,
        global: GlobalSettings::default(),
        tunnels: vec![TunnelEntry {
            id: TunnelId::new(),
            tag: "test-tunnel".to_string(),
            mode: TunnelMode::Client,
            cli_args: "client ws://example.com".to_string(),
            autostart: false,
            runtime_state: None,
        }],
    };

    assert!(config.validate().is_ok());
}

#[test]
fn test_config_validate_duplicate_ids() {
    let id = TunnelId::new();
    let config = Config {
        version: 1,
        global: GlobalSettings::default(),
        tunnels: vec![
            TunnelEntry {
                id,
                tag: "tunnel-1".to_string(),
                mode: TunnelMode::Client,
                cli_args: "client ws://example.com".to_string(),
                autostart: false,
                runtime_state: None,
            },
            TunnelEntry {
                id,
                tag: "tunnel-2".to_string(),
                mode: TunnelMode::Server,
                cli_args: "server ws://0.0.0.0:8080".to_string(),
                autostart: false,
                runtime_state: None,
            },
        ],
    };

    let result = config.validate();
    assert!(result.is_err());
    assert!(result
        .unwrap_err()
        .message()
        .contains("Duplicate tunnel ID"));
}

#[test]
fn test_config_validate_invalid_version() {
    let config = Config {
        version: 999,
        global: GlobalSettings::default(),
        tunnels: vec![],
    };

    let result = config.validate();
    assert!(result.is_err());
    assert!(result
        .unwrap_err()
        .message()
        .contains("Unsupported config version"));
}

#[test]
fn test_tunnel_entry_validate_valid() {
    let entry = TunnelEntry {
        id: TunnelId::new(),
        tag: "valid-tunnel".to_string(),
        mode: TunnelMode::Client,
        cli_args: "client ws://example.com".to_string(),
        autostart: true,
        runtime_state: None,
    };

    assert!(entry.validate().is_ok());
}

#[test]
fn test_tunnel_entry_validate_empty_tag() {
    let entry = TunnelEntry {
        id: TunnelId::new(),
        tag: "   ".to_string(),
        mode: TunnelMode::Client,
        cli_args: "client ws://example.com".to_string(),
        autostart: false,
        runtime_state: None,
    };

    let result = entry.validate();
    assert!(result.is_err());
    assert!(result
        .unwrap_err()
        .message()
        .contains("tag cannot be empty"));
}

#[test]
fn test_tunnel_entry_validate_tag_too_long() {
    let entry = TunnelEntry {
        id: TunnelId::new(),
        tag: "a".repeat(101),
        mode: TunnelMode::Client,
        cli_args: "client ws://example.com".to_string(),
        autostart: false,
        runtime_state: None,
    };

    let result = entry.validate();
    assert!(result.is_err());
    assert!(result.unwrap_err().message().contains("tag too long"));
}

#[test]
fn test_tunnel_entry_validate_empty_cli_args() {
    let entry = TunnelEntry {
        id: TunnelId::new(),
        tag: "test-tunnel".to_string(),
        mode: TunnelMode::Client,
        cli_args: "   ".to_string(),
        autostart: false,
        runtime_state: None,
    };

    let result = entry.validate();
    assert!(result.is_err());
    assert!(result
        .unwrap_err()
        .message()
        .contains("CLI arguments cannot be empty"));
}

#[test]
fn test_tunnel_entry_autostart_flag() {
    let entry_with_autostart = TunnelEntry {
        id: TunnelId::new(),
        tag: "autostart-tunnel".to_string(),
        mode: TunnelMode::Server,
        cli_args: "server ws://0.0.0.0:8080".to_string(),
        autostart: true,
        runtime_state: None,
    };

    assert!(entry_with_autostart.validate().is_ok());
    assert!(entry_with_autostart.autostart);

    let entry_without_autostart = TunnelEntry {
        id: TunnelId::new(),
        tag: "manual-tunnel".to_string(),
        mode: TunnelMode::Client,
        cli_args: "client ws://example.com".to_string(),
        autostart: false,
        runtime_state: None,
    };

    assert!(entry_without_autostart.validate().is_ok());
    assert!(!entry_without_autostart.autostart);
}

#[test]
fn valid_config() {
    let config = Config {
        version: 1,
        global: GlobalSettings::default(),
        tunnels: vec![TunnelEntry {
            id: TunnelId::new(),
            tag: "test-tunnel".to_string(),
            mode: TunnelMode::Client,
            cli_args: "client ws://example.com".to_string(),
            autostart: false,
            runtime_state: None,
        }],
    };

    assert!(config.validate().is_ok());
}

#[test]
fn duplicate_tunnel_ids() {
    let id = TunnelId::new();
    let config = Config {
        version: 1,
        global: GlobalSettings::default(),
        tunnels: vec![
            TunnelEntry {
                id,
                tag: "tunnel-1".to_string(),
                mode: TunnelMode::Client,
                cli_args: "client ws://example.com".to_string(),
                autostart: false,
                runtime_state: None,
            },
            TunnelEntry {
                id,
                tag: "tunnel-2".to_string(),
                mode: TunnelMode::Server,
                cli_args: "server ws://0.0.0.0:8080".to_string(),
                autostart: false,
                runtime_state: None,
            },
        ],
    };

    let result = config.validate();
    assert!(result.is_err());
    assert!(result
        .unwrap_err()
        .message()
        .contains("Duplicate tunnel ID"));
}

#[test]
fn invalid_config_version() {
    let config = Config {
        version: 999,
        global: GlobalSettings::default(),
        tunnels: vec![],
    };

    let result = config.validate();
    assert!(result.is_err());
    assert!(result
        .unwrap_err()
        .message()
        .contains("Unsupported config version"));
}

#[test]
fn valid_tunnel_entry() {
    let entry = TunnelEntry {
        id: TunnelId::new(),
        tag: "valid-tunnel".to_string(),
        mode: TunnelMode::Client,
        cli_args: "client ws://example.com".to_string(),
        autostart: true,
        runtime_state: None,
    };

    assert!(entry.validate().is_ok());
}

#[test]
fn empty_or_whitespace_tag() {
    let entry = TunnelEntry {
        id: TunnelId::new(),
        tag: "   ".to_string(),
        mode: TunnelMode::Client,
        cli_args: "client ws://example.com".to_string(),
        autostart: false,
        runtime_state: None,
    };

    let result = entry.validate();
    assert!(result.is_err());
    assert!(result.unwrap_err().message().contains("cannot be empty"));
}

#[test]
fn tag_too_long() {
    let entry = TunnelEntry {
        id: TunnelId::new(),
        tag: "a".repeat(101),
        mode: TunnelMode::Client,
        cli_args: "client ws://example.com".to_string(),
        autostart: false,
        runtime_state: None,
    };

    let result = entry.validate();
    assert!(result.is_err());
    assert!(result.unwrap_err().message().contains("tag too long"));
}

#[test]
fn empty_cli_args() {
    let entry = TunnelEntry {
        id: TunnelId::new(),
        tag: "test-tunnel".to_string(),
        mode: TunnelMode::Client,
        cli_args: "   ".to_string(),
        autostart: false,
        runtime_state: None,
    };

    let result = entry.validate();
    assert!(result.is_err());
    assert!(result
        .unwrap_err()
        .message()
        .contains("CLI arguments cannot be empty"));
}

#[test]
fn autostart_flag_behavior() {
    let entry_with_autostart = TunnelEntry {
        id: TunnelId::new(),
        tag: "autostart-tunnel".to_string(),
        mode: TunnelMode::Server,
        cli_args: "server ws://0.0.0.0:8080".to_string(),
        autostart: true,
        runtime_state: None,
    };

    assert!(entry_with_autostart.validate().is_ok());
    assert!(entry_with_autostart.autostart);

    let entry_without_autostart = TunnelEntry {
        id: TunnelId::new(),
        tag: "manual-tunnel".to_string(),
        mode: TunnelMode::Client,
        cli_args: "client ws://example.com".to_string(),
        autostart: false,
        runtime_state: None,
    };

    assert!(entry_without_autostart.validate().is_ok());
    assert!(!entry_without_autostart.autostart);
}

#[test]
fn tag_of_exactly_one_hundred_characters_is_accepted() {
    assert!(entry(&"a".repeat(100), "client ws://x").validate().is_ok());
    assert!(matches!(
        entry(&"a".repeat(101), "client ws://x").validate(),
        Err(EntryError::TagTooLong { len: 101 })
    ));
}

#[test]
fn tag_length_counts_characters() {
    let tag = "é".repeat(100);
    assert_eq!(tag.len(), 200);
    assert!(entry(&tag, "client ws://x").validate().is_ok());
    assert!(matches!(
        entry(&"é".repeat(101), "client ws://x").validate(),
        Err(EntryError::TagTooLong { len: 101 })
    ));
}

#[test]
fn empty_tag_and_empty_arguments_are_refused() {
    assert!(matches!(
        entry("", "client ws://x").validate(),
        Err(EntryError::TagEmpty)
    ));
    assert!(matches!(
        entry("\t\u{a0}\u{3000}\n", "client ws://x").validate(),
        Err(EntryError::TagEmpty)
    ));
    assert!(matches!(
        entry("t", "").validate(),
        Err(EntryError::CliArgsEmpty)
    ));
    assert!(entry(" t ", " a ").validate().is_ok());
}

#[test]
fn entry_error_messages_are_exact() {
    assert_eq!(
        EntryError::TagEmpty.message(),
        "Tunnel tag cannot be empty or whitespace-only"
    );
    assert_eq!(
        EntryError::TagTooLong { len: 101 }.message(),
        "Tunnel tag too long (max 100 characters): 101"
    );
    assert_eq!(
        EntryError::CliArgsEmpty.message(),
        "CLI arguments cannot be empty"
    );
}

#[test]
fn settings_with_missing_binary_are_refused() {
    let settings = GlobalSettings {
        wstunnel_binary_path: Some("/no/such/dir/wstunnel-binary".to_string()),
        log_directory: "./logs".to_string(),
        log_retention_days: Some(0),
    };
    let error = settings.validate().unwrap_err();
    assert!(matches!(error, SettingsError::BinaryNotFound { .. }));
    assert_eq!(
        error.message(),
        "wstunnel binary not found at path: /no/such/dir/wstunnel-binary"
    );
    assert!(matches!(
        settings.validate_given(true),
        Err(SettingsError::RetentionInvalid { days: 0 })
    ));
}

#[test]
fn settings_with_present_binary_are_accepted() {
    let settings = GlobalSettings {
        wstunnel_binary_path: Some(".".to_string()),
        log_directory: "./logs".to_string(),
        log_retention_days: Some(3650),
    };
    assert!(settings.validate().is_ok());
    assert!(settings.probe_binary());
}

#[test]
fn retention_message_is_exact() {
    assert_eq!(
        SettingsError::RetentionInvalid { days: 3651 }.message(),
        "Log retention days must be between 1 and 3650 (10 years), got: 3651"
    );
}

#[test]
fn config_faults_are_reported_in_order() {
    let id = TunnelId::new();
    let mut first = entry("one", "client ws://x");
    first.id = id;
    let mut second = entry("", "client ws://x");
    second.id = id;
    let config = Config {
        version: 2,
        global: GlobalSettings {
            wstunnel_binary_path: None,
            log_directory: "./logs".to_string(),
            log_retention_days: Some(0),
        },
        tunnels: vec![first.clone(), second.clone()],
    };
    assert!(matches!(
        config.validate(),
        Err(ConfigError::UnsupportedVersion { version: 2 })
    ));
    let config = Config { version: 1, ..config };
    match config.validate() {
        Err(ConfigError::DuplicateId { id: repeated }) => assert_eq!(repeated, id),
        other => panic!("unexpected outcome: {:?}", other),
    }
    let mut third = second.clone();
    third.id = TunnelId::new();
    let config = Config {
        tunnels: vec![first.clone(), third],
        ..config
    };
    assert!(matches!(
        config.validate(),
        Err(ConfigError::InvalidTunnel {
            cause: EntryError::TagEmpty,
            ..
        })
    ));
    let config = Config {
        tunnels: vec![first],
        ..config
    };
    assert!(matches!(
        config.validate(),
        Err(ConfigError::InvalidGlobal {
            settings: SettingsError::RetentionInvalid { days: 0 }
        })
    ));
}

#[test]
fn config_error_messages_are_exact() {
    assert_eq!(
        ConfigError::UnsupportedVersion { version: 999 }.message(),
        "Unsupported config version: 999. Expected version 1"
    );
    assert_eq!(
        ConfigError::DuplicateId {
            id: TunnelId(0x67e5504410b1426f9247bb680e5fe0c8)
        }
        .message(),
        "Duplicate tunnel ID found: TunnelId(67e55044-10b1-426f-9247-bb680e5fe0c8)"
    );
    assert_eq!(
        ConfigError::InvalidTunnel {
            tag: "t1".to_string(),
            cause: EntryError::CliArgsEmpty
        }
        .message(),
        "Validation failed for tunnel: t1"
    );
    assert_eq!(
        ConfigError::InvalidGlobal {
            settings: SettingsError::RetentionInvalid { days: 0 }
        }
        .message(),
        "Global settings validation failed"
    );
}

#[test]
fn default_config_is_valid_and_empty() {
    let config = Config::default();
    assert_eq!(config.version, 1);
    assert_eq!(default_version(), 1);
    assert!(config.tunnels.is_empty());
    assert!(config.validate().is_ok());
    let copy = config.clone();
    assert_eq!(copy.version, config.version);
    assert_eq!(copy.global.log_directory, "./logs");
}

#[test]
fn fresh_identifiers_are_random_uuids() {
    let a = TunnelId::new();
    let b = TunnelId::default();
    assert_ne!(a, b);
    for id in [a, b] {
        assert_eq!(id.0 & 0xF000_C000_0000_0000_0000, 0x4000_8000_0000_0000_0000);
        assert_eq!(id.to_text().len(), 36);
    }
}

#[test]
fn identifier_text_is_the_hyphenated_uuid() {
    let id = TunnelId(0xa1a2a3a4b1b2c1c2d1d2d3d4d5d6d7d8);
    assert_eq!(id.to_text(), "a1a2a3a4-b1b2-c1c2-d1d2-d3d4d5d6d7d8");
    assert_eq!(
        id.to_debug_text(),
        "TunnelId(a1a2a3a4-b1b2-c1c2-d1d2-d3d4d5d6d7d8)"
    );
}

#[test]
fn modes_are_listed_and_named() {
    assert_eq!(TunnelMode::all(), vec![TunnelMode::Client, TunnelMode::Server]);
    assert_eq!(TunnelMode::Client.to_text(), "Client");
    assert_eq!(TunnelMode::Server.to_text(), "Server");
}

#[test]
fn process_id_converts_and_prints() {
    let pid = ProcessId::from(4242);
    assert_eq!(pid, ProcessId(4242));
    assert_eq!(pid.to_text(), "4242");
    assert_eq!(ProcessId(0).to_text(), "0");
}

#[test]
fn timestamp_parts_and_range() {
    assert!(Timestamp::from_parts(5, 1_000_000_000).is_none());
    let t = Timestamp::from_parts(5, 999_999_999).unwrap();
    assert_eq!(t.parts(), (5, 999_999_999));
}

#[test]
fn timestamp_text_is_rfc3339_in_utc() {
    let epoch = Timestamp::from_parts(0, 0).unwrap();
    assert_eq!(epoch.to_text().unwrap(), "1970-01-01T00:00:00Z");
    let later = Timestamp::from_parts(1_518_563_312, 500_000_000).unwrap();
    assert_eq!(later.to_text().unwrap(), "2018-02-13T23:08:32.500000000Z");
    let fine = Timestamp::from_parts(1_518_563_312, 123_456_789).unwrap();
    assert_eq!(fine.to_text().unwrap(), "2018-02-13T23:08:32.123456700Z");
    let coarse = Timestamp::from_parts(1_518_563_312, 99).unwrap();
    assert_eq!(coarse.to_text().unwrap(), "2018-02-13T23:08:32Z");
    let last = Timestamp::from_parts(253_402_300_799, 0).unwrap();
    assert_eq!(last.to_text().unwrap(), "9999-12-31T23:59:59Z");
    let beyond = Timestamp::from_parts(253_402_300_800, 0).unwrap();
    assert!(beyond.to_text().is_none());
}

#[test]
fn time_between_two_instants() {
    let a = Timestamp::from_parts(10, 900_000_000).unwrap();
    let b = Timestamp::from_parts(12, 100_000_000).unwrap();
    assert_eq!(b.since(&a), Duration::new(1, 200_000_000));
    assert_eq!(a.since(&b), Duration::new(0, 0));
    assert_eq!(a.since(&a), Duration::new(0, 0));
    let c = Timestamp::from_parts(12, 950_000_000).unwrap();
    assert_eq!(c.since(&a), Duration::new(2, 50_000_000));
    assert!(a.is_before(&b));
    assert!(!b.is_before(&a));
    assert!(!a.is_before(&a));
    assert!(a < b);
}

#[test]
fn clock_does_not_run_backwards_far() {
    let start = Timestamp::now();
    assert!(start.parts().0 > 1_600_000_000);
    assert!(start.elapsed() < Duration::from_secs(3600));
    let future = Timestamp::from_parts(start.parts().0 + 1000, 0).unwrap();
    assert_eq!(future.elapsed(), Duration::new(0, 0));
}

fn hyphenated(value: u128) -> String {
    let digits = format!("{:032x}", value);
    format!(
        "{}-{}-{}-{}-{}",
        &digits[0..8],
        &digits[8..12],
        &digits[12..16],
        &digits[16..20],
        &digits[20..32]
    )
}

#[test]
fn identifier_text_is_digits_and_hyphens_of_the_value() {
    let mut values = vec![0u128, 1, 15, 16, u128::MAX, 0x0123456789abcdef_fedcba9876543210];
    for shift in 0..128 {
        values.push(1u128 << shift);
        values.push((0xau128 << shift) | 0x5);
    }
    for _ in 0..50 {
        values.push(TunnelId::new().0);
    }
    for value in values {
        let text = TunnelId(value).to_text();
        assert_eq!(text, hyphenated(value));
        assert_eq!(text.len(), 36);
    }
    assert_eq!(
        TunnelId(0).to_text(),
        "00000000-0000-0000-0000-000000000000"
    );
    assert_eq!(
        TunnelId(u128::MAX).to_text(),
        "ffffffff-ffff-ffff-ffff-ffffffffffff"
    );
}
