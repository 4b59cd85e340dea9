use wstunnel_manager::backend::config::{
    after_save_stage, decide_load, decide_load_given, first_save_stage, is_log_file, retention_cutoff,
    select_expired, should_delete, LoadDecision, LoadError, LogFile, ReadOutcome, SaveError,
    SaveNext, SavePaths, SaveStage,
};
use wstunnel_manager::backend::types::{
    Config, ConfigError, GlobalSettings, SettingsError, Timestamp, TunnelEntry, TunnelId,
    TunnelMode,
};

fn paths() -> SavePaths {
    SavePaths {
        target: "dir/config.yaml".to_string(),
        temp: "dir/config.tmp".to_string(),
        directory: "dir".to_string(),
    }
}

fn entry_with(id: TunnelId, tag: &str) -> TunnelEntry {
    TunnelEntry {
        id,
        tag: tag.to_string(),
        mode: TunnelMode::Client,
        cli_args: "client ws://x".to_string(),
        autostart: false,
        runtime_state: None,
    }
}

#[test]
fn saving_goes_through_the_stages_in_order() {
    let mut stage = first_save_stage();
    let mut seen = vec![stage];
    loop {
        match after_save_stage(stage, &Ok(()), &paths()).unwrap() {
            SaveNext::Do(next) => {
                seen.push(next);
                stage = next;
            }
            SaveNext::Finished => break,
        }
    }
    assert_eq!(
        seen,
        vec![
            SaveStage::Serialize,
            SaveStage::CreateDirectory,
            SaveStage::WriteTemp,
            SaveStage::OpenTemp,
            SaveStage::SyncTemp,
            SaveStage::Rename,
        ]
    );
}

#[test]
fn a_failed_stage_ends_the_save_with_its_error() {
    let failed: Result<(), String> = Err("boom".to_string());
    let error = after_save_stage(SaveStage::Serialize, &failed, &paths()).unwrap_err();
    assert!(matches!(error, SaveError::Serialize));
    assert_eq!(error.message(), "Failed to serialize config to YAML");
    let error = after_save_stage(SaveStage::CreateDirectory, &failed, &paths()).unwrap_err();
    assert!(matches!(&error, SaveError::CreateDirectory { dir } if dir == "dir"));
    assert_eq!(error.message(), "Failed to create config directory: dir");
    let error = after_save_stage(SaveStage::WriteTemp, &failed, &paths()).unwrap_err();
    assert!(matches!(&error, SaveError::WriteTemp { path } if path == "dir/config.tmp"));
    assert_eq!(
        error.message(),
        "Failed to write temporary config to dir/config.tmp"
    );
    let error = after_save_stage(SaveStage::OpenTemp, &failed, &paths()).unwrap_err();
    assert!(matches!(error, SaveError::OpenTemp));
    assert_eq!(error.message(), "Failed to open temp file for fsync");
    let error = after_save_stage(SaveStage::SyncTemp, &failed, &paths()).unwrap_err();
    assert!(matches!(error, SaveError::Sync));
    assert_eq!(error.message(), "Failed to fsync temp file");
    let error = after_save_stage(SaveStage::Rename, &failed, &paths()).unwrap_err();
    assert!(matches!(&error, SaveError::Rename { from, to }
        if from == "dir/config.tmp" && to == "dir/config.yaml"));
    assert_eq!(
        error.message(),
        "Failed to rename dir/config.tmp to dir/config.yaml"
    );
}

#[test]
fn exhausted_storage_is_told_apart_when_the_temporary_file_is_written() {
    let full: Result<(), String> = Err("No space left on device (os error 28)".to_string());
    let error = after_save_stage(SaveStage::WriteTemp, &full, &paths()).unwrap_err();
    assert!(matches!(error, SaveError::DiskFull));
    assert_eq!(
        error.message(),
        "Disk space exhausted. Cannot save configuration. Free up disk space and try again."
    );
    let error = after_save_stage(SaveStage::Rename, &full, &paths()).unwrap_err();
    assert!(matches!(error, SaveError::Rename { .. }));
}

#[test]
fn a_missing_file_is_created_with_defaults() {
    match decide_load(ReadOutcome::Missing, "c.yaml", "c.yaml.bak") {
        LoadDecision::CreateDefault { config } => {
            assert_eq!(config.version, 1);
            assert!(config.tunnels.is_empty());
            assert_eq!(config.global.log_directory, "./logs");
        }
        other => panic!("unexpected decision: {:?}", other),
    }
}

#[test]
fn an_unreadable_file_is_reported() {
    let outcome = ReadOutcome::Unreadable {
        error: "Permission denied".to_string(),
    };
    match decide_load(outcome, "c.yaml", "c.yaml.bak") {
        LoadDecision::Fail { error } => {
            assert!(matches!(&error, LoadError::ReadFailed { path } if path == "c.yaml"));
            assert_eq!(error.message(), "Failed to read config from c.yaml");
        }
        other => panic!("unexpected decision: {:?}", other),
    }
}

#[test]
fn a_file_that_does_not_parse_is_backed_up_and_replaced() {
    let outcome = ReadOutcome::Unparsable {
        error: "did not find expected key".to_string(),
    };
    match decide_load(outcome, "c.yaml", "c.yaml.bak") {
        LoadDecision::ReplaceCorrupted { config, error } => {
            assert!(config.tunnels.is_empty());
            assert_eq!(
                error.message(),
                "Config file was corrupted and has been replaced with defaults. Backup saved to c.yaml.bak. Error: did not find expected key"
            );
        }
        other => panic!("unexpected decision: {:?}", other),
    }
}

#[test]
fn a_valid_configuration_is_used() {
    let id = TunnelId::new();
    let config = Config {
        version: 1,
        global: GlobalSettings::default(),
        tunnels: vec![entry_with(id, "t1")],
    };
    match decide_load(ReadOutcome::Parsed { config }, "c.yaml", "c.yaml.bak") {
        LoadDecision::Use { config } => {
            assert_eq!(config.tunnels.len(), 1);
            assert_eq!(config.tunnels[0].id, id);
        }
        other => panic!("unexpected decision: {:?}", other),
    }
}

#[test]
fn two_tunnels_with_one_id_fail_the_load() {
    let id = TunnelId::new();
    let config = Config {
        version: 1,
        global: GlobalSettings::default(),
        tunnels: vec![entry_with(id, "t1"), entry_with(id, "t2")],
    };
    match decide_load(ReadOutcome::Parsed { config }, "c.yaml", "c.yaml.bak") {
        LoadDecision::Fail { error } => {
            assert!(matches!(
                &error,
                LoadError::ValidationFailed {
                    cause: ConfigError::DuplicateId { id: repeated },
                    ..
                } if *repeated == id
            ));
            assert_eq!(error.message(), "Config validation failed for c.yaml");
        }
        other => panic!("unexpected decision: {:?}", other),
    }
}

#[test]
fn default_file_failure_message() {
    assert_eq!(
        LoadError::CreateDefaultFailed {
            path: "c.yaml".to_string()
        }
        .message(),
        "Failed to create default config at c.yaml"
    );
}

#[test]
fn log_files_are_known_by_their_extension() {
    assert!(is_log_file("t1-42-20240131_235959.log"));
    assert!(is_log_file("a.log"));
    assert!(is_log_file("..log"));
    assert!(!is_log_file(".log"));
    assert!(!is_log_file("log"));
    assert!(!is_log_file(""));
    assert!(!is_log_file("a.log.txt"));
    assert!(!is_log_file("a.LOG"));
    assert!(!is_log_file("alog"));
}

#[test]
fn the_cutoff_lies_the_retention_window_before_now() {
    let now = Timestamp::from_parts(1_700_000_000, 123).unwrap();
    assert_eq!(retention_cutoff(&now, 1).parts(), (1_700_000_000 - 86_400, 123));
    assert_eq!(
        retention_cutoff(&now, 3650).parts(),
        (1_700_000_000 - 3650 * 86_400, 123)
    );
    assert_eq!(retention_cutoff(&now, 0).parts(), (1_700_000_000, 123));
    let early = Timestamp::from_parts(86_399, 5).unwrap();
    assert_eq!(retention_cutoff(&early, 1).parts(), (0, 0));
    assert_eq!(retention_cutoff(&now, u32::MAX).parts(), (0, 0));
}

#[test]
fn a_sweep_deletes_what_is_older_than_the_window() {
    let now = Timestamp::from_parts(1_700_000_000, 0).unwrap();
    let two_days_old = Timestamp::from_parts(1_700_000_000 - 2 * 86_400, 0).unwrap();
    let twelve_hours_old = Timestamp::from_parts(1_700_000_000 - 12 * 3600, 0).unwrap();
    let files = vec![
        LogFile {
            name: "old.log".to_string(),
            modified: Some(two_days_old),
        },
        LogFile {
            name: "recent.log".to_string(),
            modified: Some(twelve_hours_old),
        },
        LogFile {
            name: "old.txt".to_string(),
            modified: Some(two_days_old),
        },
        LogFile {
            name: "unknown.log".to_string(),
            modified: None,
        },
        LogFile {
            name: "older.log".to_string(),
            modified: Some(Timestamp::from_parts(0, 0).unwrap()),
        },
    ];
    assert_eq!(select_expired(&files, &now, 1), vec![0, 4]);
    assert_eq!(select_expired(&files, &now, 3), vec![4]);
    let cutoff = retention_cutoff(&now, 1);
    assert!(should_delete(&files[0], &cutoff));
    assert!(!should_delete(&files[1], &cutoff));
    assert!(!should_delete(&files[2], &cutoff));
    assert!(!should_delete(&files[3], &cutoff));
    let exactly = LogFile {
        name: "edge.log".to_string(),
        modified: Some(cutoff),
    };
    assert!(!should_delete(&exactly, &cutoff));
}

#[test]
fn a_configuration_that_names_a_binary_loads_where_the_binary_is() {
    let id = TunnelId::new();
    let named = || Config {
        version: 1,
        global: GlobalSettings {
            wstunnel_binary_path: Some("/opt/wstunnel/wstunnel".to_string()),
            log_directory: "/var/log/w".to_string(),
            log_retention_days: Some(30),
        },
        tunnels: vec![entry_with(id, "t1")],
    };
    match decide_load_given(ReadOutcome::Parsed { config: named() }, "c.yaml", "c.bak", true) {
        LoadDecision::Use { config } => {
            assert_eq!(config.version, 1);
            assert_eq!(
                config.global.wstunnel_binary_path.as_deref(),
                Some("/opt/wstunnel/wstunnel")
            );
            assert_eq!(config.global.log_directory, "/var/log/w");
            assert_eq!(config.global.log_retention_days, Some(30));
            assert_eq!(config.tunnels.len(), 1);
            assert_eq!(config.tunnels[0].id, id);
            assert_eq!(config.tunnels[0].tag, "t1");
            assert!(config.tunnels[0].runtime_state.is_none());
        }
        other => panic!("unexpected decision: {:?}", other),
    }
    match decide_load_given(ReadOutcome::Parsed { config: named() }, "c.yaml", "c.bak", false) {
        LoadDecision::Fail { error } => assert!(matches!(
            error,
            LoadError::ValidationFailed {
                cause: ConfigError::InvalidGlobal {
                    settings: SettingsError::BinaryNotFound { .. }
                },
                ..
            }
        )),
        other => panic!("unexpected decision: {:?}", other),
    }
    assert!(matches!(
        decide_load_given(ReadOutcome::Missing, "c.yaml", "c.bak", false),
        LoadDecision::CreateDefault { .. }
    ));
}
