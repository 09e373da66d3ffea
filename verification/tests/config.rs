use doubao_voice_input::config::{
    AppConfig, AsrConfig, FloatingButtonConfig, GeneralConfig, HotkeyConfig, TextInsertionConfig,
};

const LEGACY: &str = "[asr]\nlow_latency_mode = true\nenable_asr_twopass = true\n\
    enable_asr_threepass = false\ninterim_insert = true\ninterim_update_interval_ms = 150\n\
    max_interim_rollback_chars = 6\nfinal_drain_timeout_ms = 1500\n\n[text_insertion]\n\
    clipboard_threshold_chars = 8\nclipboard_restore_delay_ms = 80\n";

const CURRENT: &str = "[asr]\nlow_latency_mode = false\nenable_asr_twopass = false\n\
    enable_asr_threepass = false\ninterim_insert = true\ninterim_update_interval_ms = 150\n\
    max_interim_rollback_chars = 6\nfinal_drain_timeout_ms = 1500\n\n[text_insertion]\n\
    clipboard_threshold_chars = 8\nclipboard_restore_delay_ms = 350\n";

fn legacy() -> AppConfig {
    let mut config = AppConfig::default();
    config.asr.low_latency_mode = true;
    config.asr.enable_asr_twopass = true;
    config.text_insertion.clipboard_restore_delay_ms = 80;
    config
}

#[test]
fn defaults() {
    let general = GeneralConfig::default();
    assert!(!general.auto_start);
    assert_eq!(general.language, "zh-CN");

    let hotkey = HotkeyConfig::default();
    assert_eq!(hotkey.mode, "tap_hold");
    assert_eq!(hotkey.combo_key, "Ctrl+Shift+V");
    assert_eq!(hotkey.double_tap_key, "Ctrl");
    assert_eq!(hotkey.double_tap_interval, 300);
    assert_eq!(hotkey.tap_hold_key, "RightAlt");
    assert_eq!(hotkey.tap_hold_threshold, 300);

    assert_eq!(
        FloatingButtonConfig::default(),
        FloatingButtonConfig { enabled: true, position_x: 100, position_y: 100 }
    );
    assert_eq!(
        AsrConfig::default(),
        AsrConfig {
            vad_enabled: true,
            low_latency_mode: false,
            enable_asr_twopass: false,
            enable_asr_threepass: false,
            interim_insert: true,
            interim_update_interval_ms: 150,
            max_interim_rollback_chars: 6,
            final_drain_timeout_ms: 1500,
        }
    );

    let text_insertion = TextInsertionConfig::default();
    assert_eq!(text_insertion.mode, "auto");
    assert_eq!(text_insertion.clipboard_threshold_chars, 8);
    assert_eq!(text_insertion.clipboard_restore_delay_ms, 350);
}

#[test]
fn only_tap_hold_is_in_use() {
    for mode in ["combo", "double_tap", "tap_hold", "other"] {
        let config = HotkeyConfig {
            mode: mode.to_string(),
            tap_hold_key: "F9".to_string(),
            tap_hold_threshold: 250,
            ..HotkeyConfig::default()
        };
        let in_use = config.in_use();
        assert_eq!(in_use.mode, "tap_hold");
        assert_eq!(in_use.combo_key, "Ctrl+Shift+V");
        assert_eq!(in_use.double_tap_key, "Ctrl");
        assert_eq!(in_use.double_tap_interval, 300);
        assert_eq!(in_use.tap_hold_key, "F9");
        assert_eq!(in_use.tap_hold_threshold, 250);
    }
}

#[test]
fn missing_file_gives_saved_defaults() {
    let (config, save) = AppConfig::load_or_default(None);
    assert!(save);
    assert_eq!(config.asr, AsrConfig::default());
    assert_eq!(config.hotkey.tap_hold_key, "RightAlt");
}

#[test]
fn legacy_settings_are_made_safe() {
    let (config, save) = AppConfig::load_or_default(Some((legacy(), LEGACY)));
    assert!(save);
    assert!(!config.asr.low_latency_mode);
    assert!(!config.asr.enable_asr_twopass);
    assert!(config.asr.interim_insert);
    assert_eq!(config.text_insertion.clipboard_restore_delay_ms, 350);
}

#[test]
fn current_file_is_left_alone() {
    let mut config = AppConfig::default();
    config.general.language = "en-US".to_string();
    config.floating_button.position_x = -7;
    let (loaded, save) = AppConfig::load_or_default(Some((config, CURRENT)));
    assert!(!save);
    assert_eq!(loaded.general.language, "en-US");
    assert_eq!(loaded.floating_button.position_x, -7);
    assert_eq!(loaded.asr, AsrConfig::default());
}

#[test]
fn legacy_profile_counts_as_a_whole() {
    let content = LEGACY.replace("interim_insert = true", "interim_insert = false");
    let mut config = legacy();
    assert!(config.apply_safe_migrations(&content));
    assert!(config.asr.low_latency_mode);
    assert!(config.asr.enable_asr_twopass);
    assert_eq!(config.text_insertion.clipboard_restore_delay_ms, 350);
}

#[test]
fn longer_delay_is_kept() {
    let content = CURRENT.replace("delay_ms = 350", "delay_ms = 800");
    let mut config = AppConfig::default();
    config.text_insertion.clipboard_restore_delay_ms = 800;
    assert!(!config.apply_safe_migrations(&content));
    assert_eq!(config.text_insertion.clipboard_restore_delay_ms, 800);
}

#[test]
fn migrating_twice_changes_nothing_more() {
    let mut once = legacy();
    assert!(once.apply_safe_migrations(LEGACY));
    let mut twice = once.clone();
    assert!(twice.apply_safe_migrations(LEGACY));
    assert_eq!(twice.asr, once.asr);
    assert_eq!(twice.text_insertion.clipboard_restore_delay_ms, 350);
    assert_eq!(once.text_insertion.clipboard_restore_delay_ms, 350);
}

#[test]
fn migration_leaves_other_settings() {
    let mut config = legacy();
    config.general.auto_start = true;
    config.hotkey.mode = "combo".to_string();
    config.floating_button.enabled = false;
    config.asr.vad_enabled = false;
    config.asr.max_interim_rollback_chars = 2;
    config.text_insertion.mode = "clipboard".to_string();
    config.text_insertion.clipboard_threshold_chars = 3;
    config.apply_safe_migrations(LEGACY);
    assert!(config.general.auto_start);
    assert_eq!(config.hotkey.mode, "combo");
    assert!(!config.floating_button.enabled);
    assert!(!config.asr.vad_enabled);
    assert_eq!(config.asr.max_interim_rollback_chars, 2);
    assert_eq!(config.text_insertion.mode, "clipboard");
    assert_eq!(config.text_insertion.clipboard_threshold_chars, 3);
}

#[test]
fn every_added_setting_is_asked_for() {
    let config = AppConfig::default();
    assert!(!config.needs_migration(CURRENT));
    for key in [
        "low_latency_mode",
        "enable_asr_twopass",
        "enable_asr_threepass",
        "interim_insert",
        "interim_update_interval_ms",
        "max_interim_rollback_chars",
        "final_drain_timeout_ms",
        "[text_insertion]",
        "clipboard_threshold_chars",
        "clipboard_restore_delay_ms",
    ] {
        assert!(config.needs_migration(&CURRENT.replace(key, "")), "{key}");
    }
    assert!(config.needs_migration(""));
}

/// The file that the `toml` crate writes of a configuration.
fn file_of(config: &AppConfig) -> String {
    let text = |s: &str| toml::Value::String(s.to_string());
    let number = |n: i64| toml::Value::Integer(n);
    let flag = |b: bool| toml::Value::Boolean(b);
    let section = |entries: Vec<(&str, toml::Value)>| {
        let mut table = toml::Table::new();
        for (key, value) in entries {
            table.insert(key.to_string(), value);
        }
        toml::Value::Table(table)
    };
    let (general, hotkey, button) = (&config.general, &config.hotkey, &config.floating_button);
    let (asr, insertion) = (&config.asr, &config.text_insertion);
    let mut file = toml::Table::new();
    file.insert(
        "general".to_string(),
        section(vec![
            ("auto_start", flag(general.auto_start)),
            ("language", text(&general.language)),
        ]),
    );
    file.insert(
        "hotkey".to_string(),
        section(vec![
            ("mode", text(&hotkey.mode)),
            ("combo_key", text(&hotkey.combo_key)),
            ("double_tap_key", text(&hotkey.double_tap_key)),
            ("double_tap_interval", number(hotkey.double_tap_interval as i64)),
            ("tap_hold_key", text(&hotkey.tap_hold_key)),
            ("tap_hold_threshold", number(hotkey.tap_hold_threshold as i64)),
        ]),
    );
    file.insert(
        "floating_button".to_string(),
        section(vec![
            ("enabled", flag(button.enabled)),
            ("position_x", number(button.position_x as i64)),
            ("position_y", number(button.position_y as i64)),
        ]),
    );
    file.insert(
        "asr".to_string(),
        section(vec![
            ("vad_enabled", flag(asr.vad_enabled)),
            ("low_latency_mode", flag(asr.low_latency_mode)),
            ("enable_asr_twopass", flag(asr.enable_asr_twopass)),
            ("enable_asr_threepass", flag(asr.enable_asr_threepass)),
            ("interim_insert", flag(asr.interim_insert)),
            ("interim_update_interval_ms", number(asr.interim_update_interval_ms as i64)),
            ("max_interim_rollback_chars", number(asr.max_interim_rollback_chars as i64)),
            ("final_drain_timeout_ms", number(asr.final_drain_timeout_ms as i64)),
        ]),
    );
    file.insert(
        "text_insertion".to_string(),
        section(vec![
            ("mode", text(&insertion.mode)),
            ("clipboard_threshold_chars", number(insertion.clipboard_threshold_chars as i64)),
            ("clipboard_restore_delay_ms", number(insertion.clipboard_restore_delay_ms as i64)),
        ]),
    );
    toml::to_string_pretty(&file).unwrap()
}

#[test]
fn saved_settings_are_read_back() {
    for bits in 0..16u32 {
        for delay in [0, 8, 79, 80, 81, 350, 800, 8000] {
            let mut config = AppConfig::default();
            config.general.language = "en-US".to_string();
            config.asr.low_latency_mode = bits & 1 != 0;
            config.asr.enable_asr_twopass = bits & 2 != 0;
            config.asr.enable_asr_threepass = bits & 4 != 0;
            config.asr.interim_insert = bits & 8 != 0;
            config.text_insertion.clipboard_restore_delay_ms = delay;
            let legacy = bits == 1 + 2 + 8;
            let content = file_of(&config);
            let (loaded, save) = AppConfig::load_or_default(Some((config.clone(), &content)));
            let expected = AsrConfig {
                low_latency_mode: config.asr.low_latency_mode && !legacy,
                enable_asr_twopass: config.asr.enable_asr_twopass && !legacy,
                ..config.asr
            };
            assert_eq!(loaded.asr, expected);
            let expected = if delay == 80 { 350 } else { delay };
            assert_eq!(loaded.text_insertion.clipboard_restore_delay_ms, expected);
            assert_eq!(loaded.general.language, "en-US");
            assert_eq!(save, legacy || delay == 80);
            let content = file_of(&loaded);
            assert!(!AppConfig::load_or_default(Some((loaded, &content))).1);
        }
    }
}
