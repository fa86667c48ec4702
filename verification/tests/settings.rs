use cmd_ime::ime::sources::{ALPHANUMERIC, HIRAGANA};
use cmd_ime::settings::{AppInfo, KeyMappingConfig, Settings};

#[test]
fn default_settings_include_two_mappings() {
    let settings = Settings::default();
    assert_eq!(settings.mappings.len(), 2);
    assert!(settings.mappings.iter().any(|m| m.input_key == "Command_L"));
    assert!(settings.mappings.iter().any(|m| m.input_key == "Command_R"));
}

#[test]
fn save_and_load_round_trip() {
    let mut settings = Settings::default();
    settings.launch_at_startup = false;
    settings.add_excluded_app("Test".into(), "com.example.test".into());

    let loaded = Settings::load(Some(settings.clone()));
    assert!(!loaded.launch_at_startup);
    assert_eq!(loaded.excluded_apps.len(), 1);
    assert_eq!(loaded.excluded_apps[0].bundle_id, "com.example.test");
}

#[test]
fn default_settings_hold_the_documented_values() {
    let settings = Settings::default();
    assert!(settings.launch_at_startup);
    assert!(settings.check_updates_on_startup);
    assert!(settings.excluded_apps.is_empty());

    assert_eq!(settings.mappings[0].input_key, "Command_L");
    assert_eq!(settings.mappings[0].output_source, ALPHANUMERIC);
    assert_eq!(
        settings.mappings[0].output_source,
        "com.apple.inputmethod.Kotoeri.RomajiTyping.Roman"
    );
    assert!(settings.mappings[0].enabled);

    assert_eq!(settings.mappings[1].input_key, "Command_R");
    assert_eq!(settings.mappings[1].output_source, HIRAGANA);
    assert_eq!(
        settings.mappings[1].output_source,
        "com.apple.inputmethod.Kotoeri.RomajiTyping.Japanese"
    );
    assert!(settings.mappings[1].enabled);
}

#[test]
fn load_falls_back_to_defaults_without_a_stored_record() {
    let loaded = Settings::load(None);
    assert!(loaded.launch_at_startup);
    assert!(loaded.check_updates_on_startup);
    assert_eq!(loaded.mappings.len(), 2);
    assert_eq!(loaded.mappings[0].input_key, "Command_L");
    assert_eq!(loaded.mappings[1].input_key, "Command_R");
    assert!(loaded.excluded_apps.is_empty());
}

#[test]
fn load_returns_the_stored_record_as_it_is() {
    let stored = Settings {
        launch_at_startup: false,
        check_updates_on_startup: true,
        mappings: vec![KeyMappingConfig {
            input_key: "Command_R".to_string(),
            output_source: "custom.source".to_string(),
            enabled: false,
        }],
        excluded_apps: vec![AppInfo {
            name: "Recorder".to_string(),
            bundle_id: "com.obsproject.obs-studio".to_string(),
            enabled: false,
        }],
    };
    let loaded = Settings::load(Some(stored));
    assert!(!loaded.launch_at_startup);
    assert!(loaded.check_updates_on_startup);
    assert_eq!(loaded.mappings.len(), 1);
    assert_eq!(loaded.mappings[0].input_key, "Command_R");
    assert_eq!(loaded.mappings[0].output_source, "custom.source");
    assert!(!loaded.mappings[0].enabled);
    assert_eq!(loaded.excluded_apps.len(), 1);
    assert_eq!(loaded.excluded_apps[0].name, "Recorder");
    assert_eq!(loaded.excluded_apps[0].bundle_id, "com.obsproject.obs-studio");
    assert!(!loaded.excluded_apps[0].enabled);
}

#[test]
fn add_excluded_app_appends_an_enabled_entry() {
    let mut settings = Settings::default();
    settings.add_excluded_app("First".to_string(), "com.example.first".to_string());
    settings.add_excluded_app("Second".to_string(), "com.example.second".to_string());
    settings.add_excluded_app("First again".to_string(), "com.example.first".to_string());

    assert_eq!(settings.excluded_apps.len(), 3);
    assert_eq!(settings.excluded_apps[0].name, "First");
    assert_eq!(settings.excluded_apps[0].bundle_id, "com.example.first");
    assert!(settings.excluded_apps[0].enabled);
    assert_eq!(settings.excluded_apps[1].name, "Second");
    assert_eq!(settings.excluded_apps[1].bundle_id, "com.example.second");
    assert!(settings.excluded_apps[1].enabled);
    assert_eq!(settings.excluded_apps[2].name, "First again");
    assert_eq!(settings.excluded_apps[2].bundle_id, "com.example.first");
    assert_eq!(settings.mappings.len(), 2);
    assert!(settings.launch_at_startup);
}

#[test]
fn remove_excluded_app_drops_every_entry_with_the_identifier() {
    let mut settings = Settings::default();
    settings.check_updates_on_startup = false;
    settings.add_excluded_app("A".to_string(), "com.example.a".to_string());
    settings.add_excluded_app("B".to_string(), "com.example.b".to_string());
    settings.add_excluded_app("A2".to_string(), "com.example.a".to_string());
    settings.add_excluded_app("C".to_string(), "com.example.c".to_string());
    settings.add_excluded_app("A3".to_string(), "com.example.a".to_string());

    settings.remove_excluded_app("com.example.a");

    let left: Vec<&str> = settings.excluded_apps.iter().map(|a| a.name.as_str()).collect();
    assert_eq!(left, vec!["B", "C"]);
    assert_eq!(settings.excluded_apps[0].bundle_id, "com.example.b");
    assert_eq!(settings.excluded_apps[1].bundle_id, "com.example.c");
    assert_eq!(settings.mappings.len(), 2);
    assert!(!settings.check_updates_on_startup);
}

#[test]
fn remove_excluded_app_matches_identifiers_exactly() {
    let mut settings = Settings::default();
    settings.add_excluded_app("A".to_string(), "com.example.app".to_string());
    settings.add_excluded_app("B".to_string(), "com.example.App".to_string());
    settings.add_excluded_app("C".to_string(), "com.example.app2".to_string());

    settings.remove_excluded_app("com.example");
    assert_eq!(settings.excluded_apps.len(), 3);

    settings.remove_excluded_app("com.example.app");
    let left: Vec<&str> = settings.excluded_apps.iter().map(|a| a.name.as_str()).collect();
    assert_eq!(left, vec!["B", "C"]);

    settings.remove_excluded_app("not.listed");
    assert_eq!(settings.excluded_apps.len(), 2);
}

#[test]
fn remove_excluded_app_on_an_empty_list_changes_nothing() {
    let mut settings = Settings::default();
    settings.remove_excluded_app("com.example.a");
    assert!(settings.excluded_apps.is_empty());
    assert_eq!(settings.mappings.len(), 2);
}

#[test]
fn clones_keep_every_field() {
    let mut settings = Settings::default();
    settings.launch_at_startup = false;
    settings.mappings[1].enabled = false;
    settings.add_excluded_app("Game".to_string(), "com.example.game".to_string());
    settings.excluded_apps[0].enabled = false;

    let copy = settings.clone();
    assert_eq!(copy.launch_at_startup, settings.launch_at_startup);
    assert_eq!(copy.check_updates_on_startup, settings.check_updates_on_startup);
    assert_eq!(copy.mappings.len(), 2);
    for (a, b) in copy.mappings.iter().zip(settings.mappings.iter()) {
        assert_eq!(a.input_key, b.input_key);
        assert_eq!(a.output_source, b.output_source);
        assert_eq!(a.enabled, b.enabled);
    }
    assert_eq!(copy.excluded_apps.len(), 1);
    assert_eq!(copy.excluded_apps[0].name, "Game");
    assert_eq!(copy.excluded_apps[0].bundle_id, "com.example.game");
    assert!(!copy.excluded_apps[0].enabled);

    let entry = settings.mappings[0].clone();
    assert_eq!(entry.input_key, "Command_L");
    let app = settings.excluded_apps[0].clone();
    assert_eq!(app.bundle_id, "com.example.game");
}
