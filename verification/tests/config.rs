use quillbert::settings::CommandType;
use quillbert::settings::ConfigError;
use quillbert::settings::ProviderConfig;
use quillbert::settings::Settings;
use quillbert::settings::ShortcutConfig;
use quillbert::settings::UIConfig;
use quillbert::state::AppState;
use quillbert::store::SettingsManager;

fn provider(name: &str, backend: &str, key: &str) -> ProviderConfig {
    ProviderConfig {
        name: name.to_string(),
        provider: backend.to_string(),
        api_key: key.to_string(),
        model: "gemini-2.0-flash".to_string(),
        temperature_milli: 700,
        max_tokens: 1024,
    }
}

fn valid_settings() -> Settings {
    Settings {
        llm_providers: vec![provider("main", "google", "k1")],
        shortcuts: vec![ShortcutConfig {
            name: "Toggle Window".to_string(),
            shortcut: "cmd+shift+k".to_string(),
            command: CommandType::ToggleWindow,
        }],
        ui: UIConfig::default(),
    }
}

#[test]
fn default_document_has_stock_sections() {
    let s = Settings::default();
    assert_eq!(s.llm_providers.len(), 1);
    assert_eq!(s.llm_providers[0].name, "default");
    assert_eq!(s.llm_providers[0].provider, "google");
    assert_eq!(s.llm_providers[0].temperature_milli, 700);
    assert_eq!(s.shortcuts.len(), 5);
    assert_eq!(s.shortcuts[0].name, "Toggle Window");
    assert_eq!(s.shortcuts[0].shortcut, "cmd+shift+k");
    assert_eq!(s.ui.theme, "light");
}

#[test]
fn first_run_persists_defaults() {
    let m = SettingsManager::new(None, true).unwrap();
    assert_eq!(m.get_settings(), Settings::default());
}

#[test]
fn first_run_with_failed_write_aborts() {
    let r = SettingsManager::new(None, false);
    assert!(matches!(r, Err(ConfigError::Storage)));
}

#[test]
fn save_then_fresh_load_round_trips() {
    let mut m = SettingsManager::new(None, true).unwrap();
    let cfg = valid_settings();
    m.save(valid_settings(), true).unwrap();
    // What the store committed is what the file layer wrote; a fresh start
    // reads that document back.
    let doc = m.get_settings();
    let m2 = SettingsManager::new(Some(doc), true).unwrap();
    assert_eq!(m2.get_settings(), cfg);
}

#[test]
fn save_validates_before_touching_disk() {
    let mut m = SettingsManager::new(None, true).unwrap();
    let before = m.get_settings();
    let mut bad = valid_settings();
    bad.llm_providers[0].name = String::new();
    let r = m.save(bad, true);
    assert!(matches!(r, Err(ConfigError::Validation { .. })));
    assert_eq!(m.get_settings(), before);
}

#[test]
fn save_keeps_previous_state_on_write_failure() {
    let mut m = SettingsManager::new(None, true).unwrap();
    let before = m.get_settings();
    let r = m.save(valid_settings(), false);
    assert!(matches!(r, Err(ConfigError::Storage)));
    assert_eq!(m.get_settings(), before);
}

#[test]
fn save_rejects_duplicate_provider_names() {
    let mut m = SettingsManager::new(None, true).unwrap();
    let mut cfg = valid_settings();
    cfg.llm_providers.push(provider("main", "google", "k2"));
    let r = m.save(cfg, true);
    assert!(matches!(r, Err(ConfigError::Validation { .. })));
}

#[test]
fn add_llm_config_upserts_by_name() {
    let mut m = SettingsManager::new(None, true).unwrap();
    m.add_llm_config(provider("default", "google", "fresh-key"), true).unwrap();
    let all = m.get_all_llm_configs();
    assert_eq!(all.len(), 1);
    assert_eq!(all[0].api_key, "fresh-key");
    m.add_llm_config(provider("second", "google", "k2"), true).unwrap();
    assert_eq!(m.get_all_llm_configs().len(), 2);
}

#[test]
fn get_llm_config_finds_by_name_or_reports() {
    let m = SettingsManager::new(None, true).unwrap();
    let found = m.get_llm_config("default").unwrap();
    assert_eq!(found.model, "gemini-2.0-flash");
    match m.get_llm_config("nobody") {
        Err(ConfigError::NotFound { what }) => assert_eq!(what, "LLM configuration not found"),
        other => panic!("expected a missing-provider report, got {:?}", other),
    }
}

#[test]
fn update_ui_config_replaces_only_ui() {
    let mut m = SettingsManager::new(None, true).unwrap();
    let ui = UIConfig {
        theme: "dark".to_string(),
        window_position: Some((10, 20)),
        window_size: Some((400, 400)),
    };
    m.update_ui_config(ui, true).unwrap();
    let s = m.get_settings();
    assert_eq!(s.ui.theme, "dark");
    assert_eq!(s.ui.window_position, Some((10, 20)));
    assert_eq!(s.shortcuts, Settings::default().shortcuts);
}

#[test]
fn register_llm_round_trip_lists_exactly_one() {
    let mut state = AppState::new(None, true).unwrap();
    let p = provider("mine", "google", "secret");
    state.register_llm(p.clone(), true).unwrap();
    let listed = state.get_llm_configs();
    let mine: Vec<&ProviderConfig> = listed.iter().filter(|q| q.name == "mine").collect();
    assert_eq!(mine.len(), 1);
    assert_eq!(*mine[0], p);
}

#[test]
fn register_llm_overwrites_same_name_in_place() {
    let mut state = AppState::new(None, true).unwrap();
    state.register_llm(provider("default", "google", "k-new"), true).unwrap();
    let listed = state.get_llm_configs();
    assert_eq!(listed.len(), 1);
    assert_eq!(listed[0].api_key, "k-new");
}

#[test]
fn register_llm_unknown_backend_changes_nothing() {
    let mut state = AppState::new(None, true).unwrap();
    let before = state.get_llm_configs();
    let r = state.register_llm(provider("bad", "no-such-backend", "k"), true);
    assert!(matches!(r, Err(ConfigError::Provider { .. })));
    assert_eq!(state.get_llm_configs(), before);
}

#[test]
fn register_llm_invalid_fields_change_nothing() {
    let mut state = AppState::new(None, true).unwrap();
    let before = state.get_llm_configs();
    // Constructable backend, but an empty api key fails validation before
    // anything is persisted.
    let r = state.register_llm(provider("bad", "google", ""), true);
    assert!(matches!(r, Err(ConfigError::Validation { .. })));
    assert_eq!(state.get_llm_configs(), before);
}

#[test]
fn register_llm_write_failure_changes_nothing() {
    let mut state = AppState::new(None, true).unwrap();
    let before = state.get_llm_configs();
    let r = state.register_llm(provider("mine", "google", "k"), false);
    assert!(matches!(r, Err(ConfigError::Storage)));
    assert_eq!(state.get_llm_configs(), before);
}

#[test]
fn session_snapshots_start_empty_and_overwrite() {
    let mut state = AppState::new(None, true).unwrap();
    assert_eq!(state.get_selected_text(), None);
    assert_eq!(state.get_latest_output(), None);
    state.set_selected_text("sel".to_string());
    state.set_latest_output("out".to_string());
    assert_eq!(state.get_selected_text(), Some("sel".to_string()));
    assert_eq!(state.get_latest_output(), Some("out".to_string()));
    state.set_latest_output("out2".to_string());
    assert_eq!(state.get_latest_output(), Some("out2".to_string()));
}

#[test]
fn construction_check_is_decided_by_the_profile() {
    assert!(quillbert::state::try_construct_llm(&provider("x", "google", "k")).is_ok());
    let r = quillbert::state::try_construct_llm(&provider("x", "no-such-backend", "k"));
    assert!(matches!(r, Err(ConfigError::Provider { .. })));
}

#[test]
fn plan_add_llm_config_previews_the_committed_document() {
    let mut m = SettingsManager::new(None, true).unwrap();
    let p = provider("mine", "google", "k");
    let planned = m.plan_add_llm_config(&p).unwrap();
    m.add_llm_config(p, true).unwrap();
    assert_eq!(planned, m.get_settings());
    let bad = m.plan_add_llm_config(&provider("", "google", "k"));
    assert!(matches!(bad, Err(ConfigError::Validation { .. })));
}
