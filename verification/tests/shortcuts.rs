use quillbert::chord::normalize_chord;
use quillbert::chord::parse_chord;
use quillbert::settings::CommandType;
use quillbert::settings::ConfigError;
use quillbert::settings::Settings;
use quillbert::settings::ShortcutConfig;
use quillbert::settings::UIConfig;
use quillbert::shortcut::enable_shortcuts;
use quillbert::shortcut::get_shortcuts;
use quillbert::shortcut::pending_unregister;
use quillbert::shortcut::unregister_shortcut;
use quillbert::shortcut::update_shortcut;
use quillbert::state::AppState;

fn binding(name: &str, chord: &str, command: CommandType) -> ShortcutConfig {
    ShortcutConfig { name: name.to_string(), shortcut: chord.to_string(), command }
}

fn count(haystack: &[String], needle: &str) -> usize {
    haystack.iter().filter(|c| c.as_str() == needle).count()
}

#[test]
fn chords_normalize_to_canonical_spelling() {
    assert_eq!(normalize_chord("cmd+shift+k"), Some("shift+meta+k".to_string()));
    assert_eq!(normalize_chord("shift+cmd+k"), Some("shift+meta+k".to_string()));
    assert_eq!(normalize_chord("f"), Some("f".to_string()));
    assert_eq!(normalize_chord("ctrl+ctrl+x"), Some("ctrl+x".to_string()));
    assert_eq!(normalize_chord("super+space"), Some("meta+space".to_string()));
}

#[test]
fn malformed_chords_are_rejected() {
    assert_eq!(normalize_chord(""), None);
    assert_eq!(normalize_chord("shift+"), None);
    assert_eq!(normalize_chord("+k"), None);
    assert_eq!(normalize_chord("k+shift"), None);
    assert_eq!(normalize_chord("meta"), None);
    assert!(parse_chord("not++valid").is_none());
}

#[test]
fn parse_chord_reads_flags_and_key() {
    let c = parse_chord("ctrl+alt+del").unwrap();
    assert!(c.ctrl && c.alt && !c.shift && !c.meta);
    assert_eq!(c.key, "del");
}

#[test]
fn startup_registers_enabled_os_bindings_only() {
    let mut state = AppState::new(None, true).unwrap();
    let batch = enable_shortcuts(&mut state).unwrap();
    // The three stock prompt bindings are front-end-driven and stay out.
    assert_eq!(batch, vec!["shift+meta+k".to_string(), "shift+meta+h".to_string()]);
    assert_eq!(state.os_hotkeys, batch);
}

#[test]
fn startup_reports_malformed_stored_chord() {
    let mut doc = Settings::default();
    doc.shortcuts[0].shortcut = "???+".to_string();
    let mut state = AppState::new(Some(doc), true).unwrap();
    let r = enable_shortcuts(&mut state);
    assert!(matches!(r, Err(ConfigError::ShortcutParse)));
    assert!(state.os_hotkeys.is_empty());
}

#[test]
fn startup_reports_doubly_claimed_chord() {
    let doc = Settings {
        llm_providers: Settings::default().llm_providers,
        shortcuts: vec![
            binding("A", "ctrl+k", CommandType::ToggleWindow),
            binding("B", "ctrl+k", CommandType::PasteOutput),
        ],
        ui: UIConfig::default(),
    };
    let mut state = AppState::new(Some(doc), true).unwrap();
    let r = enable_shortcuts(&mut state);
    assert!(matches!(r, Err(ConfigError::ChordInUse)));
}

#[test]
fn rebind_swaps_the_registered_chord() {
    let mut state = AppState::new(None, true).unwrap();
    enable_shortcuts(&mut state).unwrap();
    assert_eq!(
        pending_unregister(&state, &"Toggle Window".to_string()),
        Some("shift+meta+k".to_string())
    );
    let actions = update_shortcut(
        &mut state,
        binding("Toggle Window", "ctrl+j", CommandType::ToggleWindow),
        true,
    )
    .unwrap();
    assert_eq!(actions.unregister, Some("shift+meta+k".to_string()));
    assert_eq!(actions.register, Some("ctrl+j".to_string()));
    // The new chord is held exactly once and the old spelling is gone.
    assert_eq!(count(&state.os_hotkeys, "ctrl+j"), 1);
    assert_eq!(count(&state.os_hotkeys, "shift+meta+k"), 0);
    // The unrelated binding stays registered.
    assert_eq!(count(&state.os_hotkeys, "shift+meta+h"), 1);
    // And the store now holds the new spelling.
    let stored = get_shortcuts(&state);
    let toggled: Vec<&ShortcutConfig> =
        stored.iter().filter(|s| s.name == "Toggle Window").collect();
    assert_eq!(toggled.len(), 1);
    assert_eq!(toggled[0].shortcut, "ctrl+j");
}

#[test]
fn rebind_to_empty_chord_disables_the_binding() {
    let mut state = AppState::new(None, true).unwrap();
    enable_shortcuts(&mut state).unwrap();
    let actions = update_shortcut(
        &mut state,
        binding("Toggle Window", "", CommandType::ToggleWindow),
        true,
    )
    .unwrap();
    assert_eq!(actions.unregister, Some("shift+meta+k".to_string()));
    assert_eq!(actions.register, None);
    assert_eq!(count(&state.os_hotkeys, "shift+meta+k"), 0);
}

#[test]
fn rebind_rejects_malformed_chord_untouched() {
    let mut state = AppState::new(None, true).unwrap();
    enable_shortcuts(&mut state).unwrap();
    let before = state.os_hotkeys.clone();
    let r = update_shortcut(
        &mut state,
        binding("Toggle Window", "shift+", CommandType::ToggleWindow),
        true,
    );
    assert!(matches!(r, Err(ConfigError::ShortcutParse)));
    assert_eq!(state.os_hotkeys, before);
}

#[test]
fn rebind_refuses_chord_held_by_another_binding() {
    let mut state = AppState::new(None, true).unwrap();
    enable_shortcuts(&mut state).unwrap();
    // "Paste Output" holds cmd+shift+h; claim the same chord for another
    // binding: persisted, but reported and not double-registered.
    let r = update_shortcut(
        &mut state,
        binding("Toggle Window", "cmd+shift+h", CommandType::ToggleWindow),
        true,
    );
    assert!(matches!(r, Err(ConfigError::ChordInUse)));
    assert_eq!(count(&state.os_hotkeys, "shift+meta+h"), 1);
    let stored = get_shortcuts(&state);
    let toggled: Vec<&ShortcutConfig> =
        stored.iter().filter(|s| s.name == "Toggle Window").collect();
    assert_eq!(toggled[0].shortcut, "cmd+shift+h");
}

#[test]
fn rebind_creates_missing_binding() {
    let mut state = AppState::new(None, true).unwrap();
    enable_shortcuts(&mut state).unwrap();
    let actions = update_shortcut(
        &mut state,
        binding("Brand New", "alt+n", CommandType::PasteOutput),
        true,
    )
    .unwrap();
    assert_eq!(actions.unregister, None);
    assert_eq!(actions.register, Some("alt+n".to_string()));
    assert_eq!(count(&state.os_hotkeys, "alt+n"), 1);
    assert_eq!(get_shortcuts(&state).len(), 6);
}

#[test]
fn rebind_write_failure_keeps_store() {
    let mut state = AppState::new(None, true).unwrap();
    enable_shortcuts(&mut state).unwrap();
    let stored_before = get_shortcuts(&state);
    let r = update_shortcut(
        &mut state,
        binding("Toggle Window", "ctrl+j", CommandType::ToggleWindow),
        false,
    );
    assert!(matches!(r, Err(ConfigError::Storage)));
    assert_eq!(get_shortcuts(&state), stored_before);
    // The old chord already left the mirror; the startup batch re-syncs.
    assert_eq!(count(&state.os_hotkeys, "shift+meta+k"), 0);
    enable_shortcuts(&mut state).unwrap();
    assert_eq!(count(&state.os_hotkeys, "shift+meta+k"), 1);
}

#[test]
fn unregister_shortcut_drops_only_that_chord() {
    let mut state = AppState::new(None, true).unwrap();
    enable_shortcuts(&mut state).unwrap();
    unregister_shortcut(&mut state, "cmd+shift+k").unwrap();
    assert_eq!(count(&state.os_hotkeys, "shift+meta+k"), 0);
    assert_eq!(count(&state.os_hotkeys, "shift+meta+h"), 1);
    let r = unregister_shortcut(&mut state, "not a chord +");
    assert!(matches!(r, Err(ConfigError::ShortcutParse)));
}

#[test]
fn plan_update_shortcut_previews_the_committed_document() {
    let mut state = AppState::new(None, true).unwrap();
    enable_shortcuts(&mut state).unwrap();
    let b = binding("Toggle Window", "ctrl+j", CommandType::ToggleWindow);
    let planned = quillbert::shortcut::plan_update_shortcut(&state, &b).unwrap();
    update_shortcut(&mut state, b, true).unwrap();
    assert_eq!(planned, state.settings_manager.get_settings());
    let bad = quillbert::shortcut::plan_update_shortcut(
        &state,
        &binding("Toggle Window", "shift+", CommandType::ToggleWindow),
    );
    assert!(matches!(bad, Err(ConfigError::ShortcutParse)));
}
