use quillbert::dispatch::handle_shortcut_commands;
use quillbert::dispatch::paste_plan;
use quillbert::dispatch::DispatchPlan;
use quillbert::dispatch::PasteError;
use quillbert::query::execute_custom_prompt;
use quillbert::query::get_custom_prompts;
use quillbert::query::register_custom_prompt;
use quillbert::query::CustomPromptConfig;
use quillbert::query::PromptPlan;
use quillbert::settings::CommandType;
use quillbert::settings::ConfigError;
use quillbert::state::AppState;
use quillbert::template::render_template;
use quillbert::window::toggle_window;
use quillbert::window::open_settings_window;
use quillbert::window::tray_event_plan;
use quillbert::window::SettingsWindowAction;
use quillbert::window::TrayAction;
use quillbert::window::WindowAction;
use quillbert::window::WindowStatus;

fn custom(name: &str, provider: &str, template: &str, chord: &str) -> CustomPromptConfig {
    CustomPromptConfig {
        name: name.to_string(),
        provider_name: provider.to_string(),
        prompt_template: template.to_string(),
        shortcut: chord.to_string(),
    }
}

#[test]
fn template_substitutes_the_placeholder() {
    assert_eq!(
        render_template("Fix: {{selectedText}}", "teh cat sat"),
        "Fix: teh cat sat"
    );
}

#[test]
fn template_without_placeholder_is_unchanged() {
    assert_eq!(render_template("Fix this text", "teh cat sat"), "Fix this text");
}

#[test]
fn template_substitutes_every_occurrence() {
    assert_eq!(
        render_template("<{{selectedText}}|{{selectedText}}>", "x"),
        "<x|x>"
    );
}

#[test]
fn template_handles_partial_tokens() {
    assert_eq!(render_template("{{selectedText}", "x"), "{{selectedText}");
    assert_eq!(render_template("{{selectedText}}}", "x"), "x}");
}

#[test]
fn custom_prompts_list_only_prompt_bindings() {
    let state = AppState::new(None, true).unwrap();
    let prompts = get_custom_prompts(&state);
    let names: Vec<&str> = prompts.iter().map(|p| p.name.as_str()).collect();
    assert_eq!(names, vec!["Fix Grammar", "Summarise", "Write More"]);
    assert_eq!(prompts[0].provider_name, "default");
    assert_eq!(prompts[0].shortcut, "f");
}

#[test]
fn register_custom_prompt_confirms_and_persists() {
    let mut state = AppState::new(None, true).unwrap();
    let msg = register_custom_prompt(
        &mut state,
        custom("Translate", "default", "Translate: {{selectedText}}", "t"),
        true,
    )
    .unwrap();
    assert_eq!(msg, "Custom prompt 'Translate' registered successfully");
    let prompts = get_custom_prompts(&state);
    assert!(prompts.iter().any(|p| p.name == "Translate"));
}

#[test]
fn register_custom_prompt_replaces_by_name() {
    let mut state = AppState::new(None, true).unwrap();
    register_custom_prompt(
        &mut state,
        custom("Fix Grammar", "default", "Rewrite: {{selectedText}}", "g"),
        true,
    )
    .unwrap();
    let prompts = get_custom_prompts(&state);
    let fixed: Vec<&CustomPromptConfig> =
        prompts.iter().filter(|p| p.name == "Fix Grammar").collect();
    assert_eq!(fixed.len(), 1);
    assert_eq!(fixed[0].prompt_template, "Rewrite: {{selectedText}}");
    assert_eq!(fixed[0].shortcut, "g");
}

#[test]
fn register_custom_prompt_rejects_empty_template() {
    let mut state = AppState::new(None, true).unwrap();
    let r = register_custom_prompt(&mut state, custom("Broken", "default", "", "b"), true);
    assert!(matches!(r, Err(ConfigError::Validation { .. })));
}

#[test]
fn prompt_run_with_no_selection_is_skipped() {
    let state = AppState::new(None, true).unwrap();
    let plan = execute_custom_prompt(&state, "Fix Grammar").unwrap();
    assert_eq!(plan, PromptPlan::Skip);
    assert_eq!(state.get_latest_output(), None);
}

#[test]
fn prompt_run_with_blank_selection_is_skipped() {
    let mut state = AppState::new(None, true).unwrap();
    state.set_selected_text("  \t\n ".to_string());
    let plan = execute_custom_prompt(&state, "Fix Grammar").unwrap();
    assert_eq!(plan, PromptPlan::Skip);
    assert_eq!(state.get_latest_output(), None);
}

#[test]
fn prompt_run_renders_template_against_selection() {
    let mut state = AppState::new(None, true).unwrap();
    register_custom_prompt(
        &mut state,
        custom("Spell", "default", "Fix: {{selectedText}}", ""),
        true,
    )
    .unwrap();
    state.set_selected_text("teh cat sat".to_string());
    let plan = execute_custom_prompt(&state, "Spell").unwrap();
    match plan {
        PromptPlan::Run { config, prompt, prompt_name } => {
            assert_eq!(prompt, "Fix: teh cat sat");
            assert_eq!(prompt_name, "Spell");
            assert_eq!(config.name, "default");
        }
        other => panic!("expected a run, got {:?}", other),
    }
}

#[test]
fn prompt_run_reports_unknown_names_apart() {
    let mut state = AppState::new(None, true).unwrap();
    state.set_selected_text("text".to_string());
    // An unknown prompt name and an unknown provider both come back as
    // NotFound, but their reports tell them apart, as the two original
    // messages did.
    match execute_custom_prompt(&state, "No Such Prompt") {
        Err(ConfigError::NotFound { what }) => {
            assert_eq!(what, "Custom prompt 'No Such Prompt' not found");
        }
        other => panic!("expected a missing-prompt report, got {:?}", other),
    }
    match execute_custom_prompt(&state, "Toggle Window") {
        Err(ConfigError::Validation { field, reason }) => {
            assert_eq!(field, "command");
            assert_eq!(reason, "'Toggle Window' is not a custom prompt");
        }
        other => panic!("expected a not-a-prompt report, got {:?}", other),
    }
    register_custom_prompt(
        &mut state,
        custom("Orphan", "nobody", "Do: {{selectedText}}", ""),
        true,
    )
    .unwrap();
    match execute_custom_prompt(&state, "Orphan") {
        Err(ConfigError::NotFound { what }) => {
            assert_eq!(what, "LLM configuration not found");
        }
        other => panic!("expected a missing-provider report, got {:?}", other),
    }
}

#[test]
fn paste_with_no_prior_response_is_an_error() {
    let state = AppState::new(None, true).unwrap();
    let r = paste_plan(&state);
    assert_eq!(r, Err(PasteError::NoResponse));
    assert_eq!(
        PasteError::NoResponse.message(),
        "No response available to paste (no response found)"
    );
}

#[test]
fn paste_with_empty_response_is_an_error() {
    let mut state = AppState::new(None, true).unwrap();
    state.set_latest_output(String::new());
    assert_eq!(paste_plan(&state), Err(PasteError::EmptyResponse));
    assert_eq!(
        PasteError::EmptyResponse.message(),
        "No response available to paste (empty response)"
    );
}

#[test]
fn paste_hands_back_the_latest_output() {
    let mut state = AppState::new(None, true).unwrap();
    state.set_latest_output("answer".to_string());
    assert_eq!(paste_plan(&state), Ok("answer".to_string()));
}

#[test]
fn dispatch_covers_every_command() {
    let mut state = AppState::new(None, true).unwrap();
    assert_eq!(
        handle_shortcut_commands(&state, &CommandType::ToggleWindow),
        DispatchPlan::CaptureThenToggle
    );
    assert_eq!(
        handle_shortcut_commands(&state, &CommandType::GetCursorPosition),
        DispatchPlan::ReportCursorPosition
    );
    assert_eq!(
        handle_shortcut_commands(&state, &CommandType::GetSelectedText),
        DispatchPlan::CaptureSelection
    );
    assert_eq!(
        handle_shortcut_commands(&state, &CommandType::PasteOutput),
        DispatchPlan::PasteUnavailable(PasteError::NoResponse)
    );
    state.set_latest_output("out".to_string());
    assert_eq!(
        handle_shortcut_commands(&state, &CommandType::PasteOutput),
        DispatchPlan::Paste("out".to_string())
    );
    let prompt = CommandType::Prompt {
        provider_name: "default".to_string(),
        prompt: "p".to_string(),
    };
    assert_eq!(handle_shortcut_commands(&state, &prompt), DispatchPlan::FrontEndOnly);
}

#[test]
fn toggle_cycle_never_double_hides() {
    let (a1, s1) = toggle_window(None);
    assert_eq!(a1, WindowAction::Create);
    assert!(s1.visible && s1.focused);
    let (a2, s2) = toggle_window(Some(s1));
    assert_eq!(a2, WindowAction::Hide);
    assert!(!s2.visible);
    let (a3, s3) = toggle_window(Some(s2));
    assert_eq!(a3, WindowAction::ShowAndFocus);
    assert!(s3.visible && s3.focused);
}

#[test]
fn toggle_only_focuses_an_unfocused_window() {
    let (a, s) = toggle_window(Some(WindowStatus { visible: true, focused: false }));
    assert_eq!(a, WindowAction::FocusOnly);
    assert!(s.visible);
}

#[test]
fn settings_window_is_created_shown_or_focused() {
    assert_eq!(open_settings_window(None), SettingsWindowAction::Create);
    assert_eq!(
        open_settings_window(Some(WindowStatus { visible: false, focused: false })),
        SettingsWindowAction::ShowAndFocus
    );
    assert_eq!(
        open_settings_window(Some(WindowStatus { visible: true, focused: false })),
        SettingsWindowAction::FocusOnly
    );
}

#[test]
fn tray_menu_routes_into_the_command_paths() {
    assert_eq!(tray_event_plan("toggle"), TrayAction::ToggleMain);
    assert_eq!(tray_event_plan("settings"), TrayAction::OpenSettings);
    assert_eq!(tray_event_plan("quit"), TrayAction::Exit);
    assert_eq!(tray_event_plan("unknown"), TrayAction::Nothing);
}
