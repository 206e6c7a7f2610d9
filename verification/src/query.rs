//! The prompt command surface: custom prompt bindings (name, provider,
//! template, chord) and the planning of a prompt run. The LLM round trip is
//! asynchronous network I/O and happens outside; this module decides whether
//! a run happens at all and exactly what is sent.

use vstd::prelude::*;

use crate::settings::CommandType;
use crate::settings::CommandTypeModel;
use crate::settings::ConfigError;
use crate::settings::ProviderConfig;
use crate::settings::SettingsModel;
use crate::settings::ShortcutConfig;
use crate::settings::ShortcutConfigModel;
use crate::chord::chord_wf;
use crate::shortcut::first_shortcut_index;
use crate::shortcut::has_shortcut;
use crate::shortcut::shortcut_section_wf;
use crate::shortcut::spec_pending_unregister;
use crate::shortcut::spec_upsert_shortcut;
use crate::shortcut::update_shortcut;
use crate::state::AppState;
use crate::template::render_template;
use crate::template::spec_render_template;

verus! {

/// A prompt request as the UI hands it over.
#[derive(Debug, PartialEq)]
pub struct PromptRequest {
    pub prompt: String,
}

/// A custom prompt binding, as the UI edits it: flattened out of a
/// `ShortcutConfig` whose command is a prompt.
#[derive(Debug, PartialEq)]
pub struct CustomPromptConfig {
    pub name: String,
    pub provider_name: String,
    pub prompt_template: String,
    pub shortcut: String,
}

#[verifier::ext_equal]
pub struct CustomPromptConfigModel {
    pub name: Seq<char>,
    pub provider_name: Seq<char>,
    pub prompt_template: Seq<char>,
    pub shortcut: Seq<char>,
}

impl View for CustomPromptConfig {
    type V = CustomPromptConfigModel;

    open spec fn view(&self) -> CustomPromptConfigModel {
        CustomPromptConfigModel {
            name: self.name@,
            provider_name: self.provider_name@,
            prompt_template: self.prompt_template@,
            shortcut: self.shortcut@,
        }
    }
}

impl DeepView for CustomPromptConfig {
    type V = CustomPromptConfigModel;

    open spec fn deep_view(&self) -> CustomPromptConfigModel {
        self.view()
    }
}

impl Clone for CustomPromptConfig {
    fn clone(&self) -> (r: Self)
        ensures
            r@ == self@,
    {
        CustomPromptConfig {
            name: self.name.clone(),
            provider_name: self.provider_name.clone(),
            prompt_template: self.prompt_template.clone(),
            shortcut: self.shortcut.clone(),
        }
    }
}

/// A finished prompt run, as handed to the UI.
#[derive(Debug, PartialEq)]
pub struct PromptResponse {
    pub prompt_name: String,
    pub response: String,
}

impl Clone for PromptResponse {
    fn clone(&self) -> (r: Self)
        ensures
            r.prompt_name@ == self.prompt_name@ && r.response@ == self.response@,
    {
        PromptResponse {
            prompt_name: self.prompt_name.clone(),
            response: self.response.clone(),
        }
    }
}

/// The binding a custom prompt stands for.
pub open spec fn spec_prompt_binding(c: CustomPromptConfigModel) -> ShortcutConfigModel {
    ShortcutConfigModel {
        name: c.name,
        shortcut: c.shortcut,
        command: CommandTypeModel::Prompt {
            provider_name: c.provider_name,
            prompt: c.prompt_template,
        },
    }
}

/// Registers (or replaces) a custom prompt binding under its name. The
/// binding is an upsert like any other; its command is front-end-driven, so
/// nothing new reaches the OS layer, but a chord the old binding held is
/// unregistered. On success the confirmation message names the prompt.
pub fn register_custom_prompt(state: &mut AppState, config: CustomPromptConfig, wrote: bool) -> (r:
    Result<String, ConfigError>)
    requires
        old(state).wf(),
    ensures
        final(state).wf(),
        final(state).selection() == old(state).selection(),
        final(state).latest_output() == old(state).latest_output(),
        ({
            let ss = old(state).settings_manager.mem().shortcuts;
            let b = spec_prompt_binding(config@);
            let newss = spec_upsert_shortcut(ss, b);
            let chord_ok = b.shortcut.len() == 0 || chord_wf(b.shortcut);
            let sec_ok = shortcut_section_wf(newss);
            let oldreg = spec_pending_unregister(ss, b.name);
            let removed_only = (forall|c: Seq<char>|
                final(state).os_chords().contains(c) <==> (old(state).os_chords().contains(c)
                    && oldreg != Some(c)));
            if !chord_ok {
                r is Err && r->Err_0 is ShortcutParse && *final(state) == *old(state)
            } else if !sec_ok {
                r is Err && r->Err_0 is Validation && *final(state) == *old(state)
            } else if !wrote {
                r is Err && r->Err_0 is Storage && removed_only && final(state).settings_manager
                    == old(state).settings_manager
            } else {
                &&& r is Ok
                &&& r->Ok_0@ == "Custom prompt '"@ + config.name@
                    + "' registered successfully"@
                &&& final(state).settings_manager.mem() == (SettingsModel {
                    shortcuts: newss,
                    ..old(state).settings_manager.mem()
                })
                &&& removed_only
            }
        }),
{
    let name = config.name.clone();
    let binding = ShortcutConfig {
        name: config.name,
        shortcut: config.shortcut,
        command: CommandType::Prompt {
            provider_name: config.provider_name,
            prompt: config.prompt_template,
        },
    };
    match update_shortcut(state, binding, wrote) {
        Err(e) => Err(e),
        Ok(_) => {
            let mut message = String::from_str("Custom prompt '");
            message.append(name.as_str());
            message.append("' registered successfully");
            Ok(message)
        },
    }
}

/// The custom prompts among the bindings, flattened, in order.
pub open spec fn spec_custom_prompts(ss: Seq<ShortcutConfigModel>) -> Seq<CustomPromptConfigModel>
    decreases ss.len(),
{
    if ss.len() == 0 {
        Seq::empty()
    } else {
        let rest = spec_custom_prompts(ss.skip(1));
        match ss[0].command {
            CommandTypeModel::Prompt { provider_name, prompt } => seq![
                CustomPromptConfigModel {
                    name: ss[0].name,
                    provider_name: provider_name,
                    prompt_template: prompt,
                    shortcut: ss[0].shortcut,
                },
            ] + rest,
            _ => rest,
        }
    }
}

/// All custom prompts currently bound.
pub fn get_custom_prompts(state: &AppState) -> (r: Vec<CustomPromptConfig>)
    ensures
        r.deep_view() == spec_custom_prompts(state.settings_manager.mem().shortcuts),
{
    let shortcuts = state.settings_manager.get_shortcuts();
    let ghost ss = state.settings_manager.mem().shortcuts;
    let n = shortcuts.len();
    let mut acc: Vec<CustomPromptConfig> = Vec::new();
    let mut i: usize = 0;
    proof {
        assert(ss.skip(0) =~= ss);
        assert(acc.deep_view() + spec_custom_prompts(ss) =~= spec_custom_prompts(ss));
    }
    while i < n
        invariant
            i <= n,
            n == shortcuts.len(),
            shortcuts.deep_view() == ss,
            spec_custom_prompts(ss) == acc.deep_view() + spec_custom_prompts(ss.skip(i as int)),
        decreases n - i,
    {
        let ghost tail = ss.skip(i as int);
        proof {
            assert(tail.skip(1) =~= ss.skip(i as int + 1));
        }
        let s = &shortcuts[i];
        match &s.command {
            CommandType::Prompt { provider_name, prompt } => {
                let ghost pre = acc.deep_view();
                acc.push(CustomPromptConfig {
                    name: s.name.clone(),
                    provider_name: provider_name.clone(),
                    prompt_template: prompt.clone(),
                    shortcut: s.shortcut.clone(),
                });
                proof {
                    assert(acc.deep_view() =~= pre + seq![acc.deep_view()[pre.len() as int]]);
                    assert(spec_custom_prompts(tail) == seq![acc.deep_view()[pre.len() as int]]
                        + spec_custom_prompts(tail.skip(1)));
                    assert(spec_custom_prompts(ss) =~= acc.deep_view() + spec_custom_prompts(
                        ss.skip(i as int + 1),
                    ));
                }
            },
            _ => {
                proof {
                    assert(spec_custom_prompts(tail) == spec_custom_prompts(tail.skip(1)));
                }
            },
        }
        i = i + 1;
    }
    proof {
        assert(ss.skip(n as int) =~= Seq::<ShortcutConfigModel>::empty());
        assert(spec_custom_prompts(ss) =~= acc.deep_view());
    }
    acc
}

pub open spec fn is_space_char(c: char) -> bool {
    c == ' ' || c == '\t' || c == '\n' || c == '\r'
}

/// Whether the text holds nothing but spacing.
pub open spec fn is_blank(s: Seq<char>) -> bool {
    forall|i: int| 0 <= i < s.len() ==> is_space_char(#[trigger] s[i])
}

/// Whether the text holds nothing but spacing.
pub fn is_blank_str(s: &str) -> (b: bool)
    ensures
        b == is_blank(s@),
{
    let n = s.unicode_len();
    let mut i: usize = 0;
    while i < n
        invariant
            i <= n,
            n == s@.len(),
            forall|k: int| 0 <= k < i ==> is_space_char(#[trigger] s@[k]),
        decreases n - i,
    {
        let c = s.get_char(i);
        if !(c == ' ' || c == '\t' || c == '\n' || c == '\r') {
            assert(!is_space_char(s@[i as int]));
            return false;
        }
        i = i + 1;
    }
    true
}

/// What a prompt command comes to: nothing (no usable selection), or one
/// LLM call with a fully rendered prompt against a resolved profile.
#[derive(Debug, PartialEq)]
pub enum PromptPlan {
    Skip,
    Run { config: ProviderConfig, prompt: String, prompt_name: String },
}

/// Plans the run of the custom prompt named `prompt_name`, against the
/// selection snapshot taken at dispatch time.
///
/// With no selection, or a blank one, the plan is `Skip`: the prompt engine
/// is not to be invoked and the latest output stays (the state is not even
/// borrowed mutably). Otherwise the template's `{{selectedText}}` token is
/// replaced by the selection and the named provider resolved. An unknown
/// prompt name and an unknown provider are both `NotFound`, under reports
/// that tell them apart; a binding that is no prompt is `Validation`.
pub fn execute_custom_prompt(state: &AppState, prompt_name: &str) -> (r: Result<
    PromptPlan,
    ConfigError,
>)
    ensures
        ({
            let ss = state.settings_manager.mem().shortcuts;
            if !has_shortcut(ss, prompt_name@) {
                r is Err && (r->Err_0 matches ConfigError::NotFound { what } && what@
                    == "Custom prompt '"@ + prompt_name@ + "' not found"@)
            } else {
                match ss[first_shortcut_index(ss, prompt_name@)].command {
                    CommandTypeModel::Prompt { provider_name, prompt } => {
                        let blank = state.selection() is None || is_blank(
                            state.selection()->Some_0,
                        );
                        if blank {
                            r == Ok::<PromptPlan, ConfigError>(PromptPlan::Skip)
                        } else {
                            let rendered = spec_render_template(
                                prompt,
                                state.selection()->Some_0,
                            );
                            let ps = state.settings_manager.mem().llm_providers;
                            &&& (r is Ok <==> has_provider(ps, provider_name))
                            &&& r is Err ==> (r->Err_0 matches ConfigError::NotFound { what }
                                && what@ == "LLM configuration not found"@)
                            &&& r is Ok ==> (r->Ok_0 matches PromptPlan::Run {
                                config,
                                prompt: sent,
                                prompt_name: pn,
                            } && sent@ == rendered && pn@ == prompt_name@ && (exists|i: int|
                                0 <= i < ps.len() && #[trigger] ps[i] == config@ && ps[i].name
                                    == provider_name && (forall|k: int|
                                    0 <= k < i ==> ps[k].name != provider_name)))
                        }
                    },
                    _ => r is Err && (r->Err_0 matches ConfigError::Validation { field, reason }
                        && field@ == "command"@ && reason@ == "'"@ + prompt_name@
                        + "' is not a custom prompt"@),
                }
            }
        }),
{
    let wanted = prompt_name.to_owned();
    let shortcuts = state.settings_manager.get_shortcuts();
    let ghost ss = state.settings_manager.mem().shortcuts;
    match crate::shortcut::find_shortcut_index(&shortcuts, &wanted) {
        None => {
            let mut what = String::from_str("Custom prompt '");
            what.append(wanted.as_str());
            what.append("' not found");
            Err(ConfigError::NotFound { what })
        },
        Some(j) => {
            proof {
                crate::shortcut::lemma_first_shortcut_agrees(ss, prompt_name@, j as int);
            }
            let e = &shortcuts[j];
            match &e.command {
                CommandType::Prompt { provider_name, prompt } => {
                    match state.get_selected_text() {
                        None => Ok(PromptPlan::Skip),
                        Some(text) => {
                            if is_blank_str(text.as_str()) {
                                Ok(PromptPlan::Skip)
                            } else {
                                let rendered = render_template(prompt.as_str(), text.as_str());
                                match state.settings_manager.get_llm_config(
                                    provider_name.as_str(),
                                ) {
                                    Err(err) => Err(err),
                                    Ok(config) => Ok(PromptPlan::Run {
                                        config,
                                        prompt: rendered,
                                        prompt_name: wanted,
                                    }),
                                }
                            }
                        },
                    }
                },
                _ => {
                    let mut reason = String::from_str("'");
                    reason.append(wanted.as_str());
                    reason.append("' is not a custom prompt");
                    Err(ConfigError::Validation { field: String::from_str("command"), reason })
                },
            }
        },
    }
}

/// Whether some profile carries this name.
pub open spec fn has_provider(ps: Seq<crate::settings::ProviderConfigModel>, name: Seq<char>) -> bool {
    exists|i: int| 0 <= i < ps.len() && (#[trigger] ps[i]).name == name
}

} // verus!
