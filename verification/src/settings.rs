//! The persisted configuration: LLM provider profiles, shortcut bindings and
//! UI preferences, together with their well-formedness rules and the default
//! document written on first run.

use vstd::prelude::*;

use crate::chord::chord_wf;
use crate::chord::chord_is_wf;

verus! {

/// A named LLM provider profile. The sampling temperature is stored in
/// thousandths (`700` stands for 0.7), so the whole profile is plain data.
#[derive(Debug, PartialEq)]
pub struct ProviderConfig {
    pub name: String,
    pub provider: String,
    pub api_key: String,
    pub model: String,
    pub temperature_milli: u32,
    pub max_tokens: u32,
}

#[verifier::ext_equal]
pub struct ProviderConfigModel {
    pub name: Seq<char>,
    pub provider: Seq<char>,
    pub api_key: Seq<char>,
    pub model: Seq<char>,
    pub temperature_milli: u32,
    pub max_tokens: u32,
}

impl View for ProviderConfig {
    type V = ProviderConfigModel;

    open spec fn view(&self) -> ProviderConfigModel {
        ProviderConfigModel {
            name: self.name@,
            provider: self.provider@,
            api_key: self.api_key@,
            model: self.model@,
            temperature_milli: self.temperature_milli,
            max_tokens: self.max_tokens,
        }
    }
}

impl DeepView for ProviderConfig {
    type V = ProviderConfigModel;

    open spec fn deep_view(&self) -> ProviderConfigModel {
        self.view()
    }
}

impl Clone for ProviderConfig {
    fn clone(&self) -> (r: Self)
        ensures
            r@ == self@,
    {
        ProviderConfig {
            name: self.name.clone(),
            provider: self.provider.clone(),
            api_key: self.api_key.clone(),
            model: self.model.clone(),
            temperature_milli: self.temperature_milli,
            max_tokens: self.max_tokens,
        }
    }
}

/// The command a shortcut binding fires.
#[derive(Debug, PartialEq)]
pub enum CommandType {
    ToggleWindow,
    GetCursorPosition,
    GetSelectedText,
    PasteOutput,
    Prompt { provider_name: String, prompt: String },
}

#[verifier::ext_equal]
pub enum CommandTypeModel {
    ToggleWindow,
    GetCursorPosition,
    GetSelectedText,
    PasteOutput,
    Prompt { provider_name: Seq<char>, prompt: Seq<char> },
}

impl View for CommandType {
    type V = CommandTypeModel;

    open spec fn view(&self) -> CommandTypeModel {
        match self {
            CommandType::ToggleWindow => CommandTypeModel::ToggleWindow,
            CommandType::GetCursorPosition => CommandTypeModel::GetCursorPosition,
            CommandType::GetSelectedText => CommandTypeModel::GetSelectedText,
            CommandType::PasteOutput => CommandTypeModel::PasteOutput,
            CommandType::Prompt { provider_name, prompt } => (CommandTypeModel::Prompt {
                provider_name: provider_name@,
                prompt: prompt@,
            }),
        }
    }
}

impl DeepView for CommandType {
    type V = CommandTypeModel;

    open spec fn deep_view(&self) -> CommandTypeModel {
        self.view()
    }
}

impl Clone for CommandType {
    fn clone(&self) -> (r: Self)
        ensures
            r@ == self@,
    {
        match self {
            CommandType::ToggleWindow => CommandType::ToggleWindow,
            CommandType::GetCursorPosition => CommandType::GetCursorPosition,
            CommandType::GetSelectedText => CommandType::GetSelectedText,
            CommandType::PasteOutput => CommandType::PasteOutput,
            CommandType::Prompt { provider_name, prompt } => (CommandType::Prompt {
                provider_name: provider_name.clone(),
                prompt: prompt.clone(),
            }),
        }
    }
}

/// A shortcut binding: a unique name, a chord spelling (empty means the
/// binding is disabled) and the command it fires.
#[derive(Debug, PartialEq)]
pub struct ShortcutConfig {
    pub name: String,
    pub shortcut: String,
    pub command: CommandType,
}

#[verifier::ext_equal]
pub struct ShortcutConfigModel {
    pub name: Seq<char>,
    pub shortcut: Seq<char>,
    pub command: CommandTypeModel,
}

impl View for ShortcutConfig {
    type V = ShortcutConfigModel;

    open spec fn view(&self) -> ShortcutConfigModel {
        ShortcutConfigModel { name: self.name@, shortcut: self.shortcut@, command: self.command@ }
    }
}

impl DeepView for ShortcutConfig {
    type V = ShortcutConfigModel;

    open spec fn deep_view(&self) -> ShortcutConfigModel {
        self.view()
    }
}

impl Clone for ShortcutConfig {
    fn clone(&self) -> (r: Self)
        ensures
            r@ == self@,
    {
        ShortcutConfig {
            name: self.name.clone(),
            shortcut: self.shortcut.clone(),
            command: self.command.clone(),
        }
    }
}

/// UI preferences: theme and the last window geometry, when known.
#[derive(Debug, PartialEq)]
pub struct UIConfig {
    pub theme: String,
    pub window_position: Option<(i32, i32)>,
    pub window_size: Option<(u32, u32)>,
}

#[verifier::ext_equal]
pub struct UIConfigModel {
    pub theme: Seq<char>,
    pub window_position: Option<(i32, i32)>,
    pub window_size: Option<(u32, u32)>,
}

impl View for UIConfig {
    type V = UIConfigModel;

    open spec fn view(&self) -> UIConfigModel {
        UIConfigModel {
            theme: self.theme@,
            window_position: self.window_position,
            window_size: self.window_size,
        }
    }
}

impl DeepView for UIConfig {
    type V = UIConfigModel;

    open spec fn deep_view(&self) -> UIConfigModel {
        self.view()
    }
}

impl Clone for UIConfig {
    fn clone(&self) -> (r: Self)
        ensures
            r@ == self@,
    {
        UIConfig {
            theme: self.theme.clone(),
            window_position: self.window_position,
            window_size: self.window_size,
        }
    }
}

/// The root configuration document.
#[derive(Debug, PartialEq)]
pub struct Settings {
    pub llm_providers: Vec<ProviderConfig>,
    pub shortcuts: Vec<ShortcutConfig>,
    pub ui: UIConfig,
}

#[verifier::ext_equal]
pub struct SettingsModel {
    pub llm_providers: Seq<ProviderConfigModel>,
    pub shortcuts: Seq<ShortcutConfigModel>,
    pub ui: UIConfigModel,
}

impl View for Settings {
    type V = SettingsModel;

    open spec fn view(&self) -> SettingsModel {
        SettingsModel {
            llm_providers: self.llm_providers.deep_view(),
            shortcuts: self.shortcuts.deep_view(),
            ui: self.ui@,
        }
    }
}

impl DeepView for Settings {
    type V = SettingsModel;

    open spec fn deep_view(&self) -> SettingsModel {
        self.view()
    }
}

/// Clones a provider list, element for element.
pub fn clone_providers(v: &Vec<ProviderConfig>) -> (r: Vec<ProviderConfig>)
    ensures
        r.deep_view() == v.deep_view(),
{
    let mut r: Vec<ProviderConfig> = Vec::new();
    let mut i: usize = 0;
    while i < v.len()
        invariant
            i <= v.len(),
            r.deep_view().len() == i as int,
            forall|k: int| 0 <= k < i ==> r.deep_view()[k] == v.deep_view()[k],
        decreases v.len() - i,
    {
        r.push(v[i].clone());
        i = i + 1;
    }
    assert(r.deep_view() =~= v.deep_view());
    r
}

/// Clones a shortcut list, element for element.
pub fn clone_shortcuts(v: &Vec<ShortcutConfig>) -> (r: Vec<ShortcutConfig>)
    ensures
        r.deep_view() == v.deep_view(),
{
    let mut r: Vec<ShortcutConfig> = Vec::new();
    let mut i: usize = 0;
    while i < v.len()
        invariant
            i <= v.len(),
            r.deep_view().len() == i as int,
            forall|k: int| 0 <= k < i ==> r.deep_view()[k] == v.deep_view()[k],
        decreases v.len() - i,
    {
        r.push(v[i].clone());
        i = i + 1;
    }
    assert(r.deep_view() =~= v.deep_view());
    r
}

impl Clone for Settings {
    fn clone(&self) -> (r: Self)
        ensures
            r@ == self@,
    {
        let r = Settings {
            llm_providers: clone_providers(&self.llm_providers),
            shortcuts: clone_shortcuts(&self.shortcuts),
            ui: self.ui.clone(),
        };
        assert(r@ =~= self@);
        r
    }
}

/// A provider profile is well-formed when its name, backend identifier and
/// API key are all non-empty.
pub open spec fn provider_wf(p: ProviderConfigModel) -> bool {
    p.name.len() > 0 && p.provider.len() > 0 && p.api_key.len() > 0
}

/// A prompt command needs a provider name and a non-empty template; the other
/// commands carry no data.
pub open spec fn command_wf(c: CommandTypeModel) -> bool {
    match c {
        CommandTypeModel::Prompt { provider_name, prompt } => provider_name.len() > 0
            && prompt.len() > 0,
        _ => true,
    }
}

/// A binding is well-formed when its name is non-empty, its chord is empty
/// (disabled) or spells a valid chord, and its command is well-formed.
pub open spec fn shortcut_entry_wf(s: ShortcutConfigModel) -> bool {
    s.name.len() > 0 && (s.shortcut.len() == 0 || chord_wf(s.shortcut)) && command_wf(s.command)
}

pub open spec fn provider_names_unique(ps: Seq<ProviderConfigModel>) -> bool {
    forall|i: int, j: int| 0 <= i < j < ps.len() ==> ps[i].name != ps[j].name
}

pub open spec fn shortcut_names_unique(ss: Seq<ShortcutConfigModel>) -> bool {
    forall|i: int, j: int| 0 <= i < j < ss.len() ==> ss[i].name != ss[j].name
}

/// The whole document is well-formed when every profile and binding is, and
/// names are unique within each section.
pub open spec fn settings_wf(s: SettingsModel) -> bool {
    &&& forall|i: int| 0 <= i < s.llm_providers.len() ==> provider_wf(#[trigger] s.llm_providers[i])
    &&& provider_names_unique(s.llm_providers)
    &&& forall|i: int| 0 <= i < s.shortcuts.len() ==> shortcut_entry_wf(#[trigger] s.shortcuts[i])
    &&& shortcut_names_unique(s.shortcuts)
}

/// The errors of the configuration subsystem.
#[derive(Debug, PartialEq)]
pub enum ConfigError {
    /// A field of the document breaks a well-formedness rule; nothing was
    /// persisted.
    Validation { field: String, reason: String },
    /// The settings file could not be written; the previous state is kept.
    Storage,
    /// A provider client could not be constructed.
    Provider { reason: String },
    /// No profile or binding of the requested name exists; `what` carries
    /// the report, which names the kind of entry (and, for a prompt, the
    /// name) that is missing.
    NotFound { what: String },
    /// A chord spelling could not be parsed.
    ShortcutParse,
    /// The chord is already claimed by another registered binding.
    ChordInUse,
}

fn providers_wf_exec(v: &Vec<ProviderConfig>) -> (r: bool)
    ensures
        r == forall|i: int| 0 <= i < v.deep_view().len() ==> provider_wf(#[trigger] v.deep_view()[i]),
{
    let mut i: usize = 0;
    while i < v.len()
        invariant
            i <= v.len(),
            forall|k: int| 0 <= k < i ==> provider_wf(#[trigger] v.deep_view()[k]),
        decreases v.len() - i,
    {
        let p = &v[i];
        if p.name.as_str().is_empty() || p.provider.as_str().is_empty()
            || p.api_key.as_str().is_empty() {
            assert(!provider_wf(v.deep_view()[i as int]));
            return false;
        }
        assert(provider_wf(v.deep_view()[i as int]));
        i = i + 1;
    }
    true
}

pub fn shortcuts_wf_exec(v: &Vec<ShortcutConfig>) -> (r: bool)
    ensures
        r == forall|i: int|
            0 <= i < v.deep_view().len() ==> shortcut_entry_wf(#[trigger] v.deep_view()[i]),
{
    let mut i: usize = 0;
    while i < v.len()
        invariant
            i <= v.len(),
            forall|k: int| 0 <= k < i ==> shortcut_entry_wf(#[trigger] v.deep_view()[k]),
        decreases v.len() - i,
    {
        let s = &v[i];
        if s.name.as_str().is_empty() {
            assert(!shortcut_entry_wf(v.deep_view()[i as int]));
            return false;
        }
        if !s.shortcut.as_str().is_empty() && !chord_is_wf(s.shortcut.as_str()) {
            assert(!shortcut_entry_wf(v.deep_view()[i as int]));
            return false;
        }
        let cmd_ok = match &s.command {
            CommandType::Prompt { provider_name, prompt } => !provider_name.as_str().is_empty()
                && !prompt.as_str().is_empty(),
            _ => true,
        };
        if !cmd_ok {
            assert(!shortcut_entry_wf(v.deep_view()[i as int]));
            return false;
        }
        assert(shortcut_entry_wf(v.deep_view()[i as int]));
        i = i + 1;
    }
    true
}

fn provider_names_unique_exec(v: &Vec<ProviderConfig>) -> (r: bool)
    ensures
        r == provider_names_unique(v.deep_view()),
{
    let mut i: usize = 0;
    while i < v.len()
        invariant
            i <= v.len(),
            forall|a: int, b: int|
                0 <= a < b < v.deep_view().len() && a < i ==> v.deep_view()[a].name
                    != v.deep_view()[b].name,
        decreases v.len() - i,
    {
        let mut j: usize = i + 1;
        while j < v.len()
            invariant
                i < j <= v.len(),
                i < v.len(),
                forall|b: int| i < b < j ==> v.deep_view()[i as int].name != v.deep_view()[b].name,
            decreases v.len() - j,
        {
            if v[i].name == v[j].name {
                assert(v.deep_view()[i as int].name == v.deep_view()[j as int].name);
                assert(i < j && (j as int) < v.deep_view().len());
                return false;
            }
            j = j + 1;
        }
        i = i + 1;
    }
    true
}

pub fn shortcut_names_unique_exec(v: &Vec<ShortcutConfig>) -> (r: bool)
    ensures
        r == shortcut_names_unique(v.deep_view()),
{
    let mut i: usize = 0;
    while i < v.len()
        invariant
            i <= v.len(),
            forall|a: int, b: int|
                0 <= a < b < v.deep_view().len() && a < i ==> v.deep_view()[a].name
                    != v.deep_view()[b].name,
        decreases v.len() - i,
    {
        let mut j: usize = i + 1;
        while j < v.len()
            invariant
                i < j <= v.len(),
                i < v.len(),
                forall|b: int| i < b < j ==> v.deep_view()[i as int].name != v.deep_view()[b].name,
            decreases v.len() - j,
        {
            if v[i].name == v[j].name {
                assert(v.deep_view()[i as int].name == v.deep_view()[j as int].name);
                assert(i < j && (j as int) < v.deep_view().len());
                return false;
            }
            j = j + 1;
        }
        i = i + 1;
    }
    true
}

/// Checks the whole document against the well-formedness rules; `Err` carries
/// the offending section and the rule it breaks.
pub fn validate_settings(s: &Settings) -> (r: Result<(), ConfigError>)
    ensures
        r is Ok <==> settings_wf(s@),
        r is Err ==> r->Err_0 is Validation,
{
    if !providers_wf_exec(&s.llm_providers) {
        return Err(ConfigError::Validation {
            field: String::from_str("llm_providers"),
            reason: String::from_str("every profile needs a name, a provider and an api key"),
        });
    }
    if !provider_names_unique_exec(&s.llm_providers) {
        return Err(ConfigError::Validation {
            field: String::from_str("llm_providers"),
            reason: String::from_str("profile names must be unique"),
        });
    }
    if !shortcuts_wf_exec(&s.shortcuts) {
        return Err(ConfigError::Validation {
            field: String::from_str("shortcuts"),
            reason: String::from_str(
                "every binding needs a name, a parseable or empty chord, and a complete command",
            ),
        });
    }
    if !shortcut_names_unique_exec(&s.shortcuts) {
        return Err(ConfigError::Validation {
            field: String::from_str("shortcuts"),
            reason: String::from_str("binding names must be unique"),
        });
    }
    Ok(())
}

/// The document written on first run: one Google profile and the stock
/// bindings.
pub open spec fn spec_default_settings() -> SettingsModel {
    SettingsModel {
        llm_providers: seq![
            ProviderConfigModel {
                name: "default"@,
                provider: "google"@,
                api_key: ""@,
                model: "gemini-2.0-flash"@,
                temperature_milli: 700u32,
                max_tokens: 1024u32,
            },
        ],
        shortcuts: seq![
            ShortcutConfigModel {
                name: "Toggle Window"@,
                shortcut: "cmd+shift+k"@,
                command: CommandTypeModel::ToggleWindow,
            },
            ShortcutConfigModel {
                name: "Paste Output"@,
                shortcut: "cmd+shift+h"@,
                command: CommandTypeModel::PasteOutput,
            },
            ShortcutConfigModel {
                name: "Fix Grammar"@,
                shortcut: "f"@,
                command: (CommandTypeModel::Prompt {
                    provider_name: "default"@,
                    prompt: "Fix the grammar, spelling, and punctuation errors in the following text, but maintain the original meaning and tone: {{selectedText}}"@,
                }),
            },
            ShortcutConfigModel {
                name: "Summarise"@,
                shortcut: "s"@,
                command: (CommandTypeModel::Prompt {
                    provider_name: "default"@,
                    prompt: "Provide a concise summary of the following text, capturing the main points and key details: {{selectedText}}"@,
                }),
            },
            ShortcutConfigModel {
                name: "Write More"@,
                shortcut: "w"@,
                command: (CommandTypeModel::Prompt {
                    provider_name: "default"@,
                    prompt: "Expand on the following text, adding more details, examples, and elaboration while maintaining the original tone and style: {{selectedText}}"@,
                }),
            },
        ],
        ui: UIConfigModel { theme: "light"@, window_position: None, window_size: None },
    }
}

impl Default for Settings {
    /// The default document, field for field.
    fn default() -> (r: Self)
        ensures
            r@ == spec_default_settings(),
    {
        let mut llm_providers: Vec<ProviderConfig> = Vec::new();
        llm_providers.push(ProviderConfig {
            name: String::from_str("default"),
            provider: String::from_str("google"),
            api_key: String::from_str(""),
            model: String::from_str("gemini-2.0-flash"),
            temperature_milli: 700,
            max_tokens: 1024,
        });
        let mut shortcuts: Vec<ShortcutConfig> = Vec::new();
        shortcuts.push(ShortcutConfig {
            name: String::from_str("Toggle Window"),
            shortcut: String::from_str("cmd+shift+k"),
            command: CommandType::ToggleWindow,
        });
        shortcuts.push(ShortcutConfig {
            name: String::from_str("Paste Output"),
            shortcut: String::from_str("cmd+shift+h"),
            command: CommandType::PasteOutput,
        });
        shortcuts.push(ShortcutConfig {
            name: String::from_str("Fix Grammar"),
            shortcut: String::from_str("f"),
            command: CommandType::Prompt {
                provider_name: String::from_str("default"),
                prompt: String::from_str(
                    "Fix the grammar, spelling, and punctuation errors in the following text, but maintain the original meaning and tone: {{selectedText}}",
                ),
            },
        });
        shortcuts.push(ShortcutConfig {
            name: String::from_str("Summarise"),
            shortcut: String::from_str("s"),
            command: CommandType::Prompt {
                provider_name: String::from_str("default"),
                prompt: String::from_str(
                    "Provide a concise summary of the following text, capturing the main points and key details: {{selectedText}}",
                ),
            },
        });
        shortcuts.push(ShortcutConfig {
            name: String::from_str("Write More"),
            shortcut: String::from_str("w"),
            command: CommandType::Prompt {
                provider_name: String::from_str("default"),
                prompt: String::from_str(
                    "Expand on the following text, adding more details, examples, and elaboration while maintaining the original tone and style: {{selectedText}}",
                ),
            },
        });
        let r = Settings { llm_providers, shortcuts, ui: UIConfig::default() };
        assert(r@ =~~= spec_default_settings());
        r
    }
}

impl Default for UIConfig {
    /// The light theme, with no remembered geometry.
    fn default() -> (r: Self)
        ensures
            r@.theme == "light"@,
            r@.window_position is None,
            r@.window_size is None,
    {
        UIConfig {
            theme: String::from_str("light"),
            window_position: None,
            window_size: None,
        }
    }
}

} // verus!
