//! The configuration store: the single in-memory mirror of the settings
//! document, kept consistent with the settings file.
//!
//! The store itself performs no I/O. The caller reads and writes the file and
//! reports each write's outcome through the `wrote` argument; the store
//! validates first, and commits the mirror only when the write succeeded, so
//! a failed write leaves the previous state in force and validation failures
//! never reach the disk at all.

use vstd::prelude::*;

use crate::settings::ConfigError;
use crate::settings::ProviderConfig;
use crate::settings::ProviderConfigModel;
use crate::settings::Settings;
use crate::settings::SettingsModel;
use crate::settings::ShortcutConfig;
use crate::settings::UIConfig;
use crate::settings::clone_providers;
use crate::settings::clone_shortcuts;
use crate::settings::provider_wf;
use crate::settings::settings_wf;
use crate::settings::shortcut_entry_wf;
use crate::settings::shortcut_names_unique;
use crate::settings::shortcut_names_unique_exec;
use crate::settings::shortcuts_wf_exec;
use crate::settings::spec_default_settings;
use crate::settings::validate_settings;

verus! {

/// Removes every profile named `name`, keeping the order of the rest.
pub open spec fn spec_remove_provider(
    ps: Seq<ProviderConfigModel>,
    name: Seq<char>,
) -> Seq<ProviderConfigModel>
    decreases ps.len(),
{
    if ps.len() == 0 {
        Seq::empty()
    } else {
        let rest = spec_remove_provider(ps.skip(1), name);
        if ps[0].name == name {
            rest
        } else {
            seq![ps[0]] + rest
        }
    }
}

/// Re-registering a name overwrites in place: the old entries of that name
/// leave, the new profile goes to the back.
pub open spec fn spec_upsert_provider(
    ps: Seq<ProviderConfigModel>,
    p: ProviderConfigModel,
) -> Seq<ProviderConfigModel> {
    spec_remove_provider(ps, p.name).push(p)
}

/// No profile named `name` survives its removal.
pub proof fn lemma_remove_provider_no_name(ps: Seq<ProviderConfigModel>, name: Seq<char>)
    ensures
        forall|i: int|
            0 <= i < spec_remove_provider(ps, name).len() ==> (#[trigger] spec_remove_provider(
                ps,
                name,
            )[i]).name != name,
    decreases ps.len(),
{
    if ps.len() > 0 {
        lemma_remove_provider_no_name(ps.skip(1), name);
        let r = spec_remove_provider(ps, name);
        let rest = spec_remove_provider(ps.skip(1), name);
        assert forall|i: int| 0 <= i < r.len() implies (#[trigger] r[i]).name != name by {
            if ps[0].name == name {
                assert(r[i] == rest[i]);
            } else {
                if i == 0 {
                    assert(r[0] == ps[0]);
                } else {
                    assert(r[i] == rest[i - 1]);
                }
            }
        }
    }
}

/// Profiles of other names are untouched by a removal.
pub proof fn lemma_remove_provider_keeps_others(ps: Seq<ProviderConfigModel>, name: Seq<char>)
    ensures
        forall|p: ProviderConfigModel|
            p.name != name ==> (spec_remove_provider(ps, name).contains(p) <==> ps.contains(p)),
    decreases ps.len(),
{
    if ps.len() == 0 {
    } else {
        lemma_remove_provider_keeps_others(ps.skip(1), name);
        assert forall|p: ProviderConfigModel| p.name != name implies (spec_remove_provider(
            ps,
            name,
        ).contains(p) <==> ps.contains(p)) by {
            let r = spec_remove_provider(ps, name);
            let rest = spec_remove_provider(ps.skip(1), name);
            if ps.contains(p) {
                let i = choose|i: int| 0 <= i < ps.len() && ps[i] == p;
                if i == 0 {
                    if ps[0].name != name {
                        assert(r[0] == p);
                    }
                } else {
                    assert(ps.skip(1)[i - 1] == p);
                    assert(ps.skip(1).contains(p));
                    assert(rest.contains(p));
                    let k = choose|k: int| 0 <= k < rest.len() && rest[k] == p;
                    if ps[0].name == name {
                        assert(r[k] == p);
                    } else {
                        assert(r[k + 1] == p);
                    }
                }
            }
            if r.contains(p) {
                let i = choose|i: int| 0 <= i < r.len() && r[i] == p;
                if ps[0].name == name {
                    assert(rest[i] == p);
                    assert(ps.skip(1).contains(p));
                    let k = choose|k: int| 0 <= k < ps.skip(1).len() && ps.skip(1)[k] == p;
                    assert(ps[k + 1] == p);
                } else {
                    if i == 0 {
                        assert(ps[0] == p);
                    } else {
                        assert(rest[i - 1] == p);
                        assert(ps.skip(1).contains(p));
                        let k = choose|k: int| 0 <= k < ps.skip(1).len() && ps.skip(1)[k] == p;
                        assert(ps[k + 1] == p);
                    }
                }
            }
        }
    }
}

/// Law: registering a profile leaves the provider list with exactly one
/// entry under that name — the new profile itself, at the back — whatever
/// was there before. `register_llm` commits exactly this upsert on success,
/// and `get_all_llm_configs` returns the list unchanged, so a registration
/// followed by a listing shows the profile once, field for field.
pub proof fn lemma_register_then_list(ps: Seq<ProviderConfigModel>, p: ProviderConfigModel)
    ensures
        ({
            let qs = spec_upsert_provider(ps, p);
            &&& qs.len() >= 1
            &&& qs[qs.len() - 1] == p
            &&& forall|i: int| 0 <= i < qs.len() - 1 ==> (#[trigger] qs[i]).name != p.name
        }),
{
    lemma_remove_provider_no_name(ps, p.name);
}

/// Law: `save(cfg)` followed by a fresh `load` (a restart) yields a document
/// equal to `cfg`. A successful `save(cfg, true)` ensures the file's model
/// equals `cfg`'s; the file layer reads back a document `doc` with that
/// model; and `SettingsManager::new(Some(doc), _)` ensures the fresh mirror
/// equals `doc`'s model — so the reloaded mirror is exactly `cfg`.
pub proof fn lemma_save_then_fresh_load(
    saved: &SettingsManager,
    cfg: &Settings,
    doc: &Settings,
    reloaded: &SettingsManager,
)
    requires
        saved.on_disk() == cfg@,
        doc@ == saved.on_disk(),
        reloaded.mem() == doc@,
    ensures
        reloaded.mem() == cfg@,
{
}

/// Removes every profile named `name` from the list, keeping the order of the
/// rest.
fn remove_provider(v: &Vec<ProviderConfig>, name: &String) -> (r: Vec<ProviderConfig>)
    ensures
        r.deep_view() == spec_remove_provider(v.deep_view(), name@),
{
    let mut r: Vec<ProviderConfig> = Vec::new();
    let n = v.len();
    let mut i: usize = 0;
    proof {
        assert(v.deep_view().skip(0) =~= v.deep_view());
        assert(r.deep_view() + spec_remove_provider(v.deep_view(), name@) =~= spec_remove_provider(
            v.deep_view(),
            name@,
        ));
    }
    while i < n
        invariant
            i <= n,
            n == v.len(),
            r.deep_view() + spec_remove_provider(v.deep_view().skip(i as int), name@)
                == spec_remove_provider(v.deep_view(), name@),
        decreases n - i,
    {
        let ghost pre = r.deep_view();
        let ghost tail = v.deep_view().skip(i as int);
        proof {
            assert(tail.skip(1) =~= v.deep_view().skip(i as int + 1));
        }
        if !(v[i].name == *name) {
            r.push(v[i].clone());
            proof {
                assert(r.deep_view() =~= pre + seq![v.deep_view()[i as int]]);
                assert(seq![tail[0]] + spec_remove_provider(tail.skip(1), name@)
                    == spec_remove_provider(tail, name@));
                assert(r.deep_view() + spec_remove_provider(
                    v.deep_view().skip(i as int + 1),
                    name@,
                ) =~= spec_remove_provider(v.deep_view(), name@));
            }
        } else {
            proof {
                assert(spec_remove_provider(tail, name@) == spec_remove_provider(
                    tail.skip(1),
                    name@,
                ));
            }
        }
        i = i + 1;
    }
    proof {
        assert(v.deep_view().skip(n as int) =~= Seq::<ProviderConfigModel>::empty());
        assert(r.deep_view() =~= r.deep_view() + spec_remove_provider(
            v.deep_view().skip(n as int),
            name@,
        ));
    }
    r
}

/// The settings store. `on_disk` models what the settings file holds, under
/// the caller's faithful reports of its writes.
pub struct SettingsManager {
    settings: Settings,
    disk: Ghost<SettingsModel>,
}

impl SettingsManager {
    /// The in-memory mirror.
    pub closed spec fn mem(&self) -> SettingsModel {
        self.settings@
    }

    /// The modelled content of the settings file.
    pub closed spec fn on_disk(&self) -> SettingsModel {
        self.disk@
    }

    /// The mirror never runs ahead of the file.
    pub open spec fn inv(&self) -> bool {
        self.mem() == self.on_disk()
    }

    /// Builds the store from what the file layer read. On first run (`None`)
    /// the caller writes the default document (`Settings::default()`) and
    /// reports the outcome in `wrote`; a failed write aborts startup with
    /// `Storage`.
    pub fn new(loaded: Option<Settings>, wrote: bool) -> (r: Result<SettingsManager, ConfigError>)
        ensures
            match loaded {
                Some(doc) => r is Ok && r->Ok_0.mem() == doc@ && r->Ok_0.on_disk() == doc@,
                None => if wrote {
                    r is Ok && r->Ok_0.mem() == spec_default_settings() && r->Ok_0.on_disk()
                        == spec_default_settings()
                } else {
                    r is Err && r->Err_0 is Storage
                },
            },
            r is Ok ==> r->Ok_0.inv(),
    {
        match loaded {
            Some(doc) => {
                let ghost model = doc@;
                Ok(SettingsManager { settings: doc, disk: Ghost(model) })
            },
            None => {
                if wrote {
                    let doc = Settings::default();
                    let ghost model = doc@;
                    Ok(SettingsManager { settings: doc, disk: Ghost(model) })
                } else {
                    Err(ConfigError::Storage)
                }
            },
        }
    }

    /// Replaces the whole document: validate, write ahead, then commit the
    /// mirror. An invalid document is rejected before anything reaches the
    /// file; a failed write (`!wrote`) keeps the previous state.
    pub fn save(&mut self, new_settings: Settings, wrote: bool) -> (r: Result<(), ConfigError>)
        requires
            old(self).inv(),
        ensures
            final(self).inv(),
            !settings_wf(new_settings@) ==> r is Err && r->Err_0 is Validation && *final(self)
                == *old(self),
            settings_wf(new_settings@) && !wrote ==> r is Err && r->Err_0 is Storage
                && *final(self) == *old(self),
            settings_wf(new_settings@) && wrote ==> r is Ok && final(self).mem()
                == new_settings@ && final(self).on_disk() == new_settings@,
            r is Ok <==> settings_wf(new_settings@) && wrote,
    {
        match validate_settings(&new_settings) {
            Err(e) => Err(e),
            Ok(()) => {
                if !wrote {
                    return Err(ConfigError::Storage);
                }
                let ghost model = new_settings@;
                self.settings = new_settings;
                self.disk = Ghost(model);
                Ok(())
            },
        }
    }

    /// A clone of the whole document.
    pub fn get_settings(&self) -> (r: Settings)
        ensures
            r@ == self.mem(),
    {
        let r = self.settings.clone();
        r
    }

    /// A clone of the shortcut section.
    pub fn get_shortcuts(&self) -> (r: Vec<ShortcutConfig>)
        ensures
            r.deep_view() == self.mem().shortcuts,
    {
        clone_shortcuts(&self.settings.shortcuts)
    }

    /// Replaces the shortcut section, validating only that section: every
    /// binding well-formed, names unique.
    pub fn update_shortcuts(&mut self, shortcuts: Vec<ShortcutConfig>, wrote: bool) -> (r: Result<
        (),
        ConfigError,
    >)
        requires
            old(self).inv(),
        ensures
            final(self).inv(),
            ({
                let ok = (forall|i: int|
                    0 <= i < shortcuts.deep_view().len() ==> shortcut_entry_wf(
                        #[trigger] shortcuts.deep_view()[i],
                    )) && shortcut_names_unique(shortcuts.deep_view());
                &&& (r is Ok <==> ok && wrote)
                &&& !ok ==> r is Err && r->Err_0 is Validation && *final(self) == *old(self)
                &&& ok && !wrote ==> r is Err && r->Err_0 is Storage && *final(self) == *old(self)
                &&& ok && wrote ==> final(self).mem() == (SettingsModel {
                    shortcuts: shortcuts.deep_view(),
                    ..old(self).mem()
                }) && final(self).on_disk() == final(self).mem()
            }),
    {
        if !shortcuts_wf_exec(&shortcuts) || !shortcut_names_unique_exec(&shortcuts) {
            return Err(ConfigError::Validation {
                field: String::from_str("shortcuts"),
                reason: String::from_str(
                    "every binding needs a name, a parseable or empty chord, and a complete command; names must be unique",
                ),
            });
        }
        if !wrote {
            return Err(ConfigError::Storage);
        }
        self.settings.shortcuts = shortcuts;
        let ghost model = self.settings@;
        self.disk = Ghost(model);
        assert(self.mem() =~= (SettingsModel { shortcuts: self.mem().shortcuts, ..old(self).mem() }));
        Ok(())
    }

    /// The first profile of the given name, or `NotFound` with the
    /// provider-lookup report.
    pub fn get_llm_config(&self, name: &str) -> (r: Result<ProviderConfig, ConfigError>)
        ensures
            match r {
                Ok(p) => exists|i: int|
                    0 <= i < self.mem().llm_providers.len() && #[trigger] self.mem().llm_providers[i]
                        == p@ && p@.name == name@ && (forall|k: int|
                        0 <= k < i ==> self.mem().llm_providers[k].name != name@),
                Err(e) => (e matches ConfigError::NotFound { what } && what@
                    == "LLM configuration not found"@) && (forall|i: int|
                    0 <= i < self.mem().llm_providers.len()
                        ==> (#[trigger] self.mem().llm_providers[i]).name != name@),
            },
    {
        let wanted = name.to_owned();
        let v = &self.settings.llm_providers;
        let n = v.len();
        let mut i: usize = 0;
        while i < n
            invariant
                i <= n,
                n == v.len(),
                wanted@ == name@,
                v.deep_view() == self.mem().llm_providers,
                forall|k: int| 0 <= k < i ==> (#[trigger] v.deep_view()[k]).name != name@,
            decreases n - i,
        {
            if v[i].name == wanted {
                let p = v[i].clone();
                proof {
                    assert(self.mem().llm_providers[i as int] == p@);
                    assert(p@.name == name@);
                }
                return Ok(p);
            }
            i = i + 1;
        }
        Err(ConfigError::NotFound { what: String::from_str("LLM configuration not found") })
    }

    /// Upserts a profile: earlier profiles of the same name leave, the new
    /// one goes to the back. Only the new profile is validated; the write
    /// goes ahead of the commit as in `save`.
    pub fn add_llm_config(&mut self, config: ProviderConfig, wrote: bool) -> (r: Result<
        (),
        ConfigError,
    >)
        requires
            old(self).inv(),
        ensures
            final(self).inv(),
            r is Ok <==> provider_wf(config@) && wrote,
            !provider_wf(config@) ==> r is Err && r->Err_0 is Validation && *final(self)
                == *old(self),
            provider_wf(config@) && !wrote ==> r is Err && r->Err_0 is Storage && *final(self)
                == *old(self),
            provider_wf(config@) && wrote ==> final(self).mem() == (SettingsModel {
                llm_providers: spec_upsert_provider(old(self).mem().llm_providers, config@),
                ..old(self).mem()
            }) && final(self).on_disk() == final(self).mem(),
    {
        if config.name.as_str().is_empty() || config.provider.as_str().is_empty()
            || config.api_key.as_str().is_empty() {
            return Err(ConfigError::Validation {
                field: String::from_str("llm_providers"),
                reason: String::from_str("every profile needs a name, a provider and an api key"),
            });
        }
        if !wrote {
            return Err(ConfigError::Storage);
        }
        let mut kept = remove_provider(&self.settings.llm_providers, &config.name);
        let ghost kept_model = kept.deep_view();
        kept.push(config);
        proof {
            assert(kept.deep_view() =~= kept_model.push(kept.deep_view()[kept_model.len() as int]));
        }
        self.settings.llm_providers = kept;
        let ghost model = self.settings@;
        self.disk = Ghost(model);
        assert(self.mem() =~= (SettingsModel {
            llm_providers: self.mem().llm_providers,
            ..old(self).mem()
        }));
        Ok(())
    }

    /// The document a registration would persist — the current one with the
    /// profile upserted — validated ahead of any write: exactly what
    /// `add_llm_config` commits when the write succeeds. The caller writes
    /// this document first and reports the outcome to the committing call.
    pub fn plan_add_llm_config(&self, config: &ProviderConfig) -> (r: Result<
        Settings,
        ConfigError,
    >)
        ensures
            r is Ok <==> provider_wf(config@),
            r is Err ==> r->Err_0 is Validation,
            r is Ok ==> r->Ok_0@ == (SettingsModel {
                llm_providers: spec_upsert_provider(self.mem().llm_providers, config@),
                ..self.mem()
            }),
    {
        if config.name.as_str().is_empty() || config.provider.as_str().is_empty()
            || config.api_key.as_str().is_empty() {
            return Err(ConfigError::Validation {
                field: String::from_str("llm_providers"),
                reason: String::from_str("every profile needs a name, a provider and an api key"),
            });
        }
        let mut kept = remove_provider(&self.settings.llm_providers, &config.name);
        let ghost kept_model = kept.deep_view();
        kept.push(config.clone());
        proof {
            assert(kept.deep_view() =~= kept_model.push(kept.deep_view()[kept_model.len() as int]));
        }
        let doc = Settings {
            llm_providers: kept,
            shortcuts: clone_shortcuts(&self.settings.shortcuts),
            ui: self.settings.ui.clone(),
        };
        proof {
            assert(doc@ =~= (SettingsModel { llm_providers: doc@.llm_providers, ..self.mem() }));
        }
        Ok(doc)
    }

    /// A clone of the provider section.
    pub fn get_all_llm_configs(&self) -> (r: Vec<ProviderConfig>)
        ensures
            r.deep_view() == self.mem().llm_providers,
    {
        clone_providers(&self.settings.llm_providers)
    }

    /// Replaces the UI preferences; no validation rule applies to them.
    pub fn update_ui_config(&mut self, ui_config: UIConfig, wrote: bool) -> (r: Result<
        (),
        ConfigError,
    >)
        requires
            old(self).inv(),
        ensures
            final(self).inv(),
            r is Ok <==> wrote,
            !wrote ==> r is Err && r->Err_0 is Storage && *final(self) == *old(self),
            wrote ==> final(self).mem() == (SettingsModel { ui: ui_config@, ..old(self).mem() })
                && final(self).on_disk() == final(self).mem(),
    {
        if !wrote {
            return Err(ConfigError::Storage);
        }
        self.settings.ui = ui_config;
        let ghost model = self.settings@;
        self.disk = Ghost(model);
        assert(self.mem() =~= (SettingsModel { ui: self.mem().ui, ..old(self).mem() }));
        Ok(())
    }
}

} // verus!
