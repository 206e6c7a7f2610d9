//! The application state: the settings store, the session snapshots (last
//! captured selection, latest LLM response) and the mirror of the chords
//! currently registered with the OS hotkey layer.

use vstd::prelude::*;

use crate::engine::construct_ok;
use crate::engine::try_construct_client;
use crate::settings::ConfigError;
use crate::settings::ProviderConfig;
use crate::settings::Settings;
use crate::settings::SettingsModel;
use crate::settings::provider_wf;
use crate::store::SettingsManager;
use crate::store::spec_upsert_provider;

verus! {

/// No chord is registered twice.
pub open spec fn chords_unique(cs: Seq<Seq<char>>) -> bool {
    forall|i: int, j: int| 0 <= i < j < cs.len() ==> cs[i] != cs[j]
}

/// Whether a live client can be constructed from the profile: the fail-fast
/// check that registration runs before anything is persisted, surfaced on
/// its own so that a caller can test construction ahead of the file write.
/// `Provider` carries the engine's message.
pub fn try_construct_llm(config: &ProviderConfig) -> (r: Result<(), ConfigError>)
    ensures
        r is Ok <==> construct_ok(config.provider@, config.api_key@, config.model@, config.max_tokens),
        r is Err ==> r->Err_0 is Provider,
        config.provider@ == "google"@ ==> r is Ok,
{
    match try_construct_client(
        config.provider.as_str(),
        config.api_key.as_str(),
        config.model.as_str(),
        config.max_tokens,
    ) {
        Ok(()) => Ok(()),
        Err(reason) => Err(ConfigError::Provider { reason }),
    }
}

/// The state every command handler works on. The locks of the host process
/// live outside; here the state is plain data.
pub struct AppState {
    pub settings_manager: SettingsManager,
    pub selected_text: Option<String>,
    pub last_response: Option<String>,
    pub os_hotkeys: Vec<String>,
}

impl AppState {
    /// The last captured selection, if any.
    pub open spec fn selection(&self) -> Option<Seq<char>> {
        self.selected_text.deep_view()
    }

    /// The latest successful LLM response, if any.
    pub open spec fn latest_output(&self) -> Option<Seq<char>> {
        self.last_response.deep_view()
    }

    /// The normalized chords currently registered with the OS layer.
    pub open spec fn os_chords(&self) -> Seq<Seq<char>> {
        self.os_hotkeys.deep_view()
    }

    pub open spec fn wf(&self) -> bool {
        &&& self.settings_manager.inv()
        &&& chords_unique(self.os_chords())
    }

    /// Fresh state around a newly loaded store: nothing captured, nothing
    /// answered, nothing registered.
    pub fn new(loaded: Option<Settings>, wrote: bool) -> (r: Result<AppState, ConfigError>)
        ensures
            match loaded {
                Some(doc) => r is Ok && r->Ok_0.settings_manager.mem() == doc@,
                None => if wrote {
                    r is Ok && r->Ok_0.settings_manager.mem()
                        == crate::settings::spec_default_settings()
                } else {
                    r is Err && r->Err_0 is Storage
                },
            },
            r is Ok ==> r->Ok_0.wf() && r->Ok_0.selection() is None && r->Ok_0.latest_output()
                is None && r->Ok_0.os_chords() == Seq::<Seq<char>>::empty(),
    {
        match SettingsManager::new(loaded, wrote) {
            Err(e) => Err(e),
            Ok(settings_manager) => {
                let s = AppState {
                    settings_manager,
                    selected_text: None,
                    last_response: None,
                    os_hotkeys: Vec::new(),
                };
                proof {
                    assert(s.os_chords() =~= Seq::<Seq<char>>::empty());
                }
                Ok(s)
            },
        }
    }

    /// Commits (or refuses) a provider registration, given the outcome of the
    /// client construction. A failed construction surfaces as `Provider` with
    /// the engine's message and changes nothing; a successful one hands the
    /// profile to the store, which validates it and persists it write-ahead.
    pub fn commit_provider_registration(
        &mut self,
        config: ProviderConfig,
        construction: Result<(), String>,
        wrote: bool,
    ) -> (r: Result<(), ConfigError>)
        requires
            old(self).wf(),
        ensures
            final(self).wf(),
            final(self).selection() == old(self).selection(),
            final(self).latest_output() == old(self).latest_output(),
            final(self).os_chords() == old(self).os_chords(),
            match construction {
                Err(msg) => r is Err && (r->Err_0 matches ConfigError::Provider { reason }
                    && reason@ == msg@) && *final(self) == *old(self),
                Ok(()) => {
                    &&& (r is Ok <==> provider_wf(config@) && wrote)
                    &&& !provider_wf(config@) ==> r is Err && r->Err_0 is Validation
                    &&& provider_wf(config@) && !wrote ==> r is Err && r->Err_0 is Storage
                    &&& r is Err ==> *final(self) == *old(self)
                    &&& r is Ok ==> final(self).settings_manager.mem() == (SettingsModel {
                        llm_providers: spec_upsert_provider(
                            old(self).settings_manager.mem().llm_providers,
                            config@,
                        ),
                        ..old(self).settings_manager.mem()
                    })
                },
            },
    {
        match construction {
            Err(reason) => Err(ConfigError::Provider { reason }),
            Ok(()) => self.settings_manager.add_llm_config(config, wrote),
        }
    }

    /// Registers a provider profile: first constructs a live client from it,
    /// and only when that succeeds validates and persists the profile. The
    /// registration succeeds exactly when the client constructs, the profile
    /// is well-formed and the write stuck; on any error nothing is persisted
    /// and nothing in memory changes.
    pub fn register_llm(&mut self, config: ProviderConfig, wrote: bool) -> (r: Result<
        (),
        ConfigError,
    >)
        requires
            old(self).wf(),
        ensures
            final(self).wf(),
            r is Err ==> *final(self) == *old(self),
            ({
                let built = construct_ok(
                    config.provider@,
                    config.api_key@,
                    config.model@,
                    config.max_tokens,
                );
                &&& (r is Ok <==> built && provider_wf(config@) && wrote)
                &&& !built ==> r is Err && r->Err_0 is Provider
                &&& built && !provider_wf(config@) ==> r is Err && r->Err_0 is Validation
                &&& built && provider_wf(config@) && !wrote ==> r is Err && r->Err_0 is Storage
            }),
            r is Ok ==> final(self).settings_manager.mem() == (SettingsModel {
                llm_providers: spec_upsert_provider(
                    old(self).settings_manager.mem().llm_providers,
                    config@,
                ),
                ..old(self).settings_manager.mem()
            }) && final(self).selection() == old(self).selection() && final(self).latest_output()
                == old(self).latest_output() && final(self).os_chords() == old(self).os_chords(),
    {
        let construction: Result<(), String> = try_construct_client(
            config.provider.as_str(),
            config.api_key.as_str(),
            config.model.as_str(),
            config.max_tokens,
        );
        self.commit_provider_registration(config, construction, wrote)
    }

    /// A clone of the provider section.
    pub fn get_llm_configs(&self) -> (r: Vec<ProviderConfig>)
        ensures
            r.deep_view() == self.settings_manager.mem().llm_providers,
    {
        self.settings_manager.get_all_llm_configs()
    }

    /// Overwrites the captured selection snapshot.
    pub fn set_selected_text(&mut self, text: String)
        ensures
            final(self).selection() == Some(text@),
            final(self).latest_output() == old(self).latest_output(),
            final(self).os_chords() == old(self).os_chords(),
            final(self).settings_manager == old(self).settings_manager,
            old(self).wf() ==> final(self).wf(),
    {
        self.selected_text = Some(text);
    }

    /// The captured selection snapshot, cloned.
    pub fn get_selected_text(&self) -> (r: Option<String>)
        ensures
            r.deep_view() == self.selection(),
    {
        match &self.selected_text {
            Some(t) => Some(t.clone()),
            None => None,
        }
    }

    /// Overwrites the latest-output snapshot.
    pub fn set_latest_output(&mut self, output: String)
        ensures
            final(self).latest_output() == Some(output@),
            final(self).selection() == old(self).selection(),
            final(self).os_chords() == old(self).os_chords(),
            final(self).settings_manager == old(self).settings_manager,
            old(self).wf() ==> final(self).wf(),
    {
        self.last_response = Some(output);
    }

    /// The latest-output snapshot, cloned.
    pub fn get_latest_output(&self) -> (r: Option<String>)
        ensures
            r.deep_view() == self.latest_output(),
    {
        match &self.last_response {
            Some(t) => Some(t.clone()),
            None => None,
        }
    }

    /// Whether the chord is currently registered.
    pub fn os_contains(&self, chord: &String) -> (b: bool)
        ensures
            b == self.os_chords().contains(chord@),
    {
        let n = self.os_hotkeys.len();
        let mut i: usize = 0;
        while i < n
            invariant
                i <= n,
                n == self.os_hotkeys.len(),
                forall|k: int| 0 <= k < i ==> self.os_chords()[k] != chord@,
            decreases n - i,
        {
            if self.os_hotkeys[i] == *chord {
                assert(self.os_chords()[i as int] == chord@);
                return true;
            }
            i = i + 1;
        }
        assert(!self.os_chords().contains(chord@));
        false
    }

    /// Records a chord as registered. The caller checks it is new; that keeps
    /// the mirror free of duplicates.
    pub fn os_add(&mut self, chord: String)
        requires
            !old(self).os_chords().contains(chord@),
        ensures
            final(self).os_chords() == old(self).os_chords().push(chord@),
            final(self).selection() == old(self).selection(),
            final(self).latest_output() == old(self).latest_output(),
            final(self).settings_manager == old(self).settings_manager,
            old(self).wf() ==> final(self).wf(),
    {
        self.os_hotkeys.push(chord);
        proof {
            assert(self.os_chords() =~= old(self).os_chords().push(
                self.os_chords()[old(self).os_chords().len() as int],
            ));
            if old(self).wf() {
                assert forall|i: int, j: int|
                    0 <= i < j < self.os_chords().len() implies self.os_chords()[i]
                    != self.os_chords()[j] by {
                    if j < self.os_chords().len() - 1 {
                    } else {
                        assert(!old(self).os_chords().contains(self.os_chords()[j]));
                        assert(old(self).os_chords()[i] == self.os_chords()[i]);
                    }
                }
            }
        }
    }

    /// Strikes a chord from the mirror (it is there at most once); other
    /// chords stay registered.
    pub fn os_remove(&mut self, chord: &String)
        requires
            old(self).wf(),
        ensures
            final(self).wf(),
            !final(self).os_chords().contains(chord@),
            forall|c: Seq<char>|
                c != chord@ ==> (final(self).os_chords().contains(c) <==> old(
                    self,
                ).os_chords().contains(c)),
            final(self).selection() == old(self).selection(),
            final(self).latest_output() == old(self).latest_output(),
            final(self).settings_manager == old(self).settings_manager,
    {
        let n = self.os_hotkeys.len();
        let mut i: usize = 0;
        while i < n
            invariant
                i <= n,
                n == self.os_hotkeys.len(),
                forall|k: int| 0 <= k < i ==> self.os_chords()[k] != chord@,
                *self == *old(self),
                old(self).wf(),
            decreases n - i,
        {
            if self.os_hotkeys[i] == *chord {
                let ghost pre = self.os_chords();
                proof {
                    assert(chords_unique(pre));
                    assert(pre[i as int] == chord@);
                }
                self.os_hotkeys.remove(i);
                proof {
                    assert(self.os_chords() =~~= pre.remove(i as int));
                    assert forall|c: Seq<char>| c != chord@ implies (self.os_chords().contains(c)
                        <==> pre.contains(c)) by {
                        if self.os_chords().contains(c) {
                            let k = choose|k: int|
                                0 <= k < self.os_chords().len() && self.os_chords()[k] == c;
                            if k < i {
                                assert(pre[k] == c);
                            } else {
                                assert(pre[k + 1] == c);
                            }
                        }
                        if pre.contains(c) {
                            let k = choose|k: int| 0 <= k < pre.len() && pre[k] == c;
                            if k < i {
                                assert(self.os_chords()[k] == c);
                            } else {
                                assert(k != i);
                                assert(self.os_chords()[k - 1] == c);
                            }
                        }
                    }
                    assert forall|k: int|
                        0 <= k < self.os_chords().len() implies self.os_chords()[k] != chord@ by {
                        if k < i {
                            assert(pre[k] == self.os_chords()[k]);
                            assert(pre[k] != chord@);
                        } else {
                            assert(pre[k + 1] == self.os_chords()[k]);
                            assert(pre[i as int] == chord@);
                            assert(pre[i as int] != pre[k + 1]);
                        }
                    }
                    assert forall|a: int, b: int|
                        0 <= a < b < self.os_chords().len() implies self.os_chords()[a]
                        != self.os_chords()[b] by {
                        let pa: int = if a < i {
                            a
                        } else {
                            a + 1
                        };
                        let pb: int = if b < i {
                            b
                        } else {
                            b + 1
                        };
                        assert(pre[pa] == self.os_chords()[a]);
                        assert(pre[pb] == self.os_chords()[b]);
                        assert(0 <= pa < pb < pre.len());
                        assert(pre[pa] != pre[pb]);
                    }
                }
                return ;
            }
            i = i + 1;
        }
        assert(!self.os_chords().contains(chord@));
    }

    /// Replaces the whole mirror at startup with a freshly computed batch.
    pub fn os_replace_all(&mut self, chords: Vec<String>)
        requires
            chords_unique(chords.deep_view()),
        ensures
            final(self).os_chords() == chords.deep_view(),
            final(self).selection() == old(self).selection(),
            final(self).latest_output() == old(self).latest_output(),
            final(self).settings_manager == old(self).settings_manager,
            old(self).settings_manager.inv() ==> final(self).wf(),
    {
        self.os_hotkeys = chords;
    }
}

} // verus!
