//! The shortcut registry: keeps three representations in step — the
//! persisted bindings, the in-memory lookup, and the mirror of what is
//! registered with the OS hotkey layer.
//!
//! The registry never talks to the OS itself. Each operation returns the
//! chords to register or unregister; the caller performs those calls and the
//! mirror records what was asked for. The protocol on a rebind is strictly
//! unregister-old, persist, register-new: a write that fails in the middle
//! can leave a binding persisted but unregistered, which the startup batch
//! (`enable_shortcuts`) heals.

use vstd::prelude::*;

use crate::chord::chord_is_wf;
use crate::chord::chord_wf;
use crate::chord::normalize_chord;
use crate::chord::spec_normalize_chord;
use crate::settings::CommandType;
use crate::settings::CommandTypeModel;
use crate::settings::ConfigError;
use crate::settings::ShortcutConfig;
use crate::settings::ShortcutConfigModel;
use crate::settings::Settings;
use crate::settings::SettingsModel;
use crate::settings::shortcut_entry_wf;
use crate::settings::shortcut_names_unique;
use crate::settings::shortcut_names_unique_exec;
use crate::settings::shortcuts_wf_exec;
use crate::state::AppState;
use crate::state::chords_unique;

verus! {

/// Whether some binding carries this name.
pub open spec fn has_shortcut(ss: Seq<ShortcutConfigModel>, name: Seq<char>) -> bool {
    exists|i: int| 0 <= i < ss.len() && ss[i].name == name
}

/// The first index bound to this name, when `has_shortcut`.
pub open spec fn first_shortcut_index(ss: Seq<ShortcutConfigModel>, name: Seq<char>) -> int {
    choose|i: int|
        0 <= i < ss.len() && ss[i].name == name && (forall|k: int|
            0 <= k < i ==> ss[k].name != name)
}

pub proof fn lemma_first_shortcut_agrees(ss: Seq<ShortcutConfigModel>, name: Seq<char>, j: int)
    requires
        0 <= j < ss.len(),
        ss[j].name == name,
        forall|k: int| 0 <= k < j ==> ss[k].name != name,
    ensures
        first_shortcut_index(ss, name) == j,
{
    assert(0 <= j < ss.len() && ss[j].name == name && (forall|k: int|
        0 <= k < j ==> ss[k].name != name));
    let i = first_shortcut_index(ss, name);
    assert(0 <= i < ss.len() && ss[i].name == name && (forall|k: int|
        0 <= k < i ==> ss[k].name != name));
    if i < j {
        assert(ss[i].name != name);
    } else if j < i {
        assert(ss[j].name != name);
    }
}

/// An upsert replaces the first binding of the same name in place, or
/// appends a new one.
pub open spec fn spec_upsert_shortcut(
    ss: Seq<ShortcutConfigModel>,
    b: ShortcutConfigModel,
) -> Seq<ShortcutConfigModel> {
    if has_shortcut(ss, b.name) {
        ss.update(first_shortcut_index(ss, b.name), b)
    } else {
        ss.push(b)
    }
}

/// The shortcut section alone is acceptable: every binding well-formed,
/// names unique.
pub open spec fn shortcut_section_wf(ss: Seq<ShortcutConfigModel>) -> bool {
    (forall|i: int| 0 <= i < ss.len() ==> shortcut_entry_wf(#[trigger] ss[i]))
        && shortcut_names_unique(ss)
}

/// The chord that a rebind of `name` must first unregister: the normalized
/// chord of the existing binding, when that binding is enabled, OS-driven
/// (not a prompt) and parseable.
pub open spec fn spec_pending_unregister(
    ss: Seq<ShortcutConfigModel>,
    name: Seq<char>,
) -> Option<Seq<char>> {
    if has_shortcut(ss, name) {
        let e = ss[first_shortcut_index(ss, name)];
        if e.shortcut.len() > 0 && !(e.command is Prompt) && chord_wf(e.shortcut) {
            Some(spec_normalize_chord(e.shortcut))
        } else {
            None
        }
    } else {
        None
    }
}

/// The batch registered at startup: the normalized chords of every enabled,
/// OS-driven binding, in order.
pub open spec fn spec_startup_chords(ss: Seq<ShortcutConfigModel>) -> Seq<Seq<char>>
    decreases ss.len(),
{
    if ss.len() == 0 {
        Seq::empty()
    } else {
        let rest = spec_startup_chords(ss.skip(1));
        if ss[0].shortcut.len() > 0 && !(ss[0].command is Prompt) {
            seq![spec_normalize_chord(ss[0].shortcut)] + rest
        } else {
            rest
        }
    }
}

/// Whether every enabled, OS-driven binding carries a parseable chord.
pub open spec fn spec_startup_parseable(ss: Seq<ShortcutConfigModel>) -> bool {
    forall|i: int|
        0 <= i < ss.len() && (#[trigger] ss[i]).shortcut.len() > 0 && !(ss[i].command is Prompt)
            ==> chord_wf(ss[i].shortcut)
}

/// What the caller must do at the OS layer after a successful upsert.
pub struct ShortcutActions {
    pub unregister: Option<String>,
    pub register: Option<String>,
}

fn command_is_prompt(c: &CommandType) -> (b: bool)
    ensures
        b == (c@ is Prompt),
{
    match c {
        CommandType::Prompt { .. } => true,
        _ => false,
    }
}

/// The first binding of this name, scanned from the front.
pub fn find_shortcut_index(v: &Vec<ShortcutConfig>, name: &String) -> (r: Option<usize>)
    ensures
        match r {
            Some(j) => j < v.deep_view().len() && v.deep_view()[j as int].name == name@ && (forall|
                k: int,
            |
                0 <= k < j ==> v.deep_view()[k].name != name@),
            None => !has_shortcut(v.deep_view(), name@),
        },
{
    let n = v.len();
    let mut i: usize = 0;
    while i < n
        invariant
            i <= n,
            n == v.len(),
            forall|k: int| 0 <= k < i ==> v.deep_view()[k].name != name@,
        decreases n - i,
    {
        if v[i].name == *name {
            assert(v.deep_view()[i as int].name == name@);
            return Some(i);
        }
        i = i + 1;
    }
    assert(!has_shortcut(v.deep_view(), name@));
    None
}

/// All current bindings, cloned out of the store.
pub fn get_shortcuts(state: &AppState) -> (r: Vec<ShortcutConfig>)
    ensures
        r.deep_view() == state.settings_manager.mem().shortcuts,
{
    state.settings_manager.get_shortcuts()
}

/// The chord a rebind of `name` would unregister first; the caller performs
/// the matching OS call when the rebind goes ahead.
pub fn pending_unregister(state: &AppState, name: &String) -> (r: Option<String>)
    ensures
        r.deep_view() == spec_pending_unregister(state.settings_manager.mem().shortcuts, name@),
{
    let shortcuts = state.settings_manager.get_shortcuts();
    let ghost ss = state.settings_manager.mem().shortcuts;
    match find_shortcut_index(&shortcuts, name) {
        None => None,
        Some(j) => {
            proof {
                lemma_first_shortcut_agrees(ss, name@, j as int);
            }
            let e = &shortcuts[j];
            if e.shortcut.as_str().is_empty() || command_is_prompt(&e.command) {
                return None;
            }
            match normalize_chord(e.shortcut.as_str()) {
                None => None,
                Some(norm) => Some(norm),
            }
        },
    }
}

/// Strikes a chord from the OS mirror, after parsing it; the caller performs
/// the matching OS call. `ShortcutParse` if and only if the spelling is
/// malformed, and then nothing changes.
pub fn unregister_shortcut(state: &mut AppState, shortcut_str: &str) -> (r: Result<
    (),
    ConfigError,
>)
    requires
        old(state).wf(),
    ensures
        final(state).wf(),
        final(state).selection() == old(state).selection(),
        final(state).latest_output() == old(state).latest_output(),
        final(state).settings_manager == old(state).settings_manager,
        !chord_wf(shortcut_str@) ==> r is Err && r->Err_0 is ShortcutParse && *final(state)
            == *old(state),
        chord_wf(shortcut_str@) ==> r is Ok && !final(state).os_chords().contains(
            spec_normalize_chord(shortcut_str@),
        ) && (forall|c: Seq<char>|
            c != spec_normalize_chord(shortcut_str@) ==> (final(state).os_chords().contains(c)
                <==> old(state).os_chords().contains(c))),
{
    match normalize_chord(shortcut_str) {
        None => Err(ConfigError::ShortcutParse),
        Some(norm) => {
            state.os_remove(&norm);
            Ok(())
        },
    }
}

/// The document a rebind would persist — the current one with the binding
/// upserted — validated ahead of any write: exactly what `update_shortcut`
/// commits when the write succeeds, or the error it would refuse with
/// before anything moves. The caller writes this document first and
/// reports the outcome to the committing call.
pub fn plan_update_shortcut(state: &AppState, shortcut_config: &ShortcutConfig) -> (r: Result<
    Settings,
    ConfigError,
>)
    ensures
        ({
            let ss = state.settings_manager.mem().shortcuts;
            let b = shortcut_config@;
            let newss = spec_upsert_shortcut(ss, b);
            let chord_ok = b.shortcut.len() == 0 || chord_wf(b.shortcut);
            let sec_ok = shortcut_section_wf(newss);
            if !chord_ok {
                r is Err && r->Err_0 is ShortcutParse
            } else if !sec_ok {
                r is Err && r->Err_0 is Validation
            } else {
                r is Ok && r->Ok_0@ == (SettingsModel {
                    shortcuts: newss,
                    ..state.settings_manager.mem()
                })
            }
        }),
{
    if !shortcut_config.shortcut.as_str().is_empty() && !chord_is_wf(
        shortcut_config.shortcut.as_str(),
    ) {
        return Err(ConfigError::ShortcutParse);
    }
    let mut shortcuts = state.settings_manager.get_shortcuts();
    let ghost ss = state.settings_manager.mem().shortcuts;
    match find_shortcut_index(&shortcuts, &shortcut_config.name) {
        Some(j) => {
            proof {
                lemma_first_shortcut_agrees(ss, shortcut_config@.name, j as int);
            }
            shortcuts.set(j, shortcut_config.clone());
            proof {
                assert(shortcuts.deep_view() =~= spec_upsert_shortcut(ss, shortcut_config@));
            }
        },
        None => {
            shortcuts.push(shortcut_config.clone());
            proof {
                assert(shortcuts.deep_view() =~= spec_upsert_shortcut(ss, shortcut_config@));
            }
        },
    }
    if !shortcuts_wf_exec(&shortcuts) || !shortcut_names_unique_exec(&shortcuts) {
        return Err(ConfigError::Validation {
            field: String::from_str("shortcuts"),
            reason: String::from_str(
                "every binding needs a name, a parseable or empty chord, and a complete command; names must be unique",
            ),
        });
    }
    let mut doc = state.settings_manager.get_settings();
    doc.shortcuts = shortcuts;
    proof {
        assert(doc@ =~= (SettingsModel { shortcuts: doc@.shortcuts, ..state.settings_manager.mem() }));
    }
    Ok(doc)
}

/// Rebinds (or creates) the binding named in `shortcut_config`:
/// unregister-old, persist, register-new, in that order.
///
/// The spelling is parsed first (`ShortcutParse`; nothing changes), and the
/// updated section is validated before anything moves (`Validation`; nothing
/// changes). Then the old chord leaves the mirror, the document goes to the
/// file layer (`wrote` reports its outcome; `Storage` keeps the store but
/// the old chord is already unregistered, which startup heals), and finally
/// the new chord enters the mirror unless another binding holds it
/// (`ChordInUse`: persisted but not registered).
pub fn update_shortcut(state: &mut AppState, shortcut_config: ShortcutConfig, wrote: bool) -> (r:
    Result<ShortcutActions, ConfigError>)
    requires
        old(state).wf(),
    ensures
        final(state).wf(),
        final(state).selection() == old(state).selection(),
        final(state).latest_output() == old(state).latest_output(),
        ({
            let ss = old(state).settings_manager.mem().shortcuts;
            let b = shortcut_config@;
            let newss = spec_upsert_shortcut(ss, b);
            let chord_ok = b.shortcut.len() == 0 || chord_wf(b.shortcut);
            let sec_ok = shortcut_section_wf(newss);
            let oldreg = spec_pending_unregister(ss, b.name);
            let registers_new = b.shortcut.len() > 0 && !(b.command is Prompt);
            let norm_new = spec_normalize_chord(b.shortcut);
            let removed_only = (forall|c: Seq<char>|
                final(state).os_chords().contains(c) <==> (old(state).os_chords().contains(c)
                    && oldreg != Some(c)));
            if !chord_ok {
                r is Err && r->Err_0 is ShortcutParse && *final(state) == *old(state)
            } else if !sec_ok {
                r is Err && r->Err_0 is Validation && *final(state) == *old(state)
            } else if !wrote {
                r is Err && r->Err_0 is Storage && removed_only && final(state).settings_manager
                    == old(state).settings_manager
            } else if registers_new && old(state).os_chords().contains(norm_new) && oldreg != Some(
                norm_new,
            ) {
                r is Err && r->Err_0 is ChordInUse && removed_only
                    && final(state).settings_manager.mem() == (SettingsModel {
                    shortcuts: newss,
                    ..old(state).settings_manager.mem()
                })
            } else {
                &&& r is Ok
                &&& final(state).settings_manager.mem() == (SettingsModel {
                    shortcuts: newss,
                    ..old(state).settings_manager.mem()
                })
                &&& (forall|c: Seq<char>|
                    final(state).os_chords().contains(c) <==> ((registers_new && c == norm_new)
                        || (old(state).os_chords().contains(c) && oldreg != Some(c))))
                &&& r->Ok_0.unregister.deep_view() == oldreg
                &&& r->Ok_0.register.deep_view() == (if registers_new {
                    Some(norm_new)
                } else {
                    Option::<Seq<char>>::None
                })
            }
        }),
{
    let ghost ss = old(state).settings_manager.mem().shortcuts;
    let ghost b = shortcut_config@;

    // Parse the new spelling before anything moves.
    let norm_new: Option<String> = if shortcut_config.shortcut.as_str().is_empty() {
        None
    } else {
        match normalize_chord(shortcut_config.shortcut.as_str()) {
            None => {
                return Err(ConfigError::ShortcutParse);
            },
            Some(n) => Some(n),
        }
    };

    // Build the updated section and find what the old binding had registered.
    let mut shortcuts = state.settings_manager.get_shortcuts();
    let old_index = find_shortcut_index(&shortcuts, &shortcut_config.name);
    let mut unregister: Option<String> = None;
    match old_index {
        Some(j) => {
            proof {
                lemma_first_shortcut_agrees(ss, b.name, j as int);
            }
            let e = &shortcuts[j];
            if !e.shortcut.as_str().is_empty() && !command_is_prompt(&e.command) {
                match normalize_chord(e.shortcut.as_str()) {
                    None => {},
                    Some(old_norm) => {
                        unregister = Some(old_norm);
                    },
                }
            }
            shortcuts.set(j, shortcut_config.clone());
            proof {
                assert(shortcuts.deep_view() =~= spec_upsert_shortcut(ss, b));
            }
        },
        None => {
            shortcuts.push(shortcut_config.clone());
            proof {
                assert(shortcuts.deep_view() =~= spec_upsert_shortcut(ss, b));
            }
        },
    }
    proof {
        assert(unregister.deep_view() == spec_pending_unregister(ss, b.name));
    }

    // Validate the updated section before any state moves.
    if !shortcuts_wf_exec(&shortcuts) || !shortcut_names_unique_exec(&shortcuts) {
        return Err(ConfigError::Validation {
            field: String::from_str("shortcuts"),
            reason: String::from_str(
                "every binding needs a name, a parseable or empty chord, and a complete command; names must be unique",
            ),
        });
    }

    // Unregister the old chord first, so a rebind never leaves both spellings
    // claimed at once.
    match &unregister {
        Some(old_norm) => {
            state.os_remove(old_norm);
        },
        None => {},
    }
    let ghost oldreg = spec_pending_unregister(ss, b.name);
    let ghost mid = state.os_chords();
    proof {
        assert forall|c: Seq<char>|
            mid.contains(c) <==> (old(state).os_chords().contains(c) && oldreg != Some(
                c,
            )) by {
            match unregister.deep_view() {
                Some(o) => {
                    if c == o {
                        assert(!mid.contains(c));
                    }
                },
                None => {},
            }
        }
    }

    // Persist; a refused write keeps the store as it was.
    match state.settings_manager.update_shortcuts(shortcuts, wrote) {
        Err(e) => {
            return Err(e);
        },
        Ok(()) => {},
    }

    // Register the new chord, unless the binding is front-end-driven or
    // disabled; a chord someone else holds is reported, not stolen.
    let register: Option<String> = match norm_new {
        Some(n) => {
            if command_is_prompt(&shortcut_config.command) {
                None
            } else {
                if state.os_contains(&n) {
                    return Err(ConfigError::ChordInUse);
                }
                let ghost nn = n@;
                state.os_add(n.clone());
                proof {
                    assert(state.os_chords() == mid.push(nn));
                    assert forall|c: Seq<char>|
                        state.os_chords().contains(c) <==> (mid.contains(c) || c == nn) by {
                        if state.os_chords().contains(c) {
                            let k = choose|k: int|
                                0 <= k < state.os_chords().len() && state.os_chords()[k] == c;
                            if k < mid.len() {
                                assert(mid[k] == c);
                            }
                        }
                        if mid.contains(c) {
                            let k = choose|k: int| 0 <= k < mid.len() && mid[k] == c;
                            assert(state.os_chords()[k] == c);
                        }
                        if c == nn {
                            assert(state.os_chords()[mid.len() as int] == c);
                        }
                    }
                }
                Some(n)
            }
        },
        None => None,
    };
    proof {
        let registers_new = b.shortcut.len() > 0 && !(b.command is Prompt);
        let nn = spec_normalize_chord(b.shortcut);
        if !registers_new {
            assert(state.os_chords() == mid);
        }
        assert forall|c: Seq<char>|
            state.os_chords().contains(c) <==> ((registers_new && c == nn) || (old(
                state,
            ).os_chords().contains(c) && oldreg != Some(c))) by {
            assert(mid.contains(c) <==> (old(state).os_chords().contains(c) && oldreg != Some(c)));
        }
    }
    Ok(ShortcutActions { unregister, register })
}

/// Computes and installs the startup batch: the normalized chord of every
/// enabled, OS-driven binding. The whole batch replaces the mirror and is
/// returned for the caller to register with the OS in one go. A malformed
/// stored chord or a chord claimed twice is reported, and then nothing
/// changes.
pub fn enable_shortcuts(state: &mut AppState) -> (r: Result<Vec<String>, ConfigError>)
    requires
        old(state).wf(),
    ensures
        final(state).wf(),
        final(state).selection() == old(state).selection(),
        final(state).latest_output() == old(state).latest_output(),
        final(state).settings_manager == old(state).settings_manager,
        ({
            let ss = old(state).settings_manager.mem().shortcuts;
            &&& (r is Ok <==> spec_startup_parseable(ss) && chords_unique(spec_startup_chords(ss)))
            &&& r is Ok ==> r->Ok_0.deep_view() == spec_startup_chords(ss)
                && final(state).os_chords() == spec_startup_chords(ss)
            &&& r is Err ==> *final(state) == *old(state) && (r->Err_0 is ShortcutParse
                && !spec_startup_parseable(ss) || r->Err_0 is ChordInUse && !chords_unique(
                spec_startup_chords(ss),
            ))
        }),
{
    let shortcuts = state.settings_manager.get_shortcuts();
    let ghost ss = state.settings_manager.mem().shortcuts;
    let n = shortcuts.len();
    let mut acc: Vec<String> = Vec::new();
    let mut i: usize = 0;
    proof {
        assert(ss.skip(0) =~= ss);
        assert(acc.deep_view() + spec_startup_chords(ss) =~= spec_startup_chords(ss));
        assert(acc.deep_view() =~= Seq::<Seq<char>>::empty());
    }
    while i < n
        invariant
            i <= n,
            n == shortcuts.len(),
            shortcuts.deep_view() == ss,
            *state == *old(state),
            old(state).wf(),
            ss == old(state).settings_manager.mem().shortcuts,
            spec_startup_chords(ss) == acc.deep_view() + spec_startup_chords(ss.skip(i as int)),
            chords_unique(acc.deep_view()),
            forall|k: int|
                0 <= k < i && (#[trigger] ss[k]).shortcut.len() > 0 && !(ss[k].command is Prompt)
                    ==> chord_wf(ss[k].shortcut),
        decreases n - i,
    {
        let ghost tail = ss.skip(i as int);
        proof {
            assert(tail.skip(1) =~= ss.skip(i as int + 1));
        }
        let s = &shortcuts[i];
        if !s.shortcut.as_str().is_empty() && !command_is_prompt(&s.command) {
            match normalize_chord(s.shortcut.as_str()) {
                None => {
                    proof {
                        assert(ss[i as int].shortcut.len() > 0 && !(ss[i as int].command
                            is Prompt) && !chord_wf(ss[i as int].shortcut));
                        assert(!spec_startup_parseable(ss));
                    }
                    return Err(ConfigError::ShortcutParse);
                },
                Some(norm) => {
                    let ghost pre = acc.deep_view();
                    if contains_string(&acc, &norm) {
                        proof {
                            let k = choose|k: int| 0 <= k < pre.len() && pre[k] == norm@;
                            let full = spec_startup_chords(ss);
                            assert(spec_startup_chords(tail) == seq![norm@] + spec_startup_chords(
                                tail.skip(1),
                            ));
                            assert(full[k] == pre[k]);
                            assert(full[pre.len() as int] == norm@);
                            assert(!chords_unique(full));
                        }
                        return Err(ConfigError::ChordInUse);
                    }
                    acc.push(norm);
                    proof {
                        assert(acc.deep_view() =~= pre.push(norm@));
                        assert(acc.deep_view() =~= pre + seq![norm@]);
                        assert(spec_startup_chords(tail) == seq![norm@] + spec_startup_chords(
                            tail.skip(1),
                        ));
                        assert(spec_startup_chords(ss) =~= acc.deep_view() + spec_startup_chords(
                            ss.skip(i as int + 1),
                        ));
                        assert forall|a: int, c: int|
                            0 <= a < c < acc.deep_view().len() implies acc.deep_view()[a]
                            != acc.deep_view()[c] by {
                            if c < acc.deep_view().len() - 1 {
                                assert(pre[a] != pre[c]);
                            } else {
                                assert(!pre.contains(acc.deep_view()[c]));
                            }
                        }
                    }
                },
            }
        } else {
            proof {
                assert(spec_startup_chords(tail) == spec_startup_chords(tail.skip(1)));
                assert(spec_startup_chords(ss) == acc.deep_view() + spec_startup_chords(
                    ss.skip(i as int + 1),
                ));
            }
        }
        i = i + 1;
    }
    proof {
        assert(ss.skip(n as int) =~= Seq::<ShortcutConfigModel>::empty());
        assert(spec_startup_chords(ss) =~= acc.deep_view());
    }
    let batch = clone_strings(&acc);
    state.os_replace_all(acc);
    Ok(batch)
}

/// Whether the list holds this string.
fn contains_string(v: &Vec<String>, s: &String) -> (b: bool)
    ensures
        b == v.deep_view().contains(s@),
{
    let n = v.len();
    let mut i: usize = 0;
    while i < n
        invariant
            i <= n,
            n == v.len(),
            forall|k: int| 0 <= k < i ==> v.deep_view()[k] != s@,
        decreases n - i,
    {
        if v[i] == *s {
            assert(v.deep_view()[i as int] == s@);
            return true;
        }
        i = i + 1;
    }
    assert(!v.deep_view().contains(s@));
    false
}

/// Clones a list of strings, element for element.
fn clone_strings(v: &Vec<String>) -> (r: Vec<String>)
    ensures
        r.deep_view() == v.deep_view(),
{
    let mut r: Vec<String> = Vec::new();
    let mut i: usize = 0;
    while i < v.len()
        invariant
            i <= v.len(),
            r.deep_view().len() == i as int,
            forall|k: int| 0 <= k < i ==> r.deep_view()[k] == v.deep_view()[k],
        decreases v.len() - i,
    {
        r.push(v[i].clone());
        i = i + 1;
    }
    assert(r.deep_view() =~= v.deep_view());
    r
}

/// Law: after a successful rebind to a non-empty, well-formed chord on an
/// OS-driven command, the mirror holds the new normalized chord exactly
/// once, and the chord the binding previously held, when different, is no
/// longer registered. The hypotheses are exactly what `update_shortcut`
/// ensures on its success path (with `registers_new` true) together with
/// the duplicate-freedom that `wf` keeps.
pub proof fn lemma_upsert_registration(
    post: Seq<Seq<char>>,
    pre: Seq<Seq<char>>,
    oldreg: Option<Seq<char>>,
    norm_new: Seq<char>,
)
    requires
        chords_unique(post),
        forall|c: Seq<char>|
            post.contains(c) <==> (c == norm_new || (pre.contains(c) && oldreg != Some(c))),
    ensures
        exists|i: int|
            0 <= i < post.len() && post[i] == norm_new && (forall|j: int|
                0 <= j < post.len() && post[j] == norm_new ==> j == i),
        forall|c0: Seq<char>| oldreg == Some(c0) && c0 != norm_new ==> !post.contains(c0),
{
    assert(post.contains(norm_new));
    lemma_chord_registered_exactly_once(post, norm_new);
}

/// A registered chord is held exactly once: the mirror is duplicate-free, so
/// membership pins a single index.
pub proof fn lemma_chord_registered_exactly_once(cs: Seq<Seq<char>>, chord: Seq<char>)
    requires
        chords_unique(cs),
        cs.contains(chord),
    ensures
        exists|i: int|
            0 <= i < cs.len() && cs[i] == chord && (forall|j: int|
                0 <= j < cs.len() && cs[j] == chord ==> j == i),
{
    let i = choose|i: int| 0 <= i < cs.len() && cs[i] == chord;
    assert(0 <= i < cs.len() && cs[i] == chord && (forall|j: int|
        0 <= j < cs.len() && cs[j] == chord ==> j == i));
}

} // verus!
