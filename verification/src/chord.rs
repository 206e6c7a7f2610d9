//! Key chords: the normalized form of a keyboard shortcut.
//!
//! A chord is written as `+`-separated tokens: zero or more modifier names
//! (`ctrl`, `alt`, `shift`, and `cmd`/`super`/`meta` for the platform key)
//! followed by exactly one key token, e.g. `cmd+shift+k` or `f`. The
//! normalized spelling lists the modifiers in a fixed order under canonical
//! names, so two spellings of the same chord normalize to the same string.

use vstd::prelude::*;

verus! {

/// A parsed key chord: modifier flags plus the key token.
pub struct Chord {
    pub ctrl: bool,
    pub alt: bool,
    pub shift: bool,
    pub meta: bool,
    pub key: String,
}

#[verifier::ext_equal]
pub struct ChordModel {
    pub ctrl: bool,
    pub alt: bool,
    pub shift: bool,
    pub meta: bool,
    pub key: Seq<char>,
}

impl View for Chord {
    type V = ChordModel;

    open spec fn view(&self) -> ChordModel {
        ChordModel {
            ctrl: self.ctrl,
            alt: self.alt,
            shift: self.shift,
            meta: self.meta,
            key: self.key@,
        }
    }
}

pub open spec fn is_modifier_token(t: Seq<char>) -> bool {
    ||| t == "ctrl"@
    ||| t == "alt"@
    ||| t == "shift"@
    ||| t == "cmd"@
    ||| t == "super"@
    ||| t == "meta"@
}

pub open spec fn is_key_token(t: Seq<char>) -> bool {
    t.len() > 0 && !is_modifier_token(t)
}

pub open spec fn has_plus(s: Seq<char>) -> bool {
    exists|i: int| 0 <= i < s.len() && s[i] == '+'
}

/// The least index of `'+'` in `s`, when `has_plus(s)`.
pub open spec fn first_plus(s: Seq<char>) -> int {
    choose|i: int|
        0 <= i < s.len() && s[i] == '+' && (forall|k: int| 0 <= k < i ==> s[k] != '+')
}

proof fn lemma_first_plus_agrees(s: Seq<char>, j: int)
    requires
        0 <= j < s.len(),
        s[j] == '+',
        forall|k: int| 0 <= k < j ==> s[k] != '+',
    ensures
        first_plus(s) == j,
{
    assert(0 <= j < s.len() && s[j] == '+' && (forall|k: int| 0 <= k < j ==> s[k] != '+'));
    let i = first_plus(s);
    assert(0 <= i < s.len() && s[i] == '+' && (forall|k: int| 0 <= k < i ==> s[k] != '+'));
    if i < j {
        assert(s[i] != '+');
    } else if j < i {
        assert(s[j] != '+');
    }
}

/// The chord denoted by `s`, or `None` when `s` is malformed: every token
/// before the last must be a modifier name, and the last token must be a
/// non-empty key that is not itself a modifier name.
pub open spec fn spec_parse_chord(s: Seq<char>) -> Option<ChordModel>
    decreases s.len(),
{
    if !has_plus(s) {
        if is_key_token(s) {
            Some(
                (ChordModel { ctrl: false, alt: false, shift: false, meta: false, key: s }),
            )
        } else {
            None
        }
    } else {
        let j = first_plus(s);
        if 0 <= j < s.len() && s[j] == '+' {
            let tok = s.take(j);
            let rest = s.skip(j + 1);
            if is_modifier_token(tok) {
                match spec_parse_chord(rest) {
                    Some(c) => Some(spec_with_modifier(c, tok)),
                    None => None,
                }
            } else {
                None
            }
        } else {
            None
        }
    }
}

pub open spec fn spec_with_modifier(c: ChordModel, tok: Seq<char>) -> ChordModel {
    if tok == "ctrl"@ {
        ChordModel { ctrl: true, ..c }
    } else if tok == "alt"@ {
        ChordModel { alt: true, ..c }
    } else if tok == "shift"@ {
        ChordModel { shift: true, ..c }
    } else {
        ChordModel { meta: true, ..c }
    }
}

/// Whether `s` spells a well-formed chord.
pub open spec fn chord_wf(s: Seq<char>) -> bool {
    spec_parse_chord(s) is Some
}

/// The canonical spelling of a chord: modifiers in the order
/// `ctrl`, `alt`, `shift`, `meta`, then the key token.
pub open spec fn spec_render_chord(c: ChordModel) -> Seq<char> {
    (if c.ctrl {
        "ctrl+"@
    } else {
        Seq::<char>::empty()
    }) + (if c.alt {
        "alt+"@
    } else {
        Seq::<char>::empty()
    }) + (if c.shift {
        "shift+"@
    } else {
        Seq::<char>::empty()
    }) + (if c.meta {
        "meta+"@
    } else {
        Seq::<char>::empty()
    }) + c.key
}

/// The normalized spelling of a well-formed chord string.
pub open spec fn spec_normalize_chord(s: Seq<char>) -> Seq<char>
    recommends
        chord_wf(s),
{
    spec_render_chord(spec_parse_chord(s)->Some_0)
}

/// The least `'+'` position in `s`, scanned left to right.
fn find_plus(s: &str) -> (r: Option<usize>)
    ensures
        match r {
            Some(j) => j < s@.len() && s@[j as int] == '+' && (forall|k: int|
                0 <= k < j ==> s@[k] != '+'),
            None => !has_plus(s@),
        },
{
    let n = s.unicode_len();
    let mut i: usize = 0;
    while i < n
        invariant
            i <= n,
            n == s@.len(),
            forall|k: int| 0 <= k < i ==> s@[k] != '+',
        decreases n - i,
    {
        if s.get_char(i) == '+' {
            return Some(i);
        }
        i = i + 1;
    }
    None
}

/// Whether two string slices are equal, by owned comparison.
pub fn str_eq(tok: &str, lit: &str) -> (b: bool)
    ensures
        b == (tok@ == lit@),
{
    let a = tok.to_owned();
    let c = lit.to_owned();
    a == c
}

fn is_modifier(tok: &str) -> (b: bool)
    ensures
        b == is_modifier_token(tok@),
{
    str_eq(tok, "ctrl") || str_eq(tok, "alt") || str_eq(tok, "shift") || str_eq(
        tok,
        "cmd",
    ) || str_eq(tok, "super") || str_eq(tok, "meta")
}

/// Parses a chord string into its modifier flags and key token.
pub fn parse_chord(s: &str) -> (r: Option<Chord>)
    ensures
        match r {
            Some(c) => spec_parse_chord(s@) == Some(c@),
            None => spec_parse_chord(s@) is None,
        },
    decreases s@.len(),
{
    match find_plus(s) {
        None => {
            if s.unicode_len() > 0 && !is_modifier(s) {
                Some(
                    Chord {
                        ctrl: false,
                        alt: false,
                        shift: false,
                        meta: false,
                        key: s.to_owned(),
                    },
                )
            } else {
                None
            }
        },
        Some(j) => {
            proof {
                lemma_first_plus_agrees(s@, j as int);
            }
            let n = s.unicode_len();
            let tok = s.substring_char(0, j);
            let rest = s.substring_char(j + 1, n);
            assert(tok@ == s@.take(j as int));
            assert(rest@ == s@.skip(j as int + 1));
            if !is_modifier(tok) {
                return None;
            }
            match parse_chord(rest) {
                None => None,
                Some(c) => {
                    let with_tok = if str_eq(tok, "ctrl") {
                        Chord { ctrl: true, ..c }
                    } else if str_eq(tok, "alt") {
                        Chord { alt: true, ..c }
                    } else if str_eq(tok, "shift") {
                        Chord { shift: true, ..c }
                    } else {
                        Chord { meta: true, ..c }
                    };
                    assert(with_tok@ == spec_with_modifier(c@, tok@));
                    Some(with_tok)
                },
            }
        },
    }
}

/// Renders a chord in its canonical spelling.
pub fn render_chord(c: &Chord) -> (r: String)
    ensures
        r@ == spec_render_chord(c@),
{
    let mut out = String::new();
    if c.ctrl {
        out.append("ctrl+");
    }
    if c.alt {
        out.append("alt+");
    }
    if c.shift {
        out.append("shift+");
    }
    if c.meta {
        out.append("meta+");
    }
    out.append(c.key.as_str());
    out
}

/// Normalizes a chord string to its canonical spelling, or reports that it is
/// malformed.
pub fn normalize_chord(s: &str) -> (r: Option<String>)
    ensures
        match r {
            Some(n) => chord_wf(s@) && n@ == spec_normalize_chord(s@),
            None => !chord_wf(s@),
        },
{
    match parse_chord(s) {
        None => None,
        Some(c) => Some(render_chord(&c)),
    }
}

/// Whether `s` spells a well-formed chord.
pub fn chord_is_wf(s: &str) -> (b: bool)
    ensures
        b == chord_wf(s@),
{
    match parse_chord(s) {
        None => false,
        Some(_) => true,
    }
}

} // verus!
