//! Prompt template substitution: every occurrence of the literal token
//! `{{selectedText}}` in a template is replaced by the captured selection,
//! scanning left to right without overlap, exactly as the host's string
//! replace would.

use vstd::prelude::*;

verus! {

/// The literal placeholder token; 16 characters.
pub open spec fn placeholder() -> Seq<char> {
    "{{selectedText}}"@
}

/// The template with every occurrence of the placeholder replaced by `sel`,
/// leftmost first, non-overlapping.
pub open spec fn spec_render_template(t: Seq<char>, sel: Seq<char>) -> Seq<char>
    decreases t.len(),
{
    if t.len() == 0 {
        Seq::empty()
    } else if t.len() >= 16 && t.take(16) == placeholder() {
        sel + spec_render_template(t.skip(16), sel)
    } else {
        seq![t[0]] + spec_render_template(t.skip(1), sel)
    }
}

/// Whether the placeholder occurs anywhere in `t`.
pub open spec fn spec_has_placeholder(t: Seq<char>) -> bool {
    exists|i: int| 0 <= i && i + 16 <= t.len() && #[trigger] t.subrange(i, i + 16) == placeholder()
}

/// Whether the placeholder sits at position `i`.
fn matches_placeholder_at(t: &str, i: usize) -> (b: bool)
    requires
        i + 16 <= t@.len(),
        t@.len() <= usize::MAX,
    ensures
        b == (t@.subrange(i as int, i as int + 16) == placeholder()),
{
    let p = "{{selectedText}}";
    proof {
        reveal_strlit("{{selectedText}}");
    }
    let mut k: usize = 0;
    while k < 16
        invariant
            k <= 16,
            i + 16 <= t@.len(),
            t@.len() <= usize::MAX,
            p@ == placeholder(),
            p@.len() == 16,
            forall|m: int| 0 <= m < k ==> t@[i + m] == placeholder()[m],
        decreases 16 - k,
    {
        if t.get_char(i + k) != p.get_char(k) {
            assert(t@[i + k as int] != placeholder()[k as int]);
            assert(t@.subrange(i as int, i as int + 16) != placeholder()) by {
                assert(t@.subrange(i as int, i as int + 16)[k as int] == t@[i + k as int]);
            }
            return false;
        }
        k = k + 1;
    }
    assert(t@.subrange(i as int, i as int + 16) =~= placeholder());
    true
}

/// Replaces every occurrence of `{{selectedText}}` in the template by the
/// captured selection.
pub fn render_template(template: &str, selected: &str) -> (r: String)
    ensures
        r@ == spec_render_template(template@, selected@),
{
    let n = template.unicode_len();
    let mut out = String::new();
    let mut i: usize = 0;
    proof {
        reveal_strlit("{{selectedText}}");
        assert(template@.skip(0) =~= template@);
        assert(out@ + spec_render_template(template@, selected@) =~= spec_render_template(
            template@,
            selected@,
        ));
    }
    while i < n
        invariant
            i <= n,
            n == template@.len(),
            out@ + spec_render_template(template@.skip(i as int), selected@)
                == spec_render_template(template@, selected@),
        decreases n - i,
    {
        let ghost tail = template@.skip(i as int);
        if n - i >= 16 && matches_placeholder_at(template, i) {
            proof {
                assert(tail.take(16) =~= template@.subrange(i as int, i as int + 16));
                assert(tail.skip(16) =~= template@.skip(i as int + 16));
                assert(spec_render_template(tail, selected@) == selected@
                    + spec_render_template(tail.skip(16), selected@));
            }
            out.append(selected);
            i = i + 16;
        } else {
            proof {
                if tail.len() >= 16 && tail.take(16) == placeholder() {
                    assert(tail.take(16) =~= template@.subrange(i as int, i as int + 16));
                    assert(false);
                }
                assert(spec_render_template(tail, selected@) == seq![tail[0]]
                    + spec_render_template(tail.skip(1), selected@));
                assert(tail.skip(1) =~= template@.skip(i as int + 1));
            }
            let piece = template.substring_char(i, i + 1);
            proof {
                assert(piece@ =~= seq![tail[0]]);
            }
            out.append(piece);
            i = i + 1;
        }
    }
    proof {
        assert(template@.skip(n as int) =~= Seq::<char>::empty());
    }
    out
}

/// Law: a template in which the placeholder does not occur is passed through
/// unchanged, whatever the selection.
pub proof fn lemma_render_without_placeholder(t: Seq<char>, sel: Seq<char>)
    requires
        !spec_has_placeholder(t),
    ensures
        spec_render_template(t, sel) == t,
    decreases t.len(),
{
    if t.len() == 0 {
        assert(spec_render_template(t, sel) =~= t);
    } else {
        if t.len() >= 16 && t.take(16) == placeholder() {
            let z: int = 0;
            assert(t.subrange(z, z + 16) =~= t.take(16));
            assert(spec_has_placeholder(t));
        }
        assert(!spec_has_placeholder(t.skip(1))) by {
            if spec_has_placeholder(t.skip(1)) {
                let i = choose|i: int|
                    0 <= i && i + 16 <= t.skip(1).len() && #[trigger] t.skip(1).subrange(i, i + 16)
                        == placeholder();
                let j = i + 1;
                assert(t.subrange(j, j + 16) =~= t.skip(1).subrange(i, i + 16));
            }
        }
        lemma_render_without_placeholder(t.skip(1), sel);
        assert(spec_render_template(t, sel) == seq![t[0]] + t.skip(1));
        assert(seq![t[0]] + t.skip(1) =~= t);
    }
}

} // verus!
