//! Slugs generated from display names: lowercase ASCII letters and digits in
//! runs joined by single hyphens, at most 63 characters.

use vstd::prelude::*;

use crate::text::{
    ascii_lowered, ascii_text, chars_of, lowercased, no_ascii_capitals, string_of,
    to_lowercase,
};

verus! {

/// Longest generated slug, in characters (all ASCII, so also in bytes).
pub const MAX_SLUG_LEN: usize = 63;

/// Whether `c` is an ASCII letter or digit.
pub open spec fn ascii_alnum(c: char) -> bool {
    ('a' <= c && c <= 'z') || ('A' <= c && c <= 'Z') || ('0' <= c && c <= '9')
}

/// Every character that is not an ASCII letter or digit becomes `-`.
pub open spec fn separated(s: Seq<char>) -> Seq<char> {
    s.map_values(|c: char| if ascii_alnum(c) { c } else { '-' })
}

/// The runs of non-`-` characters of `s`, joined by single `-`: leading and
/// trailing `-` dropped, inner runs of `-` collapsed to one.
pub open spec fn squeeze(s: Seq<char>) -> Seq<char>
    decreases s.len(),
{
    if s.len() == 0 {
        Seq::empty()
    } else {
        let rest = squeeze(s.drop_last());
        let c = s.last();
        if c == '-' {
            rest
        } else if s.len() >= 2 && s[s.len() - 2] == '-' && rest.len() > 0 {
            rest.push('-').push(c)
        } else {
            rest.push(c)
        }
    }
}

/// `s` without its trailing `-` characters.
pub open spec fn strip_trailing_dashes(s: Seq<char>) -> Seq<char>
    decreases s.len(),
{
    if s.len() > 0 && s.last() == '-' {
        strip_trailing_dashes(s.drop_last())
    } else {
        s
    }
}

/// `s` cut to the slug length limit, without a trailing `-` the cut exposes.
pub open spec fn capped(s: Seq<char>) -> Seq<char> {
    if s.len() > MAX_SLUG_LEN {
        strip_trailing_dashes(s.take(MAX_SLUG_LEN as int))
    } else {
        s
    }
}

/// The slug of an already-lowercased name.
pub open spec fn slug_of(lower: Seq<char>) -> Seq<char> {
    capped(squeeze(separated(lower)))
}

/// Whether `s` has the shape of a slug: 1 to 63 ASCII letters, digits and
/// `-`, not starting or ending with `-`, with no two `-` in a row.
pub open spec fn slug_shaped(s: Seq<char>) -> bool {
    &&& 1 <= s.len() <= MAX_SLUG_LEN
    &&& forall|i: int| 0 <= i < s.len() ==> ascii_alnum(#[trigger] s[i]) || s[i] == '-'
    &&& s[0] != '-'
    &&& s.last() != '-'
    &&& forall|i: int| 0 <= i < s.len() - 1 ==> !(#[trigger] s[i] == '-' && s[i + 1] == '-')
}

/// The shape facts that hold of a sequence at every length.
pub open spec fn dash_sound(s: Seq<char>) -> bool {
    &&& forall|i: int| 0 <= i < s.len() ==> ascii_alnum(#[trigger] s[i]) || s[i] == '-'
    &&& s.len() > 0 ==> s[0] != '-'
    &&& forall|i: int| 0 <= i < s.len() - 1 ==> !(#[trigger] s[i] == '-' && s[i + 1] == '-')
}

proof fn lemma_squeeze_sound(s: Seq<char>)
    requires
        forall|i: int| 0 <= i < s.len() ==> ascii_alnum(#[trigger] s[i]) || s[i] == '-',
    ensures
        dash_sound(squeeze(s)),
        squeeze(s).len() > 0 ==> squeeze(s).last() != '-',
    decreases s.len(),
{
    if s.len() > 0 {
        let d = s.drop_last();
        assert forall|i: int| 0 <= i < d.len() implies ascii_alnum(#[trigger] d[i]) || d[i] == '-' by {
            assert(d[i] == s[i]);
        }
        lemma_squeeze_sound(d);
        let rest = squeeze(d);
        let r = squeeze(s);
        let c = s.last();
        assert(ascii_alnum(s[s.len() - 1]) || s[s.len() - 1] == '-');
        if c != '-' {
            if s.len() >= 2 && s[s.len() - 2] == '-' && rest.len() > 0 {
                assert(r == rest.push('-').push(c));
                assert forall|i: int| 0 <= i < r.len() - 1 implies !(#[trigger] r[i] == '-' && r[i
                    + 1] == '-') by {
                    if i < rest.len() - 1 {
                        assert(r[i] == rest[i] && r[i + 1] == rest[i + 1]);
                    } else if i == rest.len() - 1 {
                        assert(r[i] == rest.last());
                    }
                }
                assert forall|i: int| 0 <= i < r.len() implies ascii_alnum(#[trigger] r[i]) || r[i]
                    == '-' by {
                    if i < rest.len() {
                        assert(r[i] == rest[i]);
                    }
                }
            } else {
                assert(r == rest.push(c));
                assert forall|i: int| 0 <= i < r.len() - 1 implies !(#[trigger] r[i] == '-' && r[i
                    + 1] == '-') by {
                    if i < rest.len() - 1 {
                        assert(r[i] == rest[i] && r[i + 1] == rest[i + 1]);
                    }
                }
                assert forall|i: int| 0 <= i < r.len() implies ascii_alnum(#[trigger] r[i]) || r[i]
                    == '-' by {
                    if i < rest.len() {
                        assert(r[i] == rest[i]);
                    }
                }
            }
        }
    }
}

proof fn lemma_take_sound(s: Seq<char>, n: int)
    requires
        dash_sound(s),
        0 <= n <= s.len(),
    ensures
        dash_sound(s.take(n)),
{
    let t = s.take(n);
    assert forall|i: int| 0 <= i < t.len() implies ascii_alnum(#[trigger] t[i]) || t[i] == '-' by {
        assert(t[i] == s[i]);
    }
    assert forall|i: int| 0 <= i < t.len() - 1 implies !(#[trigger] t[i] == '-' && t[i + 1]
        == '-') by {
        assert(t[i] == s[i] && t[i + 1] == s[i + 1]);
    }
    if t.len() > 0 {
        assert(t[0] == s[0]);
    }
}

proof fn lemma_strip_sound(s: Seq<char>)
    requires
        dash_sound(s),
    ensures
        dash_sound(strip_trailing_dashes(s)),
        strip_trailing_dashes(s).len() > 0 ==> strip_trailing_dashes(s).last() != '-',
        strip_trailing_dashes(s).len() <= s.len(),
    decreases s.len(),
{
    if s.len() > 0 && s.last() == '-' {
        lemma_take_sound(s, s.len() - 1);
        assert(s.drop_last() == s.take(s.len() - 1));
        lemma_strip_sound(s.drop_last());
    }
}

/// Law: a generated slug is either empty or slug-shaped, whatever the name.
pub proof fn law_slug_is_empty_or_slug_shaped(lower: Seq<char>)
    ensures
        slug_of(lower).len() == 0 || slug_shaped(slug_of(lower)),
{
    let m = separated(lower);
    assert forall|i: int| 0 <= i < m.len() implies ascii_alnum(#[trigger] m[i]) || m[i] == '-' by {}
    lemma_squeeze_sound(m);
    let q = squeeze(m);
    if q.len() > MAX_SLUG_LEN {
        lemma_take_sound(q, MAX_SLUG_LEN as int);
        lemma_strip_sound(q.take(MAX_SLUG_LEN as int));
    }
}

proof fn lemma_squeeze_no_capitals(s: Seq<char>)
    requires
        no_ascii_capitals(s),
    ensures
        no_ascii_capitals(squeeze(s)),
    decreases s.len(),
{
    if s.len() > 0 {
        let d = s.drop_last();
        assert forall|i: int| 0 <= i < d.len() implies !('A' <= #[trigger] d[i] && d[i] <= 'Z') by {
            assert(d[i] == s[i]);
        }
        lemma_squeeze_no_capitals(d);
        let rest = squeeze(d);
        let r = squeeze(s);
        let c = s.last();
        assert(!('A' <= s[s.len() - 1] && s[s.len() - 1] <= 'Z'));
        if c != '-' {
            if s.len() >= 2 && s[s.len() - 2] == '-' && rest.len() > 0 {
                assert(r == rest.push('-').push(c));
            } else {
                assert(r == rest.push(c));
            }
            assert forall|i: int| 0 <= i < r.len() implies !('A' <= #[trigger] r[i] && r[i] <= 'Z') by {
                if i < rest.len() {
                    assert(r[i] == rest[i]);
                }
            }
        }
    }
}

proof fn lemma_strip_no_capitals(s: Seq<char>)
    requires
        no_ascii_capitals(s),
    ensures
        no_ascii_capitals(strip_trailing_dashes(s)),
    decreases s.len(),
{
    if s.len() > 0 && s.last() == '-' {
        let d = s.drop_last();
        assert forall|i: int| 0 <= i < d.len() implies !('A' <= #[trigger] d[i] && d[i] <= 'Z') by {
            assert(d[i] == s[i]);
        }
        lemma_strip_no_capitals(d);
    }
}

/// A text without a leading `-` or two `-` in a row squeezes to itself
/// without its trailing `-`.
proof fn lemma_squeeze_of_sound(s: Seq<char>)
    requires
        dash_sound(s),
    ensures
        squeeze(s) == strip_trailing_dashes(s),
    decreases s.len(),
{
    if s.len() > 0 {
        let d = s.drop_last();
        lemma_take_sound(s, s.len() - 1);
        assert(d == s.take(s.len() - 1));
        lemma_squeeze_of_sound(d);
        let c = s.last();
        if c != '-' {
            if s.len() >= 2 && s[s.len() - 2] == '-' {
                assert(s.len() >= 3);
                assert(!(s[s.len() - 3] == '-' && s[s.len() - 2] == '-'));
                assert(d.last() == '-');
                assert(d.drop_last().last() == s[s.len() - 3]);
                assert(strip_trailing_dashes(d.drop_last()) == d.drop_last());
                assert(strip_trailing_dashes(d) == d.drop_last());
                assert(squeeze(s) == d.drop_last().push('-').push(c));
                assert(squeeze(s) =~= s);
            } else {
                assert(strip_trailing_dashes(d) == d);
                assert(squeeze(s) =~= s);
            }
        }
    }
}

/// Law: a slug is settled. The slug of any text is ASCII and its own slug;
/// the slug of a text without ASCII capitals (every lowercased name) has
/// none either, and then slugging the slug again — whose lowercase, being
/// ASCII, is its ASCII lowercase — gives it back unchanged.
pub proof fn law_slug_idempotent(lower: Seq<char>)
    ensures
        ascii_text(slug_of(lower)),
        slug_of(slug_of(lower)) == slug_of(lower),
        no_ascii_capitals(lower) ==> no_ascii_capitals(slug_of(lower)) && slug_of(
            ascii_lowered(slug_of(lower)),
        ) == slug_of(lower),
{
    let g = slug_of(lower);
    law_slug_is_empty_or_slug_shaped(lower);
    assert(ascii_text(g)) by {
        assert forall|i: int| 0 <= i < g.len() implies #[trigger] g[i] <= '\u{7f}' by {
            assert(ascii_alnum(g[i]) || g[i] == '-');
        }
    }
    if g.len() > 0 {
        assert(separated(g) =~= g) by {
            assert forall|i: int| 0 <= i < g.len() implies separated(g)[i] == g[i] by {
                assert(ascii_alnum(g[i]) || g[i] == '-');
            }
        }
        lemma_squeeze_of_sound(g);
        assert(strip_trailing_dashes(g) == g);
    } else {
        assert(separated(g) =~= g);
    }
    if no_ascii_capitals(lower) {
        let m = separated(lower);
        assert forall|i: int| 0 <= i < m.len() implies !('A' <= #[trigger] m[i] && m[i] <= 'Z') by {
            assert(!('A' <= lower[i] && lower[i] <= 'Z'));
        }
        lemma_squeeze_no_capitals(m);
        let q = squeeze(m);
        if q.len() > MAX_SLUG_LEN {
            let t = q.take(MAX_SLUG_LEN as int);
            assert forall|i: int| 0 <= i < t.len() implies !('A' <= #[trigger] t[i] && t[i] <= 'Z') by {
                assert(t[i] == q[i]);
            }
            lemma_strip_no_capitals(t);
        }
        assert(ascii_lowered(g) =~= g) by {
            assert forall|i: int| 0 <= i < g.len() implies ascii_lowered(g)[i] == g[i] by {
                assert(!('A' <= g[i] && g[i] <= 'Z'));
            }
        }
    }
}

/// Whether `c` is an ASCII letter or digit.
fn is_ascii_alnum(c: char) -> (r: bool)
    ensures
        r == ascii_alnum(c),
{
    ('a' <= c && c <= 'z') || ('A' <= c && c <= 'Z') || ('0' <= c && c <= '9')
}

/// The slug of an already-lowercased name: non-alphanumeric characters
/// separate runs joined by single `-`, cut to 63 characters without a
/// trailing `-`.
pub fn slug_from_lowercase(lower: &str) -> (r: String)
    ensures
        r@ == slug_of(lower@),
{
    let cs = chars_of(lower);
    let ghost m = separated(lower@);
    let mut out: Vec<char> = Vec::new();
    let mut prev_dash = false;
    let mut i: usize = 0;
    while i < cs.len()
        invariant
            i <= cs.len(),
            cs@ == lower@,
            m == separated(lower@),
            m.len() == cs.len(),
            out@ == squeeze(m.take(i as int)),
            prev_dash == (i >= 1 && m[i - 1] == '-'),
        decreases cs.len() - i,
    {
        let c = cs[i];
        let d = if is_ascii_alnum(c) {
            c
        } else {
            '-'
        };
        proof {
            assert(m.take(i + 1).drop_last() == m.take(i as int));
            assert(m[i as int] == d);
            if i >= 1 {
                assert(m.take(i + 1)[i - 1] == m[i - 1]);
            }
        }
        if d != '-' {
            if prev_dash && out.len() > 0 {
                out.push('-');
            }
            out.push(d);
        }
        prev_dash = d == '-';
        i = i + 1;
    }
    assert(m.take(cs.len() as int) == m);
    if out.len() > MAX_SLUG_LEN {
        out.truncate(MAX_SLUG_LEN);
        while out.len() > 0 && out[out.len() - 1] == '-'
            invariant
                strip_trailing_dashes(out@) == strip_trailing_dashes(squeeze(m).take(MAX_SLUG_LEN as int)),
            decreases out.len(),
        {
            out.pop();
        }
    }
    string_of(&out)
}

/// Whether `s` is a settled slug: ASCII, without capitals, and its own
/// slug.
pub open spec fn settled_slug(s: Seq<char>) -> bool {
    ascii_text(s) && no_ascii_capitals(s) && slug_of(s) == s
}

/// The slug generated for a display name: lowercase it, then
/// [`slug_from_lowercase`]. May be empty (a name of punctuation only).
/// Every slug is settled, and a settled slug given as the name comes back
/// unchanged, so slugging a slug gives it back:
/// `generate_slug(&generate_slug(name)) == generate_slug(name)`.
pub fn generate_slug(name: &str) -> (r: String)
    ensures
        r@ == slug_of(lowercased(name@)),
        settled_slug(r@),
        settled_slug(name@) ==> r@ == name@,
{
    let lower = to_lowercase(name);
    proof {
        law_slug_idempotent(lower@);
        if settled_slug(name@) {
            assert(ascii_lowered(name@) =~= name@) by {
                assert forall|i: int| 0 <= i < name@.len() implies ascii_lowered(name@)[i]
                    == name@[i] by {
                    assert(!('A' <= name@[i] && name@[i] <= 'Z'));
                }
            }
        }
    }
    slug_from_lowercase(lower.as_str())
}

} // verus!
