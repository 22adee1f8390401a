//! The order of texts (character by character, a proper prefix first, as
//! `str`'s `Ord` orders them) and ordering positions by it.

use vstd::prelude::*;

use crate::text::chars_of;

verus! {

/// Whether `a` comes strictly before `b`: at the first position where they
/// differ `a` has the smaller character, or `a` is a proper prefix of `b`.
pub open spec fn text_lt(a: Seq<char>, b: Seq<char>) -> bool
    decreases a.len(),
{
    if a.len() == 0 {
        b.len() > 0
    } else if b.len() == 0 {
        false
    } else if a[0] != b[0] {
        a[0] < b[0]
    } else {
        text_lt(a.drop_first(), b.drop_first())
    }
}

/// No text comes before itself, and of two texts at most one comes first.
pub proof fn lemma_text_lt_asymmetric(a: Seq<char>, b: Seq<char>)
    ensures
        !(text_lt(a, b) && text_lt(b, a)),
        !text_lt(a, a),
    decreases a.len(),
{
    if a.len() > 0 && b.len() > 0 && a[0] == b[0] {
        lemma_text_lt_asymmetric(a.drop_first(), b.drop_first());
    }
    if a.len() > 0 {
        lemma_text_lt_asymmetric(a.drop_first(), a.drop_first());
    }
}

/// Two texts neither of which comes before the other are equal.
pub proof fn lemma_text_lt_total(a: Seq<char>, b: Seq<char>)
    ensures
        !text_lt(a, b) && !text_lt(b, a) ==> a == b,
    decreases a.len(),
{
    if a.len() > 0 && b.len() > 0 && a[0] == b[0] {
        lemma_text_lt_total(a.drop_first(), b.drop_first());
        if !text_lt(a, b) && !text_lt(b, a) {
            assert(a == seq![a[0]] + a.drop_first());
            assert(b == seq![b[0]] + b.drop_first());
        }
    }
    if a.len() == 0 && b.len() == 0 {
        assert(a =~= b);
    }
}

/// Coming before is transitive.
pub proof fn lemma_text_lt_transitive(a: Seq<char>, b: Seq<char>, c: Seq<char>)
    requires
        text_lt(a, b),
        text_lt(b, c),
    ensures
        text_lt(a, c),
    decreases a.len(),
{
    if a.len() > 0 && b.len() > 0 && c.len() > 0 && a[0] == b[0] && b[0] == c[0] {
        lemma_text_lt_transitive(a.drop_first(), b.drop_first(), c.drop_first());
    }
}

/// Whether `a` comes strictly before `b`.
pub fn text_less(a: &str, b: &str) -> (r: bool)
    ensures
        r == text_lt(a@, b@),
{
    let x = chars_of(a);
    let y = chars_of(b);
    let mut i: usize = 0;
    assert(a@.skip(0) == a@ && b@.skip(0) == b@);
    while i < x.len() && i < y.len() && x[i] == y[i]
        invariant
            i <= x.len(),
            i <= y.len(),
            x@ == a@,
            y@ == b@,
            text_lt(a@, b@) == text_lt(a@.skip(i as int), b@.skip(i as int)),
        decreases x.len() - i,
    {
        assert(a@.skip(i as int).drop_first() == a@.skip(i + 1));
        assert(b@.skip(i as int).drop_first() == b@.skip(i + 1));
        i = i + 1;
    }
    let ghost sa = a@.skip(i as int);
    let ghost sb = b@.skip(i as int);
    if i == x.len() {
        i < y.len()
    } else if i == y.len() {
        false
    } else {
        assert(sa[0] == x@[i as int] && sb[0] == y@[i as int]);
        x[i] < y[i]
    }
}

/// Whether the positions `order` list the texts from last to first: no text
/// comes before a text listed after it.
pub open spec fn descending(keys: Seq<Seq<char>>, order: Seq<usize>) -> bool {
    forall|i: int, j: int|
        0 <= i < j < order.len() ==> !text_lt(
            #[trigger] keys[order[i] as int],
            #[trigger] keys[order[j] as int],
        )
}

/// Whether position `t` is listed in `order`.
pub open spec fn lists_position(order: Seq<usize>, t: int) -> bool {
    exists|k: int| 0 <= k < order.len() && order[k] == t
}

/// Whether `order` lists each of the positions `0..n` exactly once.
pub open spec fn arrangement(order: Seq<usize>, n: nat) -> bool {
    &&& order.len() == n
    &&& forall|i: int| 0 <= i < order.len() ==> #[trigger] order[i] < n
    &&& forall|i: int, j: int| 0 <= i < j < order.len() ==> #[trigger] order[i] != #[trigger] order[j]
    &&& forall|t: int| 0 <= t < n ==> #[trigger] lists_position(order, t)
}

/// The views of a sequence of strings.
pub open spec fn views_of(s: Seq<String>) -> Seq<Seq<char>> {
    s.map_values(|x: String| x@)
}

/// The positions of `keys` ordered from the text that comes last to the
/// one that comes first; equal texts keep their order.
pub fn order_descending(keys: &Vec<String>) -> (r: Vec<usize>)
    ensures
        arrangement(r@, keys@.len()),
        descending(views_of(keys@), r@),
{
    let ghost ks = views_of(keys@);
    let mut out: Vec<usize> = Vec::new();
    let mut i: usize = 0;
    while i < keys.len()
        invariant
            i <= keys.len(),
            ks == views_of(keys@),
            out@.len() == i,
            forall|k: int| 0 <= k < out@.len() ==> #[trigger] out@[k] < i,
            forall|k: int, l: int| 0 <= k < l < out@.len() ==> #[trigger] out@[k] != #[trigger] out@[l],
            forall|t: int| 0 <= t < i ==> #[trigger] lists_position(out@, t),
            descending(ks, out@),
        decreases keys.len() - i,
    {
        let x = keys[i].as_str();
        assert(ks[i as int] == keys@[i as int]@);
        let mut p: usize = 0;
        while p < out.len() && !text_less(keys[out[p]].as_str(), x)
            invariant
                p <= out@.len(),
                out@.len() == i,
                i < keys.len(),
                ks == views_of(keys@),
                x@ == ks[i as int],
                forall|k: int| 0 <= k < out@.len() ==> #[trigger] out@[k] < i,
                forall|k: int| 0 <= k < p ==> !text_lt(#[trigger] ks[out@[k] as int], ks[i as int]),
            decreases out@.len() - p,
        {
            assert(ks[out@[p as int] as int] == keys@[out@[p as int] as int]@);
            p = p + 1;
        }
        proof {
            if p < out@.len() {
                assert(ks[out@[p as int] as int] == keys@[out@[p as int] as int]@);
                assert(text_lt(ks[out@[p as int] as int], ks[i as int]));
            }
        }
        let ghost before = out@;
        out.insert(p, i);
        assert(out@ == before.insert(p as int, i));
        proof {
            assert forall|t: int| 0 <= t < i + 1 implies #[trigger] lists_position(out@, t) by {
                if t == i {
                    assert(out@[p as int] == i);
                } else {
                    assert(lists_position(before, t));
                    let k = choose|k: int| 0 <= k < before.len() && before[k] == t;
                    if k < p {
                        assert(out@[k] == t);
                    } else {
                        assert(out@[k + 1] == t);
                    }
                }
            }
            assert forall|k: int, l: int| 0 <= k < l < out@.len() implies !text_lt(
                #[trigger] ks[out@[k] as int],
                #[trigger] ks[out@[l] as int],
            ) by {
                if l < p {
                    assert(out@[k] == before[k] && out@[l] == before[l]);
                } else if l == p {
                    assert(out@[k] == before[k]);
                } else if k == p {
                    let b = ks[before[p as int] as int];
                    let c = ks[before[l - 1] as int];
                    assert(out@[l] == before[l - 1]);
                    assert(text_lt(b, ks[i as int]));
                    if l - 1 > p {
                        assert(!text_lt(b, c));
                        lemma_text_lt_total(b, c);
                        if text_lt(c, b) {
                            lemma_text_lt_transitive(c, b, ks[i as int]);
                        }
                        lemma_text_lt_asymmetric(c, ks[i as int]);
                    } else {
                        lemma_text_lt_asymmetric(b, ks[i as int]);
                    }
                } else if k < p {
                    assert(out@[k] == before[k] && out@[l] == before[l - 1]);
                } else {
                    assert(out@[k] == before[k - 1] && out@[l] == before[l - 1]);
                }
            }
        }
        i = i + 1;
    }
    out
}

/// The position of a text that no other text comes before (the first
/// such), or `None` when there are none.
pub fn first_in_order(keys: &Vec<String>) -> (r: Option<usize>)
    ensures
        keys@.len() == 0 <==> r is None,
        r is Some ==> r->0 < keys@.len() && forall|j: int|
            0 <= j < keys@.len() ==> !text_lt(
                #[trigger] views_of(keys@)[j],
                views_of(keys@)[r->0 as int],
            ),
{
    if keys.len() == 0 {
        return None;
    }
    let ghost ks = views_of(keys@);
    let mut best: usize = 0;
    let mut i: usize = 1;
    proof {
        lemma_text_lt_asymmetric(ks[0], ks[0]);
    }
    while i < keys.len()
        invariant
            1 <= i <= keys.len(),
            best < i,
            ks == views_of(keys@),
            forall|j: int| 0 <= j < i ==> !text_lt(#[trigger] ks[j], ks[best as int]),
        decreases keys.len() - i,
    {
        assert(ks[i as int] == keys@[i as int]@ && ks[best as int] == keys@[best as int]@);
        if text_less(keys[i].as_str(), keys[best].as_str()) {
            proof {
                assert forall|j: int| 0 <= j < i + 1 implies !text_lt(#[trigger] ks[j], ks[i as int]) by {
                    if j < i {
                        if text_lt(ks[j], ks[i as int]) {
                            lemma_text_lt_transitive(ks[j], ks[i as int], ks[best as int]);
                        }
                    } else {
                        lemma_text_lt_asymmetric(ks[j], ks[j]);
                    }
                }
            }
            best = i;
        }
        i = i + 1;
    }
    Some(best)
}

} // verus!
