//! Ordered lists of name/value pairs: the query parameters and the headers
//! of a request.
//!
//! A query parameter name is matched exactly; a header name is matched
//! without regard to ASCII case. Setting a name removes every entry that
//! matches it and appends the new entry, so a set name holds exactly one
//! value afterwards.

use crate::text::{names_match, same_name};
use vstd::prelude::*;

verus! {

/// A list of name/value pairs, in order.
pub type Pairs = Seq<(Seq<char>, Seq<char>)>;

/// Whether two names match, exactly or, for header names, without regard to
/// ASCII case.
pub open spec fn keys_match(a: Seq<char>, b: Seq<char>, caseless: bool) -> bool {
    if caseless {
        same_name(a, b)
    } else {
        a == b
    }
}

/// The entries whose name does not match `k`, in order.
pub open spec fn without_key(ps: Pairs, k: Seq<char>, caseless: bool) -> Pairs
    decreases ps.len(),
{
    if ps.len() == 0 {
        ps
    } else {
        let rest = without_key(ps.drop_last(), k, caseless);
        if keys_match(ps.last().0, k, caseless) {
            rest
        } else {
            rest.push(ps.last())
        }
    }
}

/// The list after setting `k` to `v`: earlier entries of that name go.
pub open spec fn with_key(ps: Pairs, k: Seq<char>, v: Seq<char>, caseless: bool) -> Pairs {
    without_key(ps, k, caseless).push((k, v))
}

/// The list after setting `k` to `v` when a value is present.
pub open spec fn with_opt(ps: Pairs, k: Seq<char>, v: Option<Seq<char>>, caseless: bool) -> Pairs {
    match v {
        Some(x) => with_key(ps, k, x, caseless),
        None => ps,
    }
}

/// The list after setting each entry of `extra` in turn.
pub open spec fn with_all(ps: Pairs, extra: Pairs, caseless: bool) -> Pairs
    decreases extra.len(),
{
    if extra.len() == 0 {
        ps
    } else {
        let e = extra.last();
        with_key(with_all(ps, extra.drop_last(), caseless), e.0, e.1, caseless)
    }
}

/// The values held under the name `k`, in order.
pub open spec fn values_of(ps: Pairs, k: Seq<char>, caseless: bool) -> Seq<Seq<char>>
    decreases ps.len(),
{
    if ps.len() == 0 {
        seq![]
    } else {
        let rest = values_of(ps.drop_last(), k, caseless);
        if keys_match(ps.last().0, k, caseless) {
            rest.push(ps.last().1)
        } else {
            rest
        }
    }
}

/// The value of the last entry named `k`, if any.
pub open spec fn last_value(ps: Pairs, k: Seq<char>, caseless: bool) -> Option<Seq<char>> {
    let vs = values_of(ps, k, caseless);
    if vs.len() == 0 {
        None
    } else {
        Some(vs.last())
    }
}

/// Appending a pair adds its value to the values of the names it matches.
pub proof fn lemma_values_of_push(ps: Pairs, p: (Seq<char>, Seq<char>), k: Seq<char>, caseless: bool)
    ensures
        values_of(ps.push(p), k, caseless) == if keys_match(p.0, k, caseless) {
            values_of(ps, k, caseless).push(p.1)
        } else {
            values_of(ps, k, caseless)
        },
{
    assert(ps.push(p).drop_last() =~= ps);
}

/// Matching names is symmetric and transitive.
pub proof fn lemma_keys_match_equivalence(a: Seq<char>, b: Seq<char>, c: Seq<char>, caseless: bool)
    ensures
        keys_match(a, b, caseless) == keys_match(b, a, caseless),
        keys_match(a, b, caseless) && keys_match(b, c, caseless) ==> keys_match(a, c, caseless),
        keys_match(a, a, caseless),
{
    if caseless {
        if same_name(a, b) {
            assert forall|i: int| 0 <= i < b.len() implies crate::text::folded_code(#[trigger] b[i])
                == crate::text::folded_code(a[i]) by {
                assert(crate::text::folded_code(a[i]) == crate::text::folded_code(b[i]));
            }
        }
        if same_name(a, b) && same_name(b, c) {
            assert forall|i: int| 0 <= i < a.len() implies crate::text::folded_code(#[trigger] a[i])
                == crate::text::folded_code(c[i]) by {
                assert(crate::text::folded_code(a[i]) == crate::text::folded_code(b[i]));
                assert(crate::text::folded_code(b[i]) == crate::text::folded_code(c[i]));
            }
        }
    }
}

/// Removing a name leaves no value under any matching name and every other
/// name's values as they were.
pub proof fn lemma_values_without_key(ps: Pairs, k: Seq<char>, k2: Seq<char>, caseless: bool)
    ensures
        values_of(without_key(ps, k, caseless), k2, caseless) == if keys_match(k2, k, caseless) {
            seq![]
        } else {
            values_of(ps, k2, caseless)
        },
    decreases ps.len(),
{
    if ps.len() > 0 {
        let rest = without_key(ps.drop_last(), k, caseless);
        lemma_values_without_key(ps.drop_last(), k, k2, caseless);
        lemma_keys_match_equivalence(ps.last().0, k, k2, caseless);
        lemma_keys_match_equivalence(ps.last().0, k2, k, caseless);
        lemma_keys_match_equivalence(k2, k, ps.last().0, caseless);
        lemma_keys_match_equivalence(k2, ps.last().0, k, caseless);
        if !keys_match(ps.last().0, k, caseless) {
            lemma_values_of_push(rest, ps.last(), k2, caseless);
        }
    }
}

/// After setting `k` to `v`, the names matching `k` hold `v` alone; the
/// other names keep their values.
pub proof fn lemma_values_with_key(
    ps: Pairs,
    k: Seq<char>,
    v: Seq<char>,
    k2: Seq<char>,
    caseless: bool,
)
    ensures
        values_of(with_key(ps, k, v, caseless), k2, caseless) == if keys_match(k2, k, caseless) {
            seq![v]
        } else {
            values_of(ps, k2, caseless)
        },
{
    lemma_values_without_key(ps, k, k2, caseless);
    lemma_values_of_push(without_key(ps, k, caseless), (k, v), k2, caseless);
    lemma_keys_match_equivalence(k, k2, k, caseless);
    lemma_keys_match_equivalence(k2, k, k, caseless);
    assert(seq![].push(v) =~= seq![v]);
}

/// Setting an optional value changes a name's values only when the value
/// is present and the name matches.
pub proof fn lemma_values_with_opt(
    ps: Pairs,
    k: Seq<char>,
    v: Option<Seq<char>>,
    k2: Seq<char>,
    caseless: bool,
)
    ensures
        values_of(with_opt(ps, k, v, caseless), k2, caseless) == if v is Some && keys_match(
            k2,
            k,
            caseless,
        ) {
            seq![v->0]
        } else {
            values_of(ps, k2, caseless)
        },
{
    if let Some(x) = v {
        lemma_values_with_key(ps, k, x, k2, caseless);
    }
}

/// After setting every entry of `extra`, a name holds the last value that
/// `extra` gave it, or else what it held before.
pub proof fn lemma_values_with_all(ps: Pairs, extra: Pairs, k2: Seq<char>, caseless: bool)
    ensures
        values_of(with_all(ps, extra, caseless), k2, caseless) == match last_value(
            extra,
            k2,
            caseless,
        ) {
            Some(v) => seq![v],
            None => values_of(ps, k2, caseless),
        },
    decreases extra.len(),
{
    if extra.len() > 0 {
        let e = extra.last();
        lemma_values_with_all(ps, extra.drop_last(), k2, caseless);
        lemma_values_with_key(with_all(ps, extra.drop_last(), caseless), e.0, e.1, k2, caseless);
        lemma_keys_match_equivalence(e.0, k2, e.0, caseless);
        lemma_keys_match_equivalence(k2, e.0, e.0, caseless);
    }
}

/// The values under a name in two lists joined are those of the first list,
/// then those of the second.
pub proof fn lemma_values_concat(ps: Pairs, extra: Pairs, k: Seq<char>, caseless: bool)
    ensures
        values_of(ps + extra, k, caseless) == values_of(ps, k, caseless) + values_of(
            extra,
            k,
            caseless,
        ),
    decreases extra.len(),
{
    if extra.len() == 0 {
        assert(ps + extra =~= ps);
        assert(values_of(ps, k, caseless) + seq![] =~= values_of(ps, k, caseless));
    } else {
        lemma_values_concat(ps, extra.drop_last(), k, caseless);
        assert(ps + extra =~= (ps + extra.drop_last()).push(extra.last()));
        lemma_values_of_push(ps + extra.drop_last(), extra.last(), k, caseless);
        lemma_values_of_push(extra.drop_last(), extra.last(), k, caseless);
        assert(extra.drop_last().push(extra.last()) =~= extra);
        assert(values_of(ps, k, caseless) + values_of(extra.drop_last(), k, caseless).push(
            extra.last().1,
        ) =~= (values_of(ps, k, caseless) + values_of(extra.drop_last(), k, caseless)).push(
            extra.last().1,
        ));
    }
}

/// The view of a list of string pairs.
pub open spec fn pairs_view(v: Seq<(String, String)>) -> Pairs {
    v.map_values(|p: (String, String)| (p.0@, p.1@))
}

fn names_equal(a: &str, b: &str, caseless: bool) -> (r: bool)
    ensures
        r == keys_match(a@, b@, caseless),
{
    if caseless {
        names_match(a, b)
    } else {
        a.unicode_len() == b.unicode_len() && text_equal(a, b)
    }
}

fn text_equal(a: &str, b: &str) -> (r: bool)
    requires
        a@.len() == b@.len(),
    ensures
        r == (a@ == b@),
{
    let n = a.unicode_len();
    let mut i: usize = 0;
    while i < n
        invariant
            n == a@.len(),
            n == b@.len(),
            i <= n,
            forall|j: int| 0 <= j < i ==> a@[j] == b@[j],
        decreases n - i,
    {
        if a.get_char(i) != b.get_char(i) {
            return false;
        }
        i = i + 1;
    }
    assert(a@ =~= b@);
    true
}

/// Sets `k` to `v`: every entry whose name matches `k` goes, and `(k, v)`
/// is appended.
pub fn put(ps: Vec<(String, String)>, k: String, v: String, caseless: bool) -> (r: Vec<
    (String, String),
>)
    ensures
        pairs_view(r@) == with_key(pairs_view(ps@), k@, v@, caseless),
{
    let mut kept: Vec<(String, String)> = Vec::new();
    let mut i: usize = 0;
    while i < ps.len()
        invariant
            i <= ps@.len(),
            pairs_view(kept@) == without_key(pairs_view(ps@.take(i as int)), k@, caseless),
        decreases ps@.len() - i,
    {
        let ghost before = kept@;
        assert(pairs_view(ps@.take(i + 1)).drop_last() =~= pairs_view(ps@.take(i as int)));
        if !names_equal(ps[i].0.as_str(), k.as_str(), caseless) {
            let entry = (ps[i].0.clone(), ps[i].1.clone());
            kept.push(entry);
            assert(pairs_view(kept@) =~= pairs_view(before).push(pairs_view(ps@.take(i + 1)).last()));
        }
        i = i + 1;
    }
    assert(ps@.take(ps@.len() as int) =~= ps@);
    let ghost before = kept@;
    kept.push((k, v));
    assert(pairs_view(kept@) =~= pairs_view(before).push((k@, v@)));
    kept
}

} // verus!
