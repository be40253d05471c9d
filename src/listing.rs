//! The order in which listings are handed to callers.

use vstd::prelude::*;

verus! {

/// Whether `order` names every index below `n` exactly once.
pub open spec fn is_order_of(order: Seq<usize>, n: nat) -> bool {
    &&& order.len() == n
    &&& order.no_duplicates()
    &&& forall|a: int| 0 <= a < order.len() ==> #[trigger] order[a] < n
}

/// Whether `order` lists the positions of `keys` from the highest key to
/// the lowest, positions with equal keys in the order they came in.
pub open spec fn is_newest_first(keys: Seq<u64>, order: Seq<usize>) -> bool {
    &&& is_order_of(order, keys.len())
    &&& forall|a: int, b: int|
        0 <= a < b < order.len() ==> keys[#[trigger] order[a] as int] >= keys[#[trigger] order[b] as int]
    &&& forall|a: int, b: int|
        0 <= a < b < order.len() && keys[order[a] as int] == keys[order[b] as int] ==> #[trigger] order[a]
            < #[trigger] order[b]
}

/// The positions of a listing ordered by creation index, highest first;
/// items created at the same index keep the order they came in.
pub fn newest_first(create_indexes: &Vec<u64>) -> (order: Vec<usize>)
    ensures
        is_newest_first(create_indexes@, order@),
{
    let keys = create_indexes;
    let n = keys.len();
    let mut order: Vec<usize> = Vec::new();
    let mut i: usize = 0;
    while i < n
        invariant
            n == keys@.len(),
            i <= n,
            is_newest_first(keys@.take(i as int), order@),
        decreases n - i,
    {
        let k = keys[i];
        let mut p: usize = 0;
        while p < order.len() && keys[order[p]] >= k
            invariant
                n == keys@.len(),
                i < n,
                p <= order@.len(),
                is_newest_first(keys@.take(i as int), order@),
                forall|q: int| 0 <= q < p ==> keys@[#[trigger] order@[q] as int] >= k,
            decreases order@.len() - p,
        {
            assert(order@[p as int] < i);
            p = p + 1;
        }
        let ghost s = order@;
        let ghost ks = keys@.take(i as int);
        let ghost ks2 = keys@.take(i + 1);
        assert forall|q: int| 0 <= q < s.len() implies (#[trigger] s[q]) < i && ks[s[q] as int]
            == keys@[s[q] as int] by {}
        assert forall|q: int| p <= q < s.len() implies keys@[#[trigger] s[q] as int] < k by {
            if q > p {
                assert(ks[s[p as int] as int] >= ks[s[q] as int]);
            }
        }
        order.insert(p, i);
        proof {
            let t = order@;
            s.insert_ensures(p as int, i);
            assert forall|j: int| 0 <= j < t.len() implies #[trigger] t[j] == if j < p {
                s[j]
            } else if j == p {
                i
            } else {
                s[j - 1]
            } by {
                if j > p {
                    assert(t[(j - 1) + 1] == s[j - 1]);
                }
            }
            assert forall|j: int| 0 <= j < t.len() implies (#[trigger] t[j]) < i + 1 && ks2[t[j] as int]
                == keys@[t[j] as int] by {}
            assert forall|a: int, b: int| 0 <= a < b < t.len() implies t[a] != t[b] by {
                if a != p && b != p {
                    let a2 = if a < p { a } else { a - 1 };
                    let b2 = if b < p { b } else { b - 1 };
                    assert(s[a2] != s[b2]);
                }
            }
            assert(t.no_duplicates());
            assert forall|a: int, b: int| 0 <= a < b < t.len() implies ks2[#[trigger] t[a] as int]
                >= ks2[#[trigger] t[b] as int] by {
                let a2 = if a < p { a } else { a - 1 };
                let b2 = if b < p { b } else { b - 1 };
                if a != p && b != p {
                    assert(ks[s[a2] as int] >= ks[s[b2] as int]);
                }
            }
            assert forall|a: int, b: int|
                0 <= a < b < t.len() && ks2[t[a] as int] == ks2[t[b] as int] implies #[trigger] t[a]
                < #[trigger] t[b] by {
                let a2 = if a < p { a } else { a - 1 };
                let b2 = if b < p { b } else { b - 1 };
                if a != p && b != p {
                    assert(ks[s[a2] as int] == ks[s[b2] as int]);
                    assert(s[a2] < s[b2]);
                }
            }
        }
        i = i + 1;
    }
    assert(keys@.take(n as int) =~= keys@);
    order
}

/// Whether `a` sorts before `b` or equals it: characters compare by code
/// point, and a prefix sorts first. This is the order of the strings' UTF-8
/// bytes.
pub open spec fn text_le(a: Seq<char>, b: Seq<char>) -> bool
    decreases a.len(),
{
    if a.len() == 0 {
        true
    } else if b.len() == 0 {
        false
    } else if a[0] != b[0] {
        (a[0] as u32) < (b[0] as u32)
    } else {
        text_le(a.drop_first(), b.drop_first())
    }
}

/// Any two texts are ordered one way or the other, and only equal texts
/// both ways.
pub proof fn lemma_text_le_total(a: Seq<char>, b: Seq<char>)
    ensures
        text_le(a, b) || text_le(b, a),
        text_le(a, b) && text_le(b, a) ==> a == b,
        text_le(a, a),
    decreases a.len(),
{
    if a.len() > 0 && b.len() > 0 {
        lemma_text_le_total(a.drop_first(), b.drop_first());
        if a[0] == b[0] && a.drop_first() == b.drop_first() {
            assert(a =~= seq![a[0]] + a.drop_first());
            assert(b =~= seq![b[0]] + b.drop_first());
        }
    }
    if a.len() > 0 {
        lemma_text_le_total(a.drop_first(), a.drop_first());
    }
    if a.len() > 0 && b.len() > 0 && a[0] != b[0] {
        vstd::utf8::char_u32_cast(a[0], a[0] as u32);
        vstd::utf8::char_u32_cast(b[0], b[0] as u32);
    }
    if a.len() == 0 && b.len() == 0 {
        assert(a =~= b);
    }
}

/// The order of texts is transitive.
pub proof fn lemma_text_le_transitive(a: Seq<char>, b: Seq<char>, c: Seq<char>)
    requires
        text_le(a, b),
        text_le(b, c),
    ensures
        text_le(a, c),
    decreases a.len(),
{
    if a.len() > 0 && b.len() > 0 && c.len() > 0 && a[0] == b[0] && b[0] == c[0] {
        lemma_text_le_transitive(a.drop_first(), b.drop_first(), c.drop_first());
    }
}

proof fn lemma_text_le_step(a: Seq<char>, b: Seq<char>, i: int)
    requires
        0 <= i < a.len(),
        i < b.len(),
        a[i] == b[i],
    ensures
        text_le(a.skip(i), b.skip(i)) == text_le(a.skip(i + 1), b.skip(i + 1)),
{
    assert(a.skip(i).drop_first() =~= a.skip(i + 1));
    assert(b.skip(i).drop_first() =~= b.skip(i + 1));
}

/// Whether `a` sorts before `b` or equals it.
pub fn text_ordered(a: &str, b: &str) -> (r: bool)
    ensures
        r == text_le(a@, b@),
{
    let n = a.unicode_len();
    let m = b.unicode_len();
    let mut i: usize = 0;
    assert(a@.skip(0) =~= a@);
    assert(b@.skip(0) =~= b@);
    while i < n && i < m
        invariant
            n == a@.len(),
            m == b@.len(),
            i <= n,
            i <= m,
            text_le(a@, b@) == text_le(a@.skip(i as int), b@.skip(i as int)),
        decreases n - i,
    {
        let x = a.get_char(i);
        let y = b.get_char(i);
        if x != y {
            return (x as u32) < (y as u32);
        }
        proof {
            lemma_text_le_step(a@, b@, i as int);
        }
        i = i + 1;
    }
    i == n
}

/// Whether `order` lists the positions of `keys` from the first text to
/// the last, positions with equal texts in the order they came in.
pub open spec fn is_by_text(keys: Seq<Seq<char>>, order: Seq<usize>) -> bool {
    &&& is_order_of(order, keys.len())
    &&& forall|a: int, b: int|
        0 <= a < b < order.len() ==> text_le(keys[#[trigger] order[a] as int], keys[#[trigger] order[b] as int])
    &&& forall|a: int, b: int|
        0 <= a < b < order.len() && keys[order[a] as int] == keys[order[b] as int] ==> #[trigger] order[a]
            < #[trigger] order[b]
}

/// The texts of a list of strings.
pub open spec fn texts(v: Seq<String>) -> Seq<Seq<char>> {
    v.map_values(|s: String| s@)
}

/// The positions of a listing ordered by identifier, in the order of the
/// identifiers' bytes; items with the same identifier keep the order they
/// came in.
pub fn by_identifier(ids: &Vec<String>) -> (order: Vec<usize>)
    ensures
        is_by_text(texts(ids@), order@),
{
    let ghost keys = texts(ids@);
    let n = ids.len();
    let mut order: Vec<usize> = Vec::new();
    let mut i: usize = 0;
    while i < n
        invariant
            n == ids@.len(),
            keys == texts(ids@),
            i <= n,
            is_by_text(keys.take(i as int), order@),
        decreases n - i,
    {
        let ghost k = keys[i as int];
        let mut p: usize = 0;
        while p < order.len() && text_ordered(ids[order[p]].as_str(), ids[i].as_str())
            invariant
                n == ids@.len(),
                keys == texts(ids@),
                i < n,
                k == keys[i as int],
                p <= order@.len(),
                is_by_text(keys.take(i as int), order@),
                forall|q: int| 0 <= q < p ==> text_le(keys[#[trigger] order@[q] as int], k),
            decreases order@.len() - p,
        {
            assert(order@[p as int] < i);
            p = p + 1;
        }
        let ghost s = order@;
        let ghost ks = keys.take(i as int);
        let ghost ks2 = keys.take(i + 1);
        assert forall|q: int| 0 <= q < s.len() implies (#[trigger] s[q]) < i && ks[s[q] as int]
            == keys[s[q] as int] by {}
        assert forall|q: int| p <= q < s.len() implies !text_le(keys[#[trigger] s[q] as int], k) by {
            if q > p {
                assert(ks[s[p as int] as int] == keys[s[p as int] as int]);
                assert(text_le(ks[s[p as int] as int], ks[s[q] as int]));
                if text_le(keys[s[q] as int], k) {
                    lemma_text_le_transitive(keys[s[p as int] as int], keys[s[q] as int], k);
                }
            }
        }
        order.insert(p, i);
        proof {
            let t = order@;
            s.insert_ensures(p as int, i);
            assert forall|j: int| 0 <= j < t.len() implies #[trigger] t[j] == if j < p {
                s[j]
            } else if j == p {
                i
            } else {
                s[j - 1]
            } by {
                if j > p {
                    assert(t[(j - 1) + 1] == s[j - 1]);
                }
            }
            assert forall|j: int| 0 <= j < t.len() implies (#[trigger] t[j]) < i + 1 && ks2[t[j] as int]
                == keys[t[j] as int] by {}
            assert forall|a: int, b: int| 0 <= a < b < t.len() implies t[a] != t[b] by {
                if a != p && b != p {
                    let a2 = if a < p { a } else { a - 1 };
                    let b2 = if b < p { b } else { b - 1 };
                    assert(s[a2] != s[b2]);
                }
            }
            assert(t.no_duplicates());
            assert forall|a: int, b: int| 0 <= a < b < t.len() implies text_le(
                ks2[#[trigger] t[a] as int],
                ks2[#[trigger] t[b] as int],
            ) by {
                let a2 = if a < p { a } else { a - 1 };
                let b2 = if b < p { b } else { b - 1 };
                if a != p && b != p {
                    assert(text_le(ks[s[a2] as int], ks[s[b2] as int]));
                } else if a == p {
                    lemma_text_le_total(keys[s[b2] as int], k);
                }
            }
            assert forall|a: int, b: int|
                0 <= a < b < t.len() && ks2[t[a] as int] == ks2[t[b] as int] implies #[trigger] t[a]
                < #[trigger] t[b] by {
                let a2 = if a < p { a } else { a - 1 };
                let b2 = if b < p { b } else { b - 1 };
                if a != p && b != p {
                    assert(ks[s[a2] as int] == ks[s[b2] as int]);
                    assert(s[a2] < s[b2]);
                } else if a == p {
                    lemma_text_le_total(k, k);
                }
            }
        }
        i = i + 1;
    }
    assert(keys.take(n as int) =~= keys);
    order
}

} // verus!
