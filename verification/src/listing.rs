//! Ordering of text keys and the stable descending order (newest first for
//! RFC 3339 timestamps) used by the admin listings.

use vstd::prelude::*;
use crate::text::chars_of;

verus! {

/// Lexicographic order of texts by code point (the order of std `str`, whose
/// UTF-8 byte order agrees with code point order).
pub open spec fn text_lt(a: Seq<char>, b: Seq<char>) -> bool
    decreases a.len(),
{
    if a.len() == 0 {
        b.len() > 0
    } else if b.len() == 0 {
        false
    } else if a[0] != b[0] {
        a[0] < b[0]
    } else {
        text_lt(a.drop_first(), b.drop_first())
    }
}

pub proof fn lemma_text_lt_irreflexive(a: Seq<char>)
    ensures
        !text_lt(a, a),
    decreases a.len(),
{
    if a.len() > 0 {
        lemma_text_lt_irreflexive(a.drop_first());
    }
}

pub proof fn lemma_text_lt_total(a: Seq<char>, b: Seq<char>)
    ensures
        a == b || text_lt(a, b) || text_lt(b, a),
    decreases a.len(),
{
    if a.len() > 0 && b.len() > 0 && a[0] == b[0] {
        lemma_text_lt_total(a.drop_first(), b.drop_first());
        if a.drop_first() == b.drop_first() {
            assert(a =~= seq![a[0]] + a.drop_first());
            assert(b =~= seq![b[0]] + b.drop_first());
        }
    } else if a.len() == 0 && b.len() == 0 {
        assert(a =~= b);
    }
}

pub proof fn lemma_text_lt_asymmetric(a: Seq<char>, b: Seq<char>)
    ensures
        text_lt(a, b) ==> !text_lt(b, a),
    decreases a.len(),
{
    if a.len() > 0 && b.len() > 0 && a[0] == b[0] {
        lemma_text_lt_asymmetric(a.drop_first(), b.drop_first());
    }
}

pub proof fn lemma_text_lt_transitive(a: Seq<char>, b: Seq<char>, c: Seq<char>)
    ensures
        text_lt(a, b) && text_lt(b, c) ==> text_lt(a, c),
    decreases a.len(),
{
    if a.len() > 0 && b.len() > 0 && c.len() > 0 {
        lemma_text_lt_transitive(a.drop_first(), b.drop_first(), c.drop_first());
    }
}

/// `a` comes before `b` in text order.
pub fn text_less(a: &str, b: &str) -> (r: bool)
    ensures
        r == text_lt(a@, b@),
{
    let x = chars_of(a);
    let y = chars_of(b);
    let mut i: usize = 0;
    assert(a@.skip(0) =~= a@);
    assert(b@.skip(0) =~= b@);
    while i < x.len() && i < y.len()
        invariant
            x@ == a@,
            y@ == b@,
            i <= x.len(),
            i <= y.len(),
            text_lt(a@, b@) == text_lt(a@.skip(i as int), b@.skip(i as int)),
        decreases x.len() - i,
    {
        assert(a@.skip(i as int)[0] == x@[i as int]);
        assert(b@.skip(i as int)[0] == y@[i as int]);
        if x[i] != y[i] {
            return x[i] < y[i];
        }
        assert(a@.skip(i as int).drop_first() =~= a@.skip(i + 1));
        assert(b@.skip(i as int).drop_first() =~= b@.skip(i + 1));
        i = i + 1;
    }
    y.len() > i
}

/// `perm` lists each index below `n` exactly once.
pub open spec fn is_permutation(perm: Seq<int>, n: nat) -> bool {
    &&& perm.len() == n
    &&& forall|i: int| 0 <= i < n ==> 0 <= #[trigger] perm[i] < n
    &&& forall|i: int, j: int| 0 <= i < j < n ==> #[trigger] perm[i] != #[trigger] perm[j]
}

/// `out` is `input` ordered greatest first (by `key`), items with equal keys
/// keeping their input order: a stable sort in descending key order, which
/// determines `out` completely.
pub open spec fn stable_descending<T>(input: Seq<T>, out: Seq<T>, key: spec_fn(T) -> Seq<char>) -> bool {
    exists|perm: Seq<int>| #[trigger] is_permutation(perm, input.len()) && {
        &&& out.len() == input.len()
        &&& forall|i: int| 0 <= i < out.len() ==> out[i] == input[#[trigger] perm[i]]
        &&& forall|i: int, j: int| 0 <= i < j < out.len() ==> !text_lt(key(#[trigger] out[i]), key(#[trigger] out[j]))
        &&& forall|i: int, j: int| 0 <= i < j < out.len() && key(out[i]) == key(out[j]) ==> #[trigger] perm[i] < #[trigger] perm[j]
    }
}

} // verus!

verus! {

/// Keys in descending order, equal keys in the order of their positions
/// in `perm`.
pub open spec fn ordered_stable(keys: Seq<Seq<char>>, perm: Seq<int>) -> bool {
    &&& keys.len() == perm.len()
    &&& forall|i: int, j: int| 0 <= i < j < keys.len() ==> !text_lt(#[trigger] keys[i], #[trigger] keys[j])
    &&& forall|i: int, j: int|
        0 <= i < j < keys.len() && keys[i] == keys[j] ==> #[trigger] perm[i] < #[trigger] perm[j]
}

/// Inserting a new key before the first strictly older one, with a position
/// above all earlier ones, keeps the order stable.
pub proof fn lemma_insert_keeps_order(keys: Seq<Seq<char>>, perm: Seq<int>, p: int, nk: Seq<char>, k: int)
    requires
        ordered_stable(keys, perm),
        0 <= p <= keys.len(),
        forall|q: int| 0 <= q < p ==> !text_lt(#[trigger] keys[q], nk),
        p < keys.len() ==> text_lt(keys[p], nk),
        forall|i: int| 0 <= i < perm.len() ==> #[trigger] perm[i] < k,
    ensures
        ordered_stable(keys.insert(p, nk), perm.insert(p, k)),
{
    let ks = keys.insert(p, nk);
    let ps = perm.insert(p, k);
    assert forall|j: int| p < j < ks.len() implies text_lt(#[trigger] ks[j], nk) by {
        assert(ks[j] == keys[j - 1]);
        if j - 1 == p {
        } else {
            assert(!text_lt(keys[p], keys[j - 1]));
            lemma_text_lt_total(keys[p], keys[j - 1]);
            lemma_text_lt_transitive(keys[j - 1], keys[p], nk);
        }
    }
    assert forall|i: int, j: int| 0 <= i < j < ks.len() implies !text_lt(#[trigger] ks[i], #[trigger] ks[j]) by {
        if j < p {
            assert(ks[i] == keys[i] && ks[j] == keys[j]);
        } else if j == p {
            assert(ks[i] == keys[i]);
        } else if i == p {
            assert(text_lt(ks[j], nk));
            lemma_text_lt_asymmetric(ks[j], nk);
        } else if i < p {
            assert(ks[i] == keys[i] && ks[j] == keys[j - 1]);
        } else {
            assert(ks[i] == keys[i - 1] && ks[j] == keys[j - 1]);
        }
    }
    assert forall|i: int, j: int|
        0 <= i < j < ks.len() && ks[i] == ks[j] implies #[trigger] ps[i] < #[trigger] ps[j] by {
        if j < p {
            assert(ks[i] == keys[i] && ks[j] == keys[j]);
        } else if j == p {
            assert(ps[i] == perm[i]);
        } else if i == p {
            assert(text_lt(ks[j], nk));
            lemma_text_lt_irreflexive(nk);
        } else if i < p {
            assert(ks[i] == keys[i] && ks[j] == keys[j - 1]);
            assert(ps[i] == perm[i] && ps[j] == perm[j - 1]);
        } else {
            assert(ks[i] == keys[i - 1] && ks[j] == keys[j - 1]);
            assert(ps[i] == perm[i - 1] && ps[j] == perm[j - 1]);
        }
    }
}

} // verus!

verus! {

/// The field a listing is ordered by.
#[derive(PartialEq, Eq, Structural, Clone, Copy)]
pub enum SortKey {
    CreatedAt,
    UpdatedAt,
    Name,
}

/// A row of an admin listing, with the text of the field it can be ordered by.
pub trait ListingRow: Sized {
    spec fn listing_key(&self, by: SortKey) -> Seq<char>;

    fn listing_key_str(&self, by: SortKey) -> (r: &str)
        ensures
            r@ == self.listing_key(by),
    ;
}

pub open spec fn key_by<T: ListingRow>(by: SortKey) -> spec_fn(T) -> Seq<char> {
    |r: T| r.listing_key(by)
}

/// Orders rows by the chosen field, greatest first (newest first for
/// timestamps); rows with equal keys keep their order (a stable sort).
pub fn sort_descending<T: ListingRow>(rows: Vec<T>, by: SortKey) -> (r: Vec<T>)
    ensures
        stable_descending(rows@, r@, key_by::<T>(by)),
{
    let ghost orig = rows@;
    let ghost key = key_by::<T>(by);
    let mut rows = rows;
    let mut out: Vec<T> = Vec::new();
    let ghost mut perm: Seq<int> = Seq::empty();
    let mut k: usize = 0;
    assert(orig.len() == rows.len());
    while rows.len() > 0
        invariant
            k == out.len(),
            k + rows.len() == orig.len(),
            orig.len() <= usize::MAX,
            rows@ == orig.subrange(k as int, orig.len() as int),
            key == key_by::<T>(by),
            perm.len() == k,
            forall|i: int| 0 <= i < k ==> 0 <= #[trigger] perm[i] < k,
            forall|i: int, j: int| 0 <= i < j < k ==> #[trigger] perm[i] != #[trigger] perm[j],
            forall|i: int| 0 <= i < k ==> out@[i] == orig[#[trigger] perm[i]],
            ordered_stable(out@.map_values(key), perm),
        decreases rows.len(),
    {
        let item = rows.remove(0);
        assert(item == orig[k as int]);
        let mut p: usize = 0;
        while p < out.len() && !text_less(out[p].listing_key_str(by), item.listing_key_str(by))
            invariant
                p <= out.len(),
                key == key_by::<T>(by),
                forall|q: int| 0 <= q < p ==> !text_lt(#[trigger] out@.map_values(key)[q], key(item)),
            decreases out.len() - p,
        {
            assert(out@.map_values(key)[p as int] == key(out@[p as int]));
            p = p + 1;
        }
        let ghost keys = out@.map_values(key);
        proof {
            lemma_insert_keeps_order(keys, perm, p as int, key(item), k as int);
        }
        out.insert(p, item);
        proof {
            assert(out@.map_values(key) =~= keys.insert(p as int, key(item)));
            let old_perm = perm;
            perm = perm.insert(p as int, k as int);
            assert forall|i: int| 0 <= i < k + 1 implies 0 <= #[trigger] perm[i] < k + 1 by {
                if i < p {
                    assert(perm[i] == old_perm[i]);
                } else if i > p {
                    assert(perm[i] == old_perm[i - 1]);
                }
            }
            assert forall|i: int, j: int| 0 <= i < j < k + 1 implies #[trigger] perm[i] != #[trigger] perm[j] by {
                if i < p {
                    assert(perm[i] == old_perm[i]);
                }
                if i > p {
                    assert(perm[i] == old_perm[i - 1]);
                }
                if j < p {
                    assert(perm[j] == old_perm[j]);
                }
                if j > p {
                    assert(perm[j] == old_perm[j - 1]);
                }
            }
            assert forall|i: int| 0 <= i < k + 1 implies out@[i] == orig[#[trigger] perm[i]] by {
                if i < p {
                    assert(perm[i] == old_perm[i]);
                } else if i > p {
                    assert(perm[i] == old_perm[i - 1]);
                }
            }
        }
        k = k + 1;
        assert(rows@ =~= orig.subrange(k as int, orig.len() as int));
    }
    proof {
        let keys = out@.map_values(key);
        assert(is_permutation(perm, orig.len()));
        assert forall|i: int, j: int| 0 <= i < j < out@.len() implies !text_lt(
            key(#[trigger] out@[i]),
            key(#[trigger] out@[j]),
        ) by {
            assert(keys[i] == key(out@[i]) && keys[j] == key(out@[j]));
        }
        assert forall|i: int, j: int|
            0 <= i < j < out@.len() && key(out@[i]) == key(out@[j]) implies #[trigger] perm[i] < #[trigger] perm[j] by {
            assert(keys[i] == key(out@[i]) && keys[j] == key(out@[j]));
        }
    }
    out
}

} // verus!
