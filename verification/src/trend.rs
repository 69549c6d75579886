//! Daily click trends: the days of the chart window with no clicks count
//! zero, the recorded days keep their counts, and every day appears once,
//! in date order.

use vstd::prelude::*;
use crate::listing::{lemma_text_lt_irreflexive, lemma_text_lt_total, lemma_text_lt_transitive, text_less, text_lt};

verus! {

/// The counts of an association list, a later entry for a key replacing an
/// earlier one (what inserting the entries into a map in order leaves).
pub open spec fn entries_map(s: Seq<(String, i64)>) -> Map<Seq<char>, i64>
    decreases s.len(),
{
    if s.len() == 0 {
        Map::empty()
    } else {
        entries_map(s.drop_last()).insert(s.last().0@, s.last().1)
    }
}

/// Keys strictly ascending in text order (for `YYYY-MM-DD`, date order):
/// each key once.
pub open spec fn ascending_keys(s: Seq<(String, i64)>) -> bool {
    forall|i: int, j: int| 0 <= i < j < s.len() ==> text_lt((#[trigger] s[i]).0@, (#[trigger] s[j]).0@)
}

/// The chart window's days, each with no clicks.
pub open spec fn zero_days(days: Seq<String>) -> Seq<(String, i64)> {
    days.map_values(|d: String| (d, 0i64))
}

/// The trend of a window: every day of the window at zero, then the
/// recorded counts, later ones winning.
pub open spec fn trend_counts(days: Seq<String>, data: Seq<(String, i64)>) -> Map<Seq<char>, i64> {
    entries_map(zero_days(days) + data)
}

proof fn lemma_commute(m: Map<Seq<char>, i64>, a: Seq<char>, x: i64, b: Seq<char>, y: i64)
    requires
        a != b,
    ensures
        m.insert(a, x).insert(b, y) == m.insert(b, y).insert(a, x),
{
    assert(m.insert(a, x).insert(b, y) =~= m.insert(b, y).insert(a, x));
}

proof fn lemma_entries_map_insert_new(s: Seq<(String, i64)>, p: int, e: (String, i64))
    requires
        0 <= p <= s.len(),
        forall|i: int| 0 <= i < s.len() ==> (#[trigger] s[i]).0@ != e.0@,
    ensures
        entries_map(s.insert(p, e)) == entries_map(s).insert(e.0@, e.1),
    decreases s.len(),
{
    if p == s.len() {
        assert(s.insert(p, e) =~= s.push(e));
        assert(s.push(e).drop_last() =~= s);
    } else {
        let t = s.insert(p, e);
        assert(t.drop_last() =~= s.drop_last().insert(p, e));
        assert(t.last() == s.last());
        lemma_entries_map_insert_new(s.drop_last(), p, e);
        lemma_commute(entries_map(s.drop_last()), e.0@, e.1, s.last().0@, s.last().1);
    }
}

proof fn lemma_entries_map_replace(s: Seq<(String, i64)>, p: int, e: (String, i64))
    requires
        0 <= p < s.len(),
        s[p].0@ == e.0@,
        forall|i: int| 0 <= i < s.len() && i != p ==> (#[trigger] s[i]).0@ != e.0@,
    ensures
        entries_map(s.update(p, e)) == entries_map(s).insert(e.0@, e.1),
    decreases s.len(),
{
    let t = s.update(p, e);
    if p == s.len() - 1 {
        assert(t.drop_last() =~= s.drop_last());
        assert(entries_map(s).insert(e.0@, e.1) =~= entries_map(s.drop_last()).insert(e.0@, e.1));
    } else {
        assert(t.drop_last() =~= s.drop_last().update(p, e));
        assert(t.last() == s.last());
        lemma_entries_map_replace(s.drop_last(), p, e);
        lemma_commute(entries_map(s.drop_last()), e.0@, e.1, s.last().0@, s.last().1);
    }
}

/// Puts one count into an ascending list: replaces the count of an existing
/// key, or inserts the key at its place.
fn insert_count(entries: &mut Vec<(String, i64)>, key: String, count: i64)
    requires
        ascending_keys(old(entries)@),
    ensures
        ascending_keys(final(entries)@),
        entries_map(final(entries)@) == entries_map(old(entries)@).insert(key@, count),
        final(entries)@.len() <= old(entries)@.len() + 1,
{
    let mut p: usize = 0;
    while p < entries.len() && text_less(entries[p].0.as_str(), key.as_str())
        invariant
            p <= entries.len(),
            entries@ == old(entries)@,
            forall|q: int| 0 <= q < p ==> text_lt((#[trigger] entries@[q]).0@, key@),
        decreases entries.len() - p,
    {
        p = p + 1;
    }
    let ghost s = entries@;
    let ghost k = key@;
    proof {
        // every key from `p` on is at or above `key`
        assert forall|j: int| p <= j < s.len() implies !text_lt((#[trigger] s[j]).0@, k) by {
            if j > p {
                lemma_text_lt_total(s[p as int].0@, s[j].0@);
                if text_lt(s[j].0@, k) {
                    if s[p as int].0@ != s[j].0@ {
                        lemma_text_lt_transitive(s[p as int].0@, s[j].0@, k);
                    }
                }
            }
        }
    }
    if p < entries.len() && crate::text::str_eq(entries[p].0.as_str(), key.as_str()) {
        proof {
            assert forall|i: int| 0 <= i < s.len() && i != p implies (#[trigger] s[i]).0@ != k by {
                if i < p {
                    assert(text_lt(s[i].0@, s[p as int].0@));
                    lemma_text_lt_irreflexive(k);
                } else {
                    assert(text_lt(s[p as int].0@, s[i].0@));
                    lemma_text_lt_irreflexive(k);
                }
            }
            lemma_entries_map_replace(s, p as int, (key, count));
        }
        entries.set(p, (key, count));
        assert(entries@ == s.update(p as int, (key, count)));
        assert forall|i: int, j: int| 0 <= i < j < entries@.len() implies text_lt(
            (#[trigger] entries@[i]).0@,
            (#[trigger] entries@[j]).0@,
        ) by {
            assert(entries@[i].0@ == s[i].0@);
            assert(entries@[j].0@ == s[j].0@);
        }
    } else {
        proof {
            assert forall|i: int| 0 <= i < s.len() implies (#[trigger] s[i]).0@ != k by {
                if i < p {
                    lemma_text_lt_irreflexive(k);
                } else if i == p {
                } else {
                    assert(text_lt(s[p as int].0@, s[i].0@));
                    lemma_text_lt_total(s[p as int].0@, k);
                    if text_lt(k, s[p as int].0@) {
                    } else {
                        assert(!text_lt(s[p as int].0@, k));
                    }
                    if s[i].0@ == k {
                        lemma_text_lt_total(s[p as int].0@, k);
                        assert(!text_lt(s[i].0@, k));
                        lemma_text_lt_irreflexive(k);
                        crate::listing::lemma_text_lt_asymmetric(s[p as int].0@, k);
                    }
                }
            }
            lemma_entries_map_insert_new(s, p as int, (key, count));
        }
        entries.insert(p, (key, count));
        proof {
            let t = entries@;
            assert forall|i: int, j: int| 0 <= i < j < t.len() implies text_lt(
                (#[trigger] t[i]).0@,
                (#[trigger] t[j]).0@,
            ) by {
                if j < p {
                    assert(t[i] == s[i] && t[j] == s[j]);
                } else if j == p {
                    assert(t[i] == s[i]);
                } else if i == p {
                    assert(t[j] == s[j - 1]);
                    assert(!text_lt(s[j - 1].0@, k));
                    assert(s[j - 1].0@ != k);
                    lemma_text_lt_total(s[j - 1].0@, k);
                } else if i < p {
                    assert(t[i] == s[i] && t[j] == s[j - 1]);
                } else {
                    assert(t[i] == s[i - 1] && t[j] == s[j - 1]);
                }
            }
        }
    }
}

/// The daily trend of the chart window: each day of the window, and each
/// day with recorded clicks, once and in ascending order, with the recorded
/// count (the last one recorded for a day) or zero.
pub fn merge_trend(days: Vec<String>, data: Vec<(String, i64)>) -> (r: Vec<(String, i64)>)
    ensures
        ascending_keys(r@),
        entries_map(r@) == trend_counts(days@, data@),
{
    let ghost all_days = days@;
    let ghost all = zero_days(days@) + data@;
    let mut days = days;
    let mut pending: Vec<(String, i64)> = Vec::new();
    while days.len() > 0
        invariant
            pending.len() + days.len() == all_days.len(),
            days@ == all_days.subrange(pending.len() as int, all_days.len() as int),
            pending@ == zero_days(all_days).take(pending.len() as int),
        decreases days.len(),
    {
        let d = days.remove(0);
        pending.push((d, 0i64));
        assert(pending@ =~= zero_days(all_days).take(pending.len() as int));
        assert(days@ =~= all_days.subrange(pending.len() as int, all_days.len() as int));
    }
    assert(pending@ =~= zero_days(all_days));
    let mut data = data;
    pending.append(&mut data);
    assert(pending@ =~= all);
    let mut out: Vec<(String, i64)> = Vec::new();
    let mut k: usize = 0;
    assert(all.len() == pending.len());
    assert(all.take(0) =~= Seq::<(String, i64)>::empty());
    while pending.len() > 0
        invariant
            k + pending.len() == all.len(),
            all.len() <= usize::MAX,
            pending@ == all.subrange(k as int, all.len() as int),
            ascending_keys(out@),
            entries_map(out@) == entries_map(all.take(k as int)),
            out@.len() <= k,
        decreases pending.len(),
    {
        let (key, count) = pending.remove(0);
        assert((key, count) == all[k as int]);
        assert(all.take(k + 1).drop_last() =~= all.take(k as int));
        insert_count(&mut out, key, count);
        k = k + 1;
        assert(pending@ =~= all.subrange(k as int, all.len() as int));
    }
    assert(all.take(k as int) =~= all);
    out
}

/// A day that had recorded clicks shows its (last recorded) count; a day of
/// the window without any shows zero.
pub proof fn law_trend_counts(days: Seq<String>, data: Seq<(String, i64)>, i: int, d: int)
    requires
        0 <= i < data.len(),
        forall|j: int| i < j < data.len() ==> (#[trigger] data[j]).0@ != data[i].0@,
        0 <= d < days.len(),
        forall|j: int| 0 <= j < data.len() ==> (#[trigger] data[j]).0@ != days[d]@,
    ensures
        trend_counts(days, data).dom().contains(data[i].0@),
        trend_counts(days, data)[data[i].0@] == data[i].1,
        trend_counts(days, data).dom().contains(days[d]@),
        trend_counts(days, data)[days[d]@] == 0,
{
    let all = zero_days(days) + data;
    let n = zero_days(days).len();
    assert(all[n + i] == data[i]);
    assert forall|j: int| n + i < j < all.len() && (#[trigger] all[j]).0@ == all[n + i].0@ implies all[j].1 == all[n + i].1 by {
        assert(all[j] == data[j - n]);
    }
    lemma_last_entry_wins(all, n + i);
    let all = zero_days(days) + data;
    assert forall|j: int| d < j < all.len() && (#[trigger] all[j]).0@ == all[d].0@ implies all[j].1 == all[d].1 by {
        if j >= zero_days(days).len() {
            assert(all[j] == data[j - zero_days(days).len()]);
        }
    }
    lemma_last_entry_wins(all, d);
}

proof fn lemma_last_entry_wins(s: Seq<(String, i64)>, i: int)
    requires
        0 <= i < s.len(),
        forall|j: int| i < j < s.len() && (#[trigger] s[j]).0@ == s[i].0@ ==> s[j].1 == s[i].1,
    ensures
        entries_map(s).dom().contains(s[i].0@),
        entries_map(s)[s[i].0@] == s[i].1,
    decreases s.len(),
{
    if i < s.len() - 1 {
        assert(s.drop_last()[i] == s[i]);
        lemma_last_entry_wins(s.drop_last(), i);
        assert(s.last() == s[s.len() - 1]);
    }
}

} // verus!
