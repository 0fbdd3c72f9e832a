//! How often the formats of the remote client were announced anew.

use vstd::prelude::*;
use vstd::relations::{sorted_by, total_ordering};
use vstd::seq_lib::lemma_sorted_unique;
use crate::clipboard::formats::{format_views, ClipboardFormat, FormatView};

verus! {

/// How often one list of formats may be announced anew.
pub const MAX_REANNOUNCEMENTS: u32 = 2;

/// How often the formats with the numbers `ids` were announced anew.
pub struct ReannounceEntry {
    pub ids: Vec<u32>,
    pub count: u32,
}

/// The counts by the format numbers they belong to. Of two entries with the same
/// numbers the later one counts.
pub open spec fn counts_of(entries: Seq<ReannounceEntry>) -> Map<Seq<u32>, u32>
    decreases entries.len(),
{
    if entries.len() == 0 {
        Map::empty()
    } else {
        counts_of(entries.drop_last()).insert(entries.last().ids@, entries.last().count)
    }
}

/// The count for `ids`, 0 where none was kept.
pub open spec fn count_for(counts: Map<Seq<u32>, u32>, ids: Seq<u32>) -> u32 {
    if counts.contains_key(ids) {
        counts[ids]
    } else {
        0
    }
}

/// The counts after one more announcement for `ids`.
pub open spec fn counted(counts: Map<Seq<u32>, u32>, ids: Seq<u32>) -> Map<Seq<u32>, u32> {
    counts.insert(ids, (count_for(counts, ids) + 1) as u32)
}

/// The order of format numbers.
pub open spec fn id_order() -> spec_fn(u32, u32) -> bool {
    |a: u32, b: u32| a <= b
}

/// The format numbers of a list.
pub open spec fn ids_of(formats: Seq<FormatView>) -> Seq<u32> {
    formats.map_values(|f: FormatView| f.id)
}

/// The format numbers of a list, in ascending order: lists with the same numbers
/// share one count, whatever order they came in.
pub open spec fn sorted_ids(formats: Seq<FormatView>) -> Seq<u32> {
    ids_of(formats).sort_by(id_order())
}

fn same_ids(a: &[u32], b: &[u32]) -> (r: bool)
    ensures
        r == (a@ == b@),
{
    if a.len() != b.len() {
        return false;
    }
    let mut i: usize = 0;
    while i < a.len()
        invariant
            i <= a.len(),
            a@.len() == b@.len(),
            forall|k: int| 0 <= k < i ==> a@[k] == b@[k],
        decreases a.len() - i,
    {
        if a[i] != b[i] {
            assert(a@[i as int] != b@[i as int]);
            return false;
        }
        i += 1;
    }
    assert(a@ =~= b@);
    true
}

fn insert_sorted(v: &mut Vec<u32>, x: u32)
    requires
        sorted_by(old(v)@, id_order()),
    ensures
        sorted_by(final(v)@, id_order()),
        final(v)@.to_multiset() == old(v)@.to_multiset().insert(x),
{
    broadcast use vstd::seq_lib::group_to_multiset_ensures;

    let mut at: usize = 0;
    while at < v.len() && v[at] <= x
        invariant
            at <= v.len(),
            v@ == old(v)@,
            sorted_by(v@, id_order()),
            forall|k: int| 0 <= k < at ==> v@[k] <= x,
        decreases v.len() - at,
    {
        at += 1;
    }
    let ghost s = v@;
    proof {
        assert forall|k: int| at <= k < s.len() implies x <= s[k] by {
            if k > at {
                assert(id_order()(s[at as int], s[k]));
            }
        }
        vstd::seq_lib::to_multiset_insert(s, at as int, x);
    }
    v.insert(at, x);
    proof {
        let t = v@;
        assert forall|i: int, j: int| 0 <= i < j < t.len() implies #[trigger] id_order()(
            t[i],
            t[j],
        ) by {
            if i < at && j > at {
                assert(id_order()(s[i], s[j - 1]));
            } else if j < at {
                assert(id_order()(s[i], s[j]));
            } else if i > at {
                assert(id_order()(s[i - 1], s[j - 1]));
            }
        }
    }
}

proof fn lemma_id_order()
    ensures
        total_ordering(id_order()),
{
}

/// The format numbers of `formats`, in ascending order.
pub fn sort_ids(formats: &[ClipboardFormat]) -> (r: Vec<u32>)
    ensures
        r@ == sorted_ids(format_views(formats@)),
{
    broadcast use vstd::seq_lib::group_to_multiset_ensures;

    let mut r: Vec<u32> = Vec::new();
    let ghost ids = ids_of(format_views(formats@));
    let mut i: usize = 0;
    assert(ids.take(0) =~= r@);
    while i < formats.len()
        invariant
            i <= formats.len(),
            ids == ids_of(format_views(formats@)),
            sorted_by(r@, id_order()),
            r@.to_multiset() == ids.take(i as int).to_multiset(),
        decreases formats.len() - i,
    {
        insert_sorted(&mut r, formats[i].id);
        proof {
            assert(ids[i as int] == formats@[i as int].id);
            assert(ids.take(i + 1) =~= ids.take(i as int).push(ids[i as int]));
            vstd::seq_lib::to_multiset_build(ids.take(i as int), ids[i as int]);
        }
        i += 1;
    }
    proof {
        assert(ids.take(i as int) =~= ids);
        lemma_id_order();
        ids.lemma_sort_by_ensures(id_order());
        lemma_sorted_unique(r@, ids.sort_by(id_order()), id_order());
    }
    r
}

/// The place of the last entry for `ids`, if there is one.
fn find_entry(entries: &[ReannounceEntry], ids: &[u32]) -> (r: Option<usize>)
    ensures
        match r {
            Some(i) => i < entries@.len() && entries@[i as int].ids@ == ids@ && counts_of(
                entries@,
            ).contains_key(ids@) && counts_of(entries@)[ids@] == entries@[i as int].count,
            None => !counts_of(entries@).contains_key(ids@),
        },
{
    let mut n: usize = entries.len();
    assert(entries@.take(n as int) =~= entries@);
    while n > 0
        invariant
            n <= entries.len(),
            counts_of(entries@.take(n as int)).contains_key(ids@) == counts_of(
                entries@,
            ).contains_key(ids@),
            counts_of(entries@).contains_key(ids@) ==> counts_of(entries@.take(n as int))[ids@]
                == counts_of(entries@)[ids@],
        decreases n,
    {
        let ghost t = entries@.take(n as int);
        assert(t.drop_last() =~= entries@.take(n - 1));
        if same_ids(&entries[n - 1].ids, ids) {
            return Some(n - 1);
        }
        n -= 1;
    }
    assert(entries@.take(0) =~= Seq::empty());
    None
}

proof fn lemma_remove_entry(entries: Seq<ReannounceEntry>, i: int)
    requires
        0 <= i < entries.len(),
    ensures
        counts_of(entries.remove(i)).remove(entries[i].ids@) == counts_of(entries).remove(
            entries[i].ids@,
        ),
    decreases entries.len(),
{
    let key = entries[i].ids@;
    let rest = entries.drop_last();
    if i == entries.len() - 1 {
        assert(entries.remove(i) =~= rest);
        assert(counts_of(rest).remove(key) =~= counts_of(entries).remove(key));
    } else {
        lemma_remove_entry(rest, i);
        assert(entries.remove(i).drop_last() =~= rest.remove(i));
        assert(entries.remove(i).last() == entries.last());
        let a = counts_of(rest.remove(i));
        let b = counts_of(rest);
        let k = entries.last().ids@;
        let c = entries.last().count;
        let p = a.insert(k, c).remove(key);
        let q = b.insert(k, c).remove(key);
        assert forall|x: Seq<u32>|
            #![trigger p.contains_key(x)]
            #![trigger q.contains_key(x)]
            p.contains_key(x) == q.contains_key(x) && (p.contains_key(x) ==> p[x] == q[x]) by {
            assert(a.remove(key).contains_key(x) == b.remove(key).contains_key(x));
            if x != key && x != k && a.contains_key(x) {
                assert(a.remove(key)[x] == b.remove(key)[x]);
            }
        }
        assert(p =~= q);
    }
}

/// Counts one more announcement for `ids` if fewer than two were counted, and
/// says whether it may be made.
pub fn count_reannouncement(entries: &mut Vec<ReannounceEntry>, ids: Vec<u32>) -> (r: bool)
    ensures
        r == (count_for(counts_of(old(entries)@), ids@) < MAX_REANNOUNCEMENTS),
        r ==> counts_of(final(entries)@) == counted(counts_of(old(entries)@), ids@),
        !r ==> counts_of(final(entries)@) == counts_of(old(entries)@),
{
    match find_entry(entries, &ids) {
        Some(i) => {
            let count: u32 = entries[i].count;
            if count >= MAX_REANNOUNCEMENTS {
                return false;
            }
            let ghost before = entries@;
            entries.remove(i);
            let ghost key = ids@;
            let e = ReannounceEntry { ids, count: count + 1 };
            let ghost shorter = entries@;
            entries.push(e);
            proof {
                lemma_remove_entry(before, i as int);
                assert(entries@.drop_last() =~= shorter);
                let a = counts_of(shorter);
                let b = counts_of(before);
                assert(a.insert(key, e.count) =~= a.remove(key).insert(key, e.count));
                assert(b.insert(key, e.count) =~= b.remove(key).insert(key, e.count));
            }
            true
        },
        None => {
            let ghost before = entries@;
            let e = ReannounceEntry { ids, count: 1 };
            entries.push(e);
            assert(entries@.drop_last() =~= before);
            true
        },
    }
}

/// Counting one list leaves the counts of all others alone.
pub proof fn lists_are_counted_apart(counts: Map<Seq<u32>, u32>, ids: Seq<u32>, other: Seq<u32>)
    requires
        count_for(counts, ids) < u32::MAX,
    ensures
        count_for(counted(counts, ids), ids) == count_for(counts, ids) + 1,
        other != ids ==> count_for(counted(counts, ids), other) == count_for(counts, other),
        count_for(Map::empty(), ids) == 0,
{
}

/// The key of a list holds the numbers of its formats, each as often as they have it, in
/// ascending order.
pub proof fn keys_hold_the_numbers_in_order(formats: Seq<FormatView>)
    ensures
        sorted_ids(formats).to_multiset() == formats.map_values(
            |f: FormatView| f.id,
        ).to_multiset(),
        forall|i: int, j: int|
            0 <= i < j < sorted_ids(formats).len() ==> #[trigger] sorted_ids(formats)[i]
                <= #[trigger] sorted_ids(formats)[j],
        sorted_ids(formats).len() == formats.len(),
{
    broadcast use vstd::seq_lib::group_to_multiset_ensures;

    lemma_id_order();
    let ids = ids_of(formats);
    ids.lemma_sort_by_ensures(id_order());
    assert(ids =~= formats.map_values(|f: FormatView| f.id));
    let s = sorted_ids(formats);
    assert(s.len() == s.to_multiset().len());
    assert forall|i: int, j: int| 0 <= i < j < s.len() implies #[trigger] s[i] <= #[trigger] s[j] by {
        assert(id_order()(s[i], s[j]));
    }
}

} // verus!
