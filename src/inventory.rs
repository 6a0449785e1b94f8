//! The inventory list: its display order, its urgent items and removal by id.

use crate::date::CalendarDate;
use crate::item::{days_left, Item, ItemId};
use vstd::prelude::*;

verus! {

/// Days from `today` until `it` expires.
pub open spec fn key(it: Item, today: int) -> int {
    days_left(it@, today)
}

/// Places `x` into `s` after every trailing element whose key exceeds its own and
/// after everything before them.
pub open spec fn insert_in_order(s: Seq<Item>, x: Item, today: int) -> Seq<Item>
    decreases s.len(),
{
    if s.len() == 0 {
        seq![x]
    } else if key(s.last(), today) <= key(x, today) {
        s.push(x)
    } else {
        insert_in_order(s.drop_last(), x, today).push(s.last())
    }
}

/// The items in order of urgency: ascending by days left, ties in their original order.
pub open spec fn urgency_order(s: Seq<Item>, today: int) -> Seq<Item>
    decreases s.len(),
{
    if s.len() == 0 {
        s
    } else {
        insert_in_order(urgency_order(s.drop_last(), today), s.last(), today)
    }
}

/// Whether `s` is ascending by days left.
pub open spec fn ascending(s: Seq<Item>, today: int) -> bool {
    forall|i: int, j: int| 0 <= i < j < s.len() ==> key(#[trigger] s[i], today) <= key(#[trigger] s[j], today)
}

/// Holds of the items with exactly `k` days left.
pub open spec fn has_days_left(k: int, today: int) -> spec_fn(Item) -> bool {
    |it: Item| key(it, today) == k
}

/// Holds of the items that must be used within three days.
pub open spec fn is_urgent(today: int) -> spec_fn(Item) -> bool {
    |it: Item| key(it, today) <= 3
}

/// Holds of the items not under identity `id`.
pub open spec fn not_id(id: ItemId) -> spec_fn(Item) -> bool {
    |it: Item| it@.id != id
}

proof fn lemma_insert_at(s: Seq<Item>, x: Item, today: int, j: int)
    requires
        0 <= j <= s.len(),
        forall|k: int| j <= k < s.len() ==> key(#[trigger] s[k], today) > key(x, today),
        j > 0 ==> key(s[j - 1], today) <= key(x, today),
    ensures
        insert_in_order(s, x, today) == s.insert(j, x),
    decreases s.len(),
{
    if s.len() == 0 {
        assert(s.insert(j, x) =~= seq![x]);
    } else if key(s.last(), today) <= key(x, today) {
        if j < s.len() {
            assert(key(s[s.len() - 1], today) > key(x, today));
        }
        assert(s.insert(j, x) =~= s.push(x));
    } else {
        assert(j < s.len()) by {
            if j == s.len() {
                assert(key(s[j - 1], today) <= key(x, today));
            }
        }
        let d = s.drop_last();
        assert forall|k: int| j <= k < d.len() implies key(#[trigger] d[k], today) > key(x, today) by {
            assert(d[k] == s[k]);
        }
        if j > 0 {
            assert(d[j - 1] == s[j - 1]);
        }
        lemma_insert_at(d, x, today, j);
        assert(s.insert(j, x) =~= s.drop_last().insert(j, x).push(s.last()));
    }
}

proof fn lemma_insert_ascending(s: Seq<Item>, x: Item, today: int)
    requires
        ascending(s, today),
    ensures
        ascending(insert_in_order(s, x, today), today),
        insert_in_order(s, x, today).to_multiset() == s.to_multiset().insert(x),
        insert_in_order(s, x, today).len() == s.len() + 1,
        s.len() > 0 ==> insert_in_order(s, x, today).last() == (if key(s.last(), today) <= key(x, today) {
            x
        } else {
            s.last()
        }),
    decreases s.len(),
{
    broadcast use vstd::seq_lib::to_multiset_build;

    let r = insert_in_order(s, x, today);
    if s.len() == 0 {
        assert(seq![x] =~= s.push(x));
    } else if key(s.last(), today) <= key(x, today) {
        assert forall|i: int, j: int| 0 <= i < j < r.len() implies key(#[trigger] r[i], today) <= key(
            #[trigger] r[j],
            today,
        ) by {
            if j == s.len() {
                assert(key(s[i], today) <= key(s.last(), today));
            }
        }
    } else {
        let d = s.drop_last();
        assert(ascending(d, today));
        lemma_insert_ascending(d, x, today);
        let t = insert_in_order(d, x, today);
        assert(s =~= d.push(s.last()));
        assert forall|i: int, j: int| 0 <= i < j < r.len() implies key(#[trigger] r[i], today) <= key(
            #[trigger] r[j],
            today,
        ) by {
            if j == t.len() {
                if d.len() == 0 {
                    assert(t =~= seq![x]);
                } else {
                    assert(key(t.last(), today) <= key(s.last(), today)) by {
                        assert(key(d.last(), today) <= key(s.last(), today));
                    }
                    assert(key(t[i], today) <= key(t.last(), today));
                }
            }
        }
        assert(r.to_multiset() =~= s.to_multiset().insert(x)) by {
            broadcast use vstd::multiset::group_multiset_axioms;

        }
    }
}

proof fn lemma_insert_filter(s: Seq<Item>, x: Item, today: int, k: int)
    ensures
        insert_in_order(s, x, today).filter(has_days_left(k, today)) == (if key(x, today) == k {
            s.filter(has_days_left(k, today)).push(x)
        } else {
            s.filter(has_days_left(k, today))
        }),
    decreases s.len(),
{
    broadcast use vstd::seq_lib::group_filter_ensures;

    let p = has_days_left(k, today);
    if s.len() == 0 {
        assert(seq![x] =~= s.push(x));
        s.lemma_filter_push(x, p);
    } else if key(s.last(), today) <= key(x, today) {
        s.lemma_filter_push(x, p);
    } else {
        let d = s.drop_last();
        lemma_insert_filter(d, x, today, k);
        insert_in_order(d, x, today).lemma_filter_push(s.last(), p);
        assert(s =~= d.push(s.last()));
        d.lemma_filter_push(s.last(), p);
    }
}

/// Ordering by urgency sorts ascending by days left, keeps every item, and keeps the
/// original relative order of the items that have the same number of days left.
pub proof fn lemma_urgency_order(s: Seq<Item>, today: int)
    ensures
        ascending(urgency_order(s, today), today),
        urgency_order(s, today).to_multiset() == s.to_multiset(),
        urgency_order(s, today).len() == s.len(),
        forall|k: int| #[trigger]
            urgency_order(s, today).filter(has_days_left(k, today)) == s.filter(has_days_left(k, today)),
    decreases s.len(),
{
    if s.len() == 0 {
    } else {
        let d = s.drop_last();
        lemma_urgency_order(d, today);
        lemma_insert_ascending(urgency_order(d, today), s.last(), today);
        assert(s =~= d.push(s.last()));
        assert(s.to_multiset() == d.to_multiset().insert(s.last())) by {
            broadcast use vstd::seq_lib::to_multiset_build;

        }
        assert forall|k: int| #[trigger]
            urgency_order(s, today).filter(has_days_left(k, today)) == s.filter(has_days_left(k, today)) by {
            lemma_insert_filter(urgency_order(d, today), s.last(), today, k);
            d.lemma_filter_push(s.last(), has_days_left(k, today));
        }
    }
}

/// Sorts the items by days left from `today`, most urgent first; items with the same
/// number of days keep their order.
pub fn sort_by_urgency(items: &mut Vec<Item>, today: CalendarDate)
    ensures
        final(items)@ == urgency_order(old(items)@, today@),
{
    let n = items.len();
    let mut i: usize = 0;
    while i < n
        invariant
            items@.len() == n,
            n == old(items)@.len(),
            0 <= i <= n,
            items@.subrange(0, i as int) == urgency_order(old(items)@.subrange(0, i as int), today@),
            items@.subrange(i as int, n as int) == old(items)@.subrange(i as int, n as int),
        decreases n - i,
    {
        let ghost before = items@;
        let x = items.remove(i);
        let kx = x.days_remaining(today);
        let mut j: usize = i;
        let mut placed = false;
        while j > 0 && !placed
            invariant
                before.len() == n,
                items@ == before.remove(i as int),
                0 <= j <= i < n,
                forall|k: int| j <= k < i ==> key(#[trigger] items@[k], today@) > kx,
                placed ==> j > 0 && key(items@[j - 1], today@) <= kx,
            decreases j + if placed { 0int } else { 1int },
        {
            if items[j - 1].days_remaining(today) <= kx {
                placed = true;
            } else {
                j -= 1;
            }
        }
        proof {
            let p = before.subrange(0, i as int);
            assert(x == old(items)@[i as int]) by {
                assert(before.subrange(i as int, n as int)[0] == old(items)@.subrange(i as int, n as int)[0]);
            }
            assert(items@.subrange(0, i as int) =~= p);
            lemma_insert_at(p, x, today@, j as int);
            assert(old(items)@.subrange(0, i + 1).drop_last() =~= old(items)@.subrange(0, i as int));
        }
        items.insert(j, x);
        proof {
            let p = before.subrange(0, i as int);
            assert(items@.subrange(0, i + 1) =~= p.insert(j as int, x));
            assert(items@.subrange(i + 1, n as int) =~= before.subrange(i + 1, n as int));
            assert(before.subrange(i + 1, n as int) =~= old(items)@.subrange(i + 1, n as int)) by {
                assert forall|k: int| i + 1 <= k < n implies before[k] == old(items)@[k] by {
                    assert(before.subrange(i as int, n as int)[k - i] == old(items)@.subrange(i as int, n as int)[k - i]);
                }
            }
        }
        i += 1;
    }
    proof {
        assert(items@.subrange(0, n as int) =~= items@);
        assert(old(items)@.subrange(0, n as int) =~= old(items)@);
    }
}

/// How many items must be used within three days of `today` (the expired included).
pub fn urgent_count(items: &Vec<Item>, today: CalendarDate) -> (r: usize)
    ensures
        r == items@.filter(is_urgent(today@)).len(),
{
    broadcast use vstd::seq_lib::group_filter_ensures;

    let mut count: usize = 0;
    let mut i: usize = 0;
    while i < items.len()
        invariant
            0 <= i <= items@.len(),
            count == items@.subrange(0, i as int).filter(is_urgent(today@)).len(),
            count <= i,
        decreases items@.len() - i,
    {
        proof {
            assert(items@.subrange(0, i + 1) =~= items@.subrange(0, i as int).push(items@[i as int]));
            items@.subrange(0, i as int).lemma_filter_push(items@[i as int], is_urgent(today@));
        }
        if items[i].days_remaining(today) <= 3 {
            count += 1;
        }
        i += 1;
    }
    proof {
        assert(items@.subrange(0, i as int) =~= items@);
    }
    count
}

/// Removes the item under identity `id`, keeping the order of the rest.
pub fn remove_item(items: &mut Vec<Item>, id: ItemId)
    ensures
        final(items)@ == old(items)@.filter(not_id(id)),
{
    broadcast use vstd::seq_lib::group_filter_ensures;

    let ghost all = old(items)@;
    let ghost mut k: int = 0;
    let mut i: usize = 0;
    while i < items.len()
        invariant
            0 <= i <= items@.len(),
            0 <= k <= all.len(),
            items@.subrange(0, i as int) == all.subrange(0, k).filter(not_id(id)),
            items@.subrange(i as int, items@.len() as int) == all.subrange(k, all.len() as int),
        decreases items@.len() - i,
    {
        let ghost before = items@;
        proof {
            assert(all.subrange(k, all.len() as int).len() == before.len() - i);
            assert(all.subrange(0, k + 1) =~= all.subrange(0, k).push(all[k]));
            all.subrange(0, k).lemma_filter_push(all[k], not_id(id));
            assert(before[i as int] == all[k]) by {
                assert(before.subrange(i as int, before.len() as int)[0] == all.subrange(k, all.len() as int)[0]);
            }
        }
        if items[i].id() == id {
            items.remove(i);
            proof {
                assert(items@.subrange(0, i as int) =~= before.subrange(0, i as int));
                assert forall|m: int| 0 <= m < items@.len() - i implies #[trigger] items@.subrange(
                    i as int,
                    items@.len() as int,
                )[m] == all.subrange(k + 1, all.len() as int)[m] by {
                    assert(before.subrange(i as int, before.len() as int)[m + 1] == all.subrange(
                        k,
                        all.len() as int,
                    )[m + 1]);
                }
                assert(items@.subrange(i as int, items@.len() as int) =~= all.subrange(k + 1, all.len() as int));
                k = k + 1;
            }
        } else {
            proof {
                assert(items@.subrange(0, i + 1) =~= before.subrange(0, i as int).push(before[i as int]));
                assert forall|m: int| 0 <= m < items@.len() - i - 1 implies #[trigger] items@.subrange(
                    i + 1,
                    items@.len() as int,
                )[m] == all.subrange(k + 1, all.len() as int)[m] by {
                    assert(before.subrange(i as int, before.len() as int)[m + 1] == all.subrange(
                        k,
                        all.len() as int,
                    )[m + 1]);
                }
                assert(items@.subrange(i + 1, items@.len() as int) =~= all.subrange(k + 1, all.len() as int));
                k = k + 1;
            }
            i += 1;
        }
    }
    proof {
        assert(items@.subrange(0, i as int) =~= items@);
        assert(all.subrange(k, all.len() as int).len() == 0);
        assert(all.subrange(0, k) =~= all);
    }
}

} // verus!
