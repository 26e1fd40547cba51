use crate::history::{listing, pushed, truncated};
use vstd::prelude::*;

verus! {

/// The entries after recording each of `items` in turn, first to last, into
/// `entries` under capacity `cap`.
pub open spec fn pushed_all(entries: Seq<String>, items: Seq<String>, cap: nat) -> Seq<String>
    decreases items.len(),
{
    if items.len() == 0 {
        entries
    } else {
        pushed(pushed_all(entries, items.drop_last(), cap), items.last(), cap)
    }
}

proof fn lemma_truncate_after_prepend(item: String, s: Seq<String>, cap: nat)
    ensures
        truncated(seq![item] + truncated(s, cap), cap) == truncated(seq![item] + s, cap),
{
    assert(truncated(seq![item] + truncated(s, cap), cap) =~= truncated(seq![item] + s, cap));
}

/// Recording a run of values into a history within its capacity leaves the
/// values in front, newest first, followed by the earlier entries, all cut
/// down to the capacity.
pub proof fn pushed_all_closed_form(entries: Seq<String>, items: Seq<String>, cap: nat)
    requires
        entries.len() <= cap,
    ensures
        pushed_all(entries, items, cap) == truncated(items.reverse() + entries, cap),
    decreases items.len(),
{
    if items.len() == 0 {
        assert(items.reverse() + entries =~= entries);
    } else {
        let init = items.drop_last();
        pushed_all_closed_form(entries, init, cap);
        assert(items.reverse() =~= seq![items.last()] + init.reverse());
        assert(items.reverse() + entries =~= seq![items.last()] + (init.reverse() + entries));
        lemma_truncate_after_prepend(items.last(), init.reverse() + entries, cap);
    }
}

/// However many values are recorded, one after another, a history never holds
/// more entries than its capacity.
pub proof fn pushes_stay_bounded(entries: Seq<String>, items: Seq<String>, cap: nat)
    requires
        entries.len() <= cap,
    ensures
        pushed_all(entries, items, cap).len() <= cap,
{
    pushed_all_closed_form(entries, items, cap);
}

/// Right after `v1` and then `v2` are recorded, `v2` is the newest entry and
/// `v1` comes next, unless the capacity of one entry has evicted it.
pub proof fn newest_comes_first(entries: Seq<String>, v1: String, v2: String, cap: nat)
    requires
        entries.len() <= cap,
        cap > 0,
        v1 != v2,
    ensures
        ({
            let e = pushed(pushed(entries, v1, cap), v2, cap);
            &&& e[0] == v2
            &&& cap >= 2 ==> e[1] == v1
            &&& cap < 2 ==> !e.contains(v1)
        }),
{
    let e = pushed(pushed(entries, v1, cap), v2, cap);
    if cap < 2 {
        assert(e =~= seq![v2]);
        if e.contains(v1) {
            let k = choose|k: int| 0 <= k < e.len() && e[k] == v1;
            assert(e[k] == v2);
        }
    }
}

/// Recording one more distinct value than the capacity evicts the first of
/// them, together with everything held before, and keeps the other values,
/// newest first.
pub proof fn overflow_evicts_oldest(entries: Seq<String>, items: Seq<String>, cap: nat)
    requires
        entries.len() <= cap,
        items.len() == cap + 1,
        items.no_duplicates(),
    ensures
        ({
            let e = pushed_all(entries, items, cap);
            &&& e == items.skip(1).reverse()
            &&& e.len() == cap
            &&& forall|j: int| 0 <= j < cap ==> #[trigger] e[j] == items[cap - j]
            &&& !e.contains(items[0])
        }),
{
    let e = pushed_all(entries, items, cap);
    pushed_all_closed_form(entries, items, cap);
    assert(e =~= items.skip(1).reverse());
    if e.contains(items[0]) {
        let k = choose|k: int| 0 <= k < e.len() && e[k] == items[0];
        assert(e[k] == items[cap - k]);
    }
}

/// Pasting a listed position takes out exactly one entry, and the text taken
/// out is the value the snapshot showed at that position.
pub proof fn paste_takes_listed_value(entries: Seq<String>, i: int)
    requires
        0 <= i < entries.len(),
    ensures
        listing(entries)[i].id == i as usize,
        listing(entries)[i].value == entries[i],
        entries.remove(i).len() == entries.len() - 1,
{
}

} // verus!
