//! Stable sorting of items by weight, descending, and its laws.

use vstd::prelude::*;

use crate::item::{FuzzyItem, ItemModel, count_matched, is_matched, item_models};

verus! {

broadcast use vstd::seq_lib::group_seq_lib_default, Seq::lemma_filter_push;

/// `s` is ordered by weight, descending.
pub open spec fn sorted_desc(s: Seq<ItemModel>) -> bool {
    forall|i: int, j: int| 0 <= i <= j < s.len() ==> s[i].weight >= s[j].weight
}

/// Every item of `s` satisfies `p`.
pub open spec fn all_items(s: Seq<ItemModel>, p: spec_fn(ItemModel) -> bool) -> bool {
    forall|i: int| 0 <= i < s.len() ==> p(#[trigger] s[i])
}

/// The predicate holding of the items of one given weight.
pub open spec fn weight_is(w: int) -> spec_fn(ItemModel) -> bool {
    |it: ItemModel| it.weight == w
}

/// `x` placed into `s` after every element whose weight is at least its own.
pub open spec fn insert_desc(s: Seq<ItemModel>, x: ItemModel) -> Seq<ItemModel>
    decreases s.len(),
{
    if s.len() == 0 {
        seq![x]
    } else if s[0].weight >= x.weight {
        seq![s[0]] + insert_desc(s.drop_first(), x)
    } else {
        seq![x] + s
    }
}

/// The stable insertion sort of `s` by weight, descending.
pub open spec fn sort_desc(s: Seq<ItemModel>) -> Seq<ItemModel>
    decreases s.len(),
{
    if s.len() == 0 {
        Seq::empty()
    } else {
        insert_desc(sort_desc(s.drop_last()), s.last())
    }
}

/// Where the insertion lands: before the first element of smaller weight.
pub proof fn lemma_insert_desc_split(s: Seq<ItemModel>, x: ItemModel, j: int)
    requires
        0 <= j <= s.len(),
        forall|k: int| 0 <= k < j ==> s[k].weight >= x.weight,
        j < s.len() ==> s[j].weight < x.weight,
    ensures
        insert_desc(s, x) == s.take(j) + seq![x] + s.skip(j),
    decreases s.len(),
{
    if j == 0 {
        if s.len() == 0 {
            assert(insert_desc(s, x) =~= s.take(0) + seq![x] + s.skip(0));
        } else {
            assert(s[0].weight < x.weight);
            assert(insert_desc(s, x) =~= s.take(0) + seq![x] + s.skip(0));
        }
    } else {
        assert(s[0].weight >= x.weight);
        let rest = s.drop_first();
        assert(forall|k: int| 0 <= k < j - 1 ==> rest[k].weight >= x.weight);
        lemma_insert_desc_split(rest, x, j - 1);
        assert(seq![s[0]] + (rest.take(j - 1) + seq![x] + rest.skip(j - 1)) =~= s.take(j)
            + seq![x] + s.skip(j));
    }
}

/// Inserting an element no heavier than any present one appends it.
pub proof fn lemma_insert_desc_at_end(s: Seq<ItemModel>, x: ItemModel)
    requires
        forall|k: int| 0 <= k < s.len() ==> s[k].weight >= x.weight,
    ensures
        insert_desc(s, x) == s.push(x),
{
    lemma_insert_desc_split(s, x, s.len() as int);
    assert(s.take(s.len() as int) + seq![x] + s.skip(s.len() as int) =~= s.push(x));
}

/// A property of every element, and of the inserted one, survives insertion.
pub proof fn lemma_insert_desc_all(s: Seq<ItemModel>, x: ItemModel, p: spec_fn(ItemModel) -> bool)
    requires
        all_items(s, p),
        p(x),
    ensures
        all_items(insert_desc(s, x), p),
    decreases s.len(),
{
    if s.len() > 0 && s[0].weight >= x.weight {
        assert(all_items(s.drop_first(), p));
        lemma_insert_desc_all(s.drop_first(), x, p);
        assert forall|i: int| 0 <= i < insert_desc(s, x).len() implies p(
            #[trigger] insert_desc(s, x)[i],
        ) by {
            if i > 0 {
                assert(insert_desc(s, x)[i] == insert_desc(s.drop_first(), x)[i - 1]);
            }
        }
    }
}

pub proof fn lemma_insert_desc_sorted(s: Seq<ItemModel>, x: ItemModel)
    requires
        sorted_desc(s),
    ensures
        sorted_desc(insert_desc(s, x)),
    decreases s.len(),
{
    if s.len() == 0 {
    } else if s[0].weight >= x.weight {
        let rest = s.drop_first();
        lemma_insert_desc_sorted(rest, x);
        lemma_insert_desc_all(rest, x, |it: ItemModel| it.weight <= s[0].weight);
        let out = insert_desc(s, x);
        assert forall|i: int, j: int| 0 <= i <= j < out.len() implies out[i].weight
            >= out[j].weight by {
            if i > 0 {
                assert(out[i] == insert_desc(rest, x)[i - 1]);
                assert(out[j] == insert_desc(rest, x)[j - 1]);
            } else if j > 0 {
                assert(out[j] == insert_desc(rest, x)[j - 1]);
                assert((|it: ItemModel| it.weight <= s[0].weight)(insert_desc(rest, x)[j - 1]));
            }
        }
    }
}

pub proof fn lemma_sort_desc_sorted(s: Seq<ItemModel>)
    ensures
        sorted_desc(sort_desc(s)),
    decreases s.len(),
{
    if s.len() > 0 {
        lemma_sort_desc_sorted(s.drop_last());
        lemma_insert_desc_sorted(sort_desc(s.drop_last()), s.last());
    }
}

/// A property of every element survives sorting.
pub proof fn lemma_sort_desc_all(s: Seq<ItemModel>, p: spec_fn(ItemModel) -> bool)
    requires
        all_items(s, p),
    ensures
        all_items(sort_desc(s), p),
    decreases s.len(),
{
    if s.len() > 0 {
        assert(all_items(s.drop_last(), p));
        lemma_sort_desc_all(s.drop_last(), p);
        lemma_insert_desc_all(sort_desc(s.drop_last()), s.last(), p);
    }
}

/// Filtering a singleton sequence.
proof fn lemma_filter_singleton(x: ItemModel, p: spec_fn(ItemModel) -> bool)
    ensures
        seq![x].filter(p) == if p(x) {
            seq![x]
        } else {
            Seq::<ItemModel>::empty()
        },
{
    assert(seq![x].drop_last() =~= Seq::<ItemModel>::empty());
    reveal_with_fuel(Seq::filter, 2);
    if p(x) {
        assert(seq![x].filter(p) =~= seq![x]);
    }
}

/// Filtering a sequence with no satisfying element gives the empty sequence.
proof fn lemma_filter_none(s: Seq<ItemModel>, p: spec_fn(ItemModel) -> bool)
    requires
        forall|i: int| 0 <= i < s.len() ==> !p(#[trigger] s[i]),
    ensures
        s.filter(p) == Seq::<ItemModel>::empty(),
    decreases s.len(),
{
    reveal_with_fuel(Seq::filter, 2);
    if s.len() > 0 {
        lemma_filter_none(s.drop_last(), p);
    } else {
        assert(s.filter(p) =~= Seq::<ItemModel>::empty());
    }
}

/// Insertion adds exactly the new element to the count of any predicate.
pub proof fn lemma_insert_desc_filter_len(
    s: Seq<ItemModel>,
    x: ItemModel,
    p: spec_fn(ItemModel) -> bool,
)
    ensures
        insert_desc(s, x).filter(p).len() == s.filter(p).len() + if p(x) {
            1int
        } else {
            0int
        },
    decreases s.len(),
{
    lemma_filter_singleton(x, p);
    if s.len() == 0 {
    } else if s[0].weight >= x.weight {
        let rest = s.drop_first();
        lemma_insert_desc_filter_len(rest, x, p);
        lemma_filter_singleton(s[0], p);
        assert(seq![s[0]] + rest =~= s);
    }
}

/// Counting the matched items is invariant under sorting.
pub proof fn lemma_sort_desc_count(s: Seq<ItemModel>)
    ensures
        count_matched(sort_desc(s)) == count_matched(s),
    decreases s.len(),
{
    if s.len() > 0 {
        let p = |it: ItemModel| is_matched(it);
        lemma_sort_desc_count(s.drop_last());
        lemma_insert_desc_filter_len(sort_desc(s.drop_last()), s.last(), p);
        assert(s.drop_last().push(s.last()) =~= s);
        assert(s.drop_last().push(s.last()).filter(p).len() == s.drop_last().filter(p).len() + if p(
            s.last(),
        ) {
            1int
        } else {
            0int
        }) by {
            broadcast use Seq::lemma_filter_len_push;

        }
    }
}

/// Inserting into a sorted sequence places the new element after every
/// present element of its own weight, and leaves the others alone.
pub proof fn lemma_insert_desc_filter_weight(s: Seq<ItemModel>, x: ItemModel, w: int)
    requires
        sorted_desc(s),
    ensures
        insert_desc(s, x).filter(weight_is(w)) == if x.weight == w {
            s.filter(weight_is(w)).push(x)
        } else {
            s.filter(weight_is(w))
        },
    decreases s.len(),
{
    let p = weight_is(w);
    lemma_filter_singleton(x, p);
    if s.len() == 0 {
        if x.weight == w {
            assert(seq![x] =~= s.filter(p).push(x));
        }
    } else if s[0].weight >= x.weight {
        let rest = s.drop_first();
        lemma_insert_desc_filter_weight(rest, x, w);
        lemma_filter_singleton(s[0], p);
        assert(seq![s[0]] + rest =~= s);
        if x.weight == w {
            assert(seq![s[0]].filter(p) + rest.filter(p).push(x) =~= (seq![s[0]].filter(p)
                + rest.filter(p)).push(x));
        }
    } else {
        // every element of `s` weighs less than `x`, so none weighs `w == x.weight`
        if x.weight == w {
            assert(forall|i: int| 0 <= i < s.len() ==> (#[trigger] s[i]).weight <= s[0].weight);
            lemma_filter_none(s, p);
            assert(seq![x] + s.filter(p) =~= s.filter(p).push(x));
        } else {
            assert(seq![x].filter(p) =~= Seq::<ItemModel>::empty());
        }
    }
}

/// Stable-sort law: for any weight, the items of that weight stand in the
/// sorted sequence in the same relative order as before sorting.
pub proof fn lemma_sort_desc_stable(s: Seq<ItemModel>, w: int)
    ensures
        sort_desc(s).filter(weight_is(w)) == s.filter(weight_is(w)),
    decreases s.len(),
{
    let p = weight_is(w);
    if s.len() > 0 {
        lemma_sort_desc_stable(s.drop_last(), w);
        lemma_sort_desc_sorted(s.drop_last());
        lemma_insert_desc_filter_weight(sort_desc(s.drop_last()), s.last(), w);
        assert(s.drop_last().push(s.last()) =~= s);
        assert(s.drop_last().push(s.last()).filter(p) == if p(s.last()) {
            s.drop_last().filter(p).push(s.last())
        } else {
            s.drop_last().filter(p)
        });
    } else {
        assert(s.filter(p) =~= Seq::<ItemModel>::empty());
    }
}

/// Sorting an already sorted sequence leaves it unchanged.
pub proof fn lemma_sort_desc_of_sorted(s: Seq<ItemModel>)
    requires
        sorted_desc(s),
    ensures
        sort_desc(s) == s,
    decreases s.len(),
{
    if s.len() > 0 {
        assert(sorted_desc(s.drop_last()));
        lemma_sort_desc_of_sorted(s.drop_last());
        assert(forall|k: int| 0 <= k < s.drop_last().len() ==> s.drop_last()[k].weight
            >= s.last().weight);
        lemma_insert_desc_at_end(s.drop_last(), s.last());
        assert(s.drop_last().push(s.last()) =~= s);
    }
}

/// Counting the matched items, one step at a time.
pub proof fn lemma_count_matched_last(s: Seq<ItemModel>)
    requires
        s.len() > 0,
    ensures
        count_matched(s) == count_matched(s.drop_last()) + if is_matched(s.last()) {
            1int
        } else {
            0int
        },
{
    reveal_with_fuel(Seq::filter, 2);
}

pub proof fn lemma_count_matched_bounds(s: Seq<ItemModel>)
    ensures
        0 <= count_matched(s) <= s.len(),
    decreases s.len(),
{
    if s.len() > 0 {
        lemma_count_matched_last(s);
        lemma_count_matched_bounds(s.drop_last());
    } else {
        reveal_with_fuel(Seq::filter, 1);
        assert(s.filter(|it: ItemModel| is_matched(it)).len() == 0);
    }
}

/// In a sorted sequence of nonnegative weights, the matched items are
/// exactly the first `count_matched` ones.
pub proof fn lemma_sorted_matched_prefix(s: Seq<ItemModel>)
    requires
        sorted_desc(s),
        forall|i: int| 0 <= i < s.len() ==> (#[trigger] s[i]).weight >= 0,
    ensures
        forall|i: int| 0 <= i < s.len() ==> (is_matched(#[trigger] s[i]) <==> i < count_matched(s)),
    decreases s.len(),
{
    if s.len() > 0 {
        let rest = s.drop_last();
        assert(sorted_desc(rest));
        assert(forall|i: int| 0 <= i < rest.len() ==> (#[trigger] rest[i]).weight >= 0);
        lemma_sorted_matched_prefix(rest);
        lemma_count_matched_last(s);
        lemma_count_matched_bounds(rest);
        if is_matched(s.last()) {
            assert forall|i: int| 0 <= i < rest.len() implies is_matched(#[trigger] rest[i]) by {
                assert(s[i].weight >= s.last().weight);
            }
            assert(count_matched(rest) == rest.len()) by {
                if count_matched(rest) < rest.len() {
                    assert(!is_matched(rest[count_matched(rest)]));
                }
            }
            assert(count_matched(s) == s.len());
        } else {
            assert(count_matched(s) == count_matched(rest));
            assert(count_matched(s) <= s.len() - 1);
            assert forall|i: int| 0 <= i < s.len() implies (is_matched(#[trigger] s[i]) <==> i
                < count_matched(s)) by {
                if i < rest.len() {
                    assert(s[i] == rest[i]);
                }
            }
        }
    }
}

/// Sorts the items by weight, descending, with a stable insertion sort.
pub(crate) fn sort_items(items: &mut Vec<FuzzyItem>)
    ensures
        item_models(final(items)@) == sort_desc(item_models(old(items)@)),
{
    let ghost orig = item_models(old(items)@);
    let n = items.len();
    let mut i: usize = 0;
    proof {
        assert(item_models(items@).take(0) =~= sort_desc(orig.take(0)));
    }
    while i < n
        invariant
            n == items@.len(),
            orig.len() == n,
            i <= n,
            item_models(items@).take(i as int) == sort_desc(orig.take(i as int)),
            forall|k: int| i <= k < n ==> item_models(items@)[k] == orig[k],
            sorted_desc(item_models(items@).take(i as int)),
        decreases n - i,
    {
        let ghost before = item_models(items@);
        let ghost pre = before.take(i as int);
        let ghost x = orig[i as int];
        proof {
            assert(before[i as int] == orig[i as int]);
        }
        let w = items[i].weight;
        let mut j: usize = 0;
        while j < i && items[j].weight >= w
            invariant
                j <= i,
                i < n == items@.len(),
                item_models(items@) == before,
                before.len() == n,
                pre == before.take(i as int),
                w as int == x.weight,
                forall|k: int| 0 <= k < j ==> pre[k].weight >= x.weight,
            decreases i - j,
        {
            proof {
                assert(pre[j as int] == items@[j as int]@);
            }
            j = j + 1;
        }
        proof {
            assert(j < i ==> pre[j as int] == items@[j as int]@);
            assert(j < i ==> pre[j as int].weight < x.weight);
            lemma_insert_desc_split(pre, x, j as int);
            assert(orig.take(i + 1) =~= orig.take(i as int).push(orig[i as int]));
            assert(orig.take(i + 1).drop_last() =~= orig.take(i as int));
            assert(sort_desc(orig.take(i + 1)) == insert_desc(pre, x));
            lemma_insert_desc_sorted(pre, x);
        }
        if j < i {
            let moved = items.remove(i);
            items.insert(j, moved);
            proof {
                let now = item_models(items@);
                assert(now.take(i + 1) =~= pre.take(j as int) + seq![x] + pre.skip(j as int));
                assert(forall|k: int| i + 1 <= k < n ==> now[k] == before[k]);
            }
        } else {
            proof {
                let now = item_models(items@);
                assert(insert_desc(pre, x) =~= pre.push(x));
                assert(now.take(i + 1) =~= pre.push(x));
            }
        }
        i = i + 1;
    }
    proof {
        assert(item_models(items@).take(n as int) =~= item_models(items@));
        assert(orig.take(n as int) =~= orig);
    }
}

} // verus!
