//! The navigator's laws, stated over the models and proved for all inputs.

use vstd::prelude::*;

use crate::item::{ItemModel, reset_items, scored_item, scored_items};
use crate::navigator::{
    NavModel, down_of, nav_wf, page_down_of, page_up_of, refiltered, refiltered_items, up_of,
};
use crate::sort::{
    lemma_sort_desc_all, lemma_sort_desc_of_sorted, lemma_sort_desc_sorted, lemma_sort_desc_stable,
    sort_desc, weight_is,
};

verus! {

/// Re-filtering is idempotent: with an unchanged query, re-scoring and
/// re-sorting a second time yields the identical items in the identical
/// order, and hence the identical match count.
pub proof fn lemma_refilter_idempotent(items: Seq<ItemModel>, query: Seq<char>)
    ensures
        refiltered_items(refiltered_items(items, query), query) == refiltered_items(items, query),
{
    if query.len() == 0 {
        assert(reset_items(reset_items(items)) =~= reset_items(items));
    } else {
        let m = scored_items(items, query);
        let once = sort_desc(m);
        let fixed = |it: ItemModel| scored_item(it, query) == it;
        assert forall|i: int| 0 <= i < m.len() implies fixed(#[trigger] m[i]) by {
            assert(m[i] == scored_item(items[i], query));
        }
        lemma_sort_desc_all(m, fixed);
        assert(scored_items(once, query) =~= once);
        lemma_sort_desc_sorted(m);
        lemma_sort_desc_of_sorted(once);
    }
}

/// Running the re-filter twice in a row with no query change leaves the
/// whole navigator exactly where one run put it.
pub proof fn lemma_update_list_idempotent(o: NavModel)
    ensures
        ({
            let once = refiltered(o, o.query, o.cursor);
            refiltered(once, once.query, once.cursor) == once
        }),
{
    lemma_refilter_idempotent(o.items, o.query);
}

/// Stable re-filter: the matched items of any one weight stand, after the
/// re-filter's sort, in the same relative order that scoring gave them.
pub proof fn lemma_refilter_stable(items: Seq<ItemModel>, query: Seq<char>, w: int)
    requires
        query.len() > 0,
    ensures
        refiltered_items(items, query).filter(weight_is(w)) == scored_items(items, query).filter(
            weight_is(w),
        ),
{
    lemma_sort_desc_stable(scored_items(items, query), w);
}

/// Moving down then up from a selection strictly inside the window restores
/// the navigator exactly, selection and scroll offset alike.
pub proof fn lemma_down_up_roundtrip(o: NavModel)
    requires
        nav_wf(o),
        0 < o.selected,
        o.available_y == 0 ==> o.selected == o.offset,
        o.available_y > 0 ==> o.offset < o.selected <= o.offset + o.available_y,
    ensures
        up_of(down_of(o)) == o,
{
}

/// Paging up then down from a selection at least one page below the last
/// match restores the navigator exactly, selection and scroll offset alike.
pub proof fn lemma_page_roundtrip(o: NavModel)
    requires
        nav_wf(o),
        o.match_count > 0,
        o.selected + o.available_y <= o.match_count - 1,
    ensures
        page_down_of(page_up_of(o)) == o,
{
}

} // verus!
