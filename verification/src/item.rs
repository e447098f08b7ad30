//! Candidate items and their mathematical model.

use vstd::prelude::*;

use crate::score::fuzzy_score;

verus! {

/// One candidate entry of a catalog, together with the mutable relevance
/// data that the navigator recomputes on every query change.
pub struct FuzzyItem {
    /// The label shown in the list and matched against the query.
    pub display: String,
    /// The absolute path of the entry, as raw bytes.
    pub path: Vec<u8>,
    /// Whether the entry is directly playable.
    pub has_audio: bool,
    /// The number of child entries; zero marks a leaf.
    pub child_count: usize,
    /// Relevance weight: zero excludes the item from the view, one and above
    /// includes it; with no query active every item weighs one.
    pub weight: i64,
    /// Character offsets into `display` that the scorer matched; meaningful
    /// only while the weight is nonzero.
    pub indices: Vec<usize>,
}

/// The model of an item: every field as a plain mathematical value.
pub ghost struct ItemModel {
    pub display: Seq<char>,
    pub path: Seq<u8>,
    pub has_audio: bool,
    pub child_count: int,
    pub weight: int,
    pub indices: Seq<usize>,
}

impl View for FuzzyItem {
    type V = ItemModel;

    open spec fn view(&self) -> ItemModel {
        ItemModel {
            display: self.display@,
            path: self.path@,
            has_audio: self.has_audio,
            child_count: self.child_count as int,
            weight: self.weight as int,
            indices: self.indices@,
        }
    }
}

/// The models of a sequence of items.
pub open spec fn item_models(v: Seq<FuzzyItem>) -> Seq<ItemModel> {
    v.map_values(|it: FuzzyItem| it@)
}

/// An item is part of the current view exactly when its weight is nonzero.
pub open spec fn is_matched(it: ItemModel) -> bool {
    it.weight > 0
}

/// The stored matched positions are strictly ascending character offsets
/// into the display label.
pub open spec fn indices_wf(it: ItemModel) -> bool {
    &&& forall|a: int, b: int|
        0 <= a < b < it.indices.len() ==> (#[trigger] it.indices[a]) < (#[trigger] it.indices[b])
    &&& forall|a: int| 0 <= a < it.indices.len() ==> (#[trigger] it.indices[a]) < it.display.len()
}

/// How many items of `s` are part of the current view.
pub open spec fn count_matched(s: Seq<ItemModel>) -> int {
    s.filter(|it: ItemModel| is_matched(it)).len() as int
}

/// The item with its weight reset to the uniform no-query weight of one and
/// its matched positions cleared.
pub open spec fn reset_item(it: ItemModel) -> ItemModel {
    ItemModel { weight: 1, indices: Seq::empty(), ..it }
}

/// Every item reset to weight one, in unchanged order.
pub open spec fn reset_items(s: Seq<ItemModel>) -> Seq<ItemModel> {
    s.map_values(|it: ItemModel| reset_item(it))
}

/// The item as re-scored against a query: on a match the returned weight and
/// positions are stored; a missing or non-positive weight excludes the item.
pub open spec fn scored_item(it: ItemModel, pattern: Seq<char>) -> ItemModel {
    match fuzzy_score(it.display, pattern) {
        Some((w, ix)) => if w > 0 {
            ItemModel { weight: w as int, indices: ix, ..it }
        } else {
            ItemModel { weight: 0, indices: Seq::empty(), ..it }
        },
        None => ItemModel { weight: 0, indices: Seq::empty(), ..it },
    }
}

/// Every item re-scored against `pattern`, in unchanged order.
pub open spec fn scored_items(s: Seq<ItemModel>, pattern: Seq<char>) -> Seq<ItemModel> {
    s.map_values(|it: ItemModel| scored_item(it, pattern))
}

} // verus!
