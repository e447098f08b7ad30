//! The list navigator: one browsing session's mutable state — query text,
//! edit cursor, filtered and ranked view, scroll offset, selection — and the
//! commands that move the selection, page, edit the query and commit.

use vstd::prelude::*;

use crate::bytes::{bytes_eq, copy_bytes};
use crate::item::{
    FuzzyItem, ItemModel, count_matched, indices_wf, is_matched, item_models, reset_item,
    reset_items, scored_item, scored_items,
};
use crate::paths::{parent_dir, pop_component};
use crate::score::score_label;
use crate::segment::{cluster_lens, first_cluster_len, is_cluster_boundary, last_cluster_len};
use crate::sort::{
    all_items, lemma_count_matched_bounds, lemma_count_matched_last, lemma_sort_desc_all,
    lemma_sort_desc_count, lemma_sort_desc_sorted, lemma_sorted_matched_prefix, sort_desc,
    sort_items, sorted_desc,
};

verus! {

/// The model of a navigator: every field as a plain mathematical value.
pub ghost struct NavModel {
    /// The query text, as characters.
    pub query: Seq<char>,
    /// The edit cursor: a character offset into `query`; the cursor-movement
    /// commands keep it on a grapheme-cluster boundary.
    pub cursor: int,
    /// The selected index; index 0 is the item closest to the input line.
    pub selected: int,
    /// The scroll offset: the lowest index currently scrolled into view.
    pub offset: int,
    /// How many items have nonzero weight.
    pub match_count: int,
    /// The items, ranked by the current query.
    pub items: Seq<ItemModel>,
    /// The number of list rows the viewport can show.
    pub available_y: int,
    /// The viewport size.
    pub size_x: int,
    pub size_y: int,
}

/// The navigator's well-formedness: the cursor stays inside the query, the
/// matched items are exactly the first `match_count` ones, and the selection
/// is a valid index into the matched prefix, at or above the scroll offset.
pub open spec fn nav_wf(o: NavModel) -> bool {
    &&& 0 <= o.cursor <= o.query.len()
    &&& 0 <= o.match_count <= o.items.len()
    &&& forall|i: int| 0 <= i < o.items.len() ==> (#[trigger] o.items[i]).weight >= 0
    &&& forall|i: int|
        0 <= i < o.items.len() ==> (is_matched(#[trigger] o.items[i]) <==> i < o.match_count)
    &&& forall|i: int| 0 <= i < o.items.len() ==> indices_wf(#[trigger] o.items[i])
    &&& 0 <= o.offset <= o.selected
    &&& o.match_count == 0 ==> o.selected == 0 && o.offset == 0
    &&& o.match_count > 0 ==> o.selected < o.match_count
    &&& 0 <= o.available_y
    &&& 0 <= o.size_x
    &&& 0 <= o.size_y
}

/// A fresh navigator over a catalog: empty query, uniform weights, catalog
/// order, the selection and the scroll at the bottom.
pub open spec fn fresh_nav(items: Seq<ItemModel>) -> NavModel {
    NavModel {
        query: Seq::empty(),
        cursor: 0,
        selected: 0,
        offset: 0,
        match_count: items.len() as int,
        items: reset_items(items),
        available_y: 0,
        size_x: 0,
        size_y: 0,
    }
}

/// Moving the selection one row down (toward index 0).
pub open spec fn down_of(o: NavModel) -> NavModel {
    if o.selected == 0 {
        o
    } else {
        NavModel {
            selected: o.selected - 1,
            offset: if o.selected == o.offset {
                o.offset - 1
            } else {
                o.offset
            },
            ..o
        }
    }
}

/// Moving the selection one row up (toward higher indices).
pub open spec fn up_of(o: NavModel) -> NavModel {
    if o.match_count == 0 || o.selected == o.match_count - 1 {
        o
    } else {
        NavModel {
            selected: o.selected + 1,
            offset: if o.selected - o.offset >= o.available_y {
                o.offset + 1
            } else {
                o.offset
            },
            ..o
        }
    }
}

/// Jumping one page up: advance selection and offset by a page, clamping the
/// selection to the last match.
pub open spec fn page_up_of(o: NavModel) -> NavModel {
    if o.match_count == 0 {
        o
    } else if o.selected + o.available_y <= o.match_count - 1 {
        NavModel {
            selected: o.selected + o.available_y,
            offset: o.offset + o.available_y,
            ..o
        }
    } else {
        NavModel {
            selected: o.match_count - 1,
            offset: if o.offset + o.available_y < o.match_count - 1 {
                o.offset + o.available_y
            } else {
                o.offset
            },
            ..o
        }
    }
}

/// Jumping one page down: selection and offset each retreat by a page,
/// flooring at zero independently.
pub open spec fn page_down_of(o: NavModel) -> NavModel {
    if o.match_count == 0 {
        o
    } else {
        NavModel {
            selected: if o.selected > o.available_y {
                o.selected - o.available_y
            } else {
                0
            },
            offset: if o.offset > o.available_y {
                o.offset - o.available_y
            } else {
                0
            },
            ..o
        }
    }
}

/// The items re-ranked for a query: an empty query restores the uniform
/// weights and the catalog order; otherwise every item is re-scored and the
/// whole set is stably sorted by weight, descending.
pub open spec fn refiltered_items(items: Seq<ItemModel>, query: Seq<char>) -> Seq<ItemModel> {
    if query.len() == 0 {
        reset_items(items)
    } else {
        sort_desc(scored_items(items, query))
    }
}

/// The navigator after a re-filter: the given query and cursor, the items
/// re-ranked, the match count recounted, selection and scroll reset.
pub open spec fn refiltered(o: NavModel, query: Seq<char>, cursor: int) -> NavModel {
    let items = refiltered_items(o.items, query);
    NavModel {
        query: query,
        cursor: cursor,
        selected: 0,
        offset: 0,
        match_count: count_matched(items),
        items: items,
        ..o
    }
}

/// Moving the cursor one grapheme cluster to the left.
pub open spec fn left_of(o: NavModel) -> NavModel {
    if o.cursor == 0 {
        o
    } else {
        NavModel { cursor: o.cursor - cluster_lens(o.query.take(o.cursor)).last(), ..o }
    }
}

/// Moving the cursor one grapheme cluster to the right.
pub open spec fn right_of(o: NavModel) -> NavModel {
    if o.cursor == o.query.len() {
        o
    } else {
        NavModel { cursor: o.cursor + cluster_lens(o.query.skip(o.cursor)).first(), ..o }
    }
}

/// The query with the grapheme cluster at the cursor removed.
pub open spec fn deleted_query(o: NavModel) -> Seq<char> {
    let k = cluster_lens(o.query.skip(o.cursor)).first();
    o.query.take(o.cursor) + o.query.skip(o.cursor + k)
}

/// Deleting at the cursor: removes the cluster to its right and re-filters;
/// at the end of the text the query is left unchanged but still re-evaluated.
pub open spec fn delete_of(o: NavModel) -> NavModel {
    if o.cursor == o.query.len() {
        refiltered(o, o.query, o.cursor)
    } else {
        refiltered(o, deleted_query(o), o.cursor)
    }
}

/// Inserting a character at the cursor and re-filtering.
pub open spec fn insert_of(o: NavModel, ch: char) -> NavModel {
    refiltered(o, o.query.insert(o.cursor, ch), o.cursor + 1)
}

/// Backspace: move one cluster left, then delete to the right.
pub open spec fn backspace_of(o: NavModel) -> NavModel {
    if o.cursor == 0 {
        o
    } else {
        delete_of(left_of(o))
    }
}

/// Clearing the query and re-filtering.
pub open spec fn cleared_of(o: NavModel) -> NavModel {
    refiltered(o, Seq::empty(), 0)
}

/// A random-page jump happens only when the items overflow one page.
pub open spec fn random_jump_applies(o: NavModel) -> bool {
    o.available_y > 0 && o.items.len() > o.available_y
}

/// How many pages a random jump draws from.
pub open spec fn pages_of(o: NavModel) -> int {
    if o.available_y > 0 {
        o.items.len() as int / o.available_y + 1
    } else {
        0
    }
}

/// The navigator after a random-page jump to `page`: the query is cleared
/// and both selection and scroll land on the page's first row, clamped to
/// the last item.
pub open spec fn jumped_of(o: NavModel, page: int) -> NavModel {
    let c = cleared_of(o);
    let y = page * o.available_y;
    let yc = if y < o.items.len() {
        y
    } else {
        o.items.len() - 1
    };
    NavModel { selected: yc, offset: yc, ..c }
}

/// The list index a pointer press at viewport row `mouse_y` points at.
pub open spec fn mouse_target(o: NavModel, mouse_y: int) -> int {
    o.available_y + 1 + o.offset - mouse_y
}

/// Whether a random-page jump settled or must be redrawn.
#[derive(Clone, Copy, Debug, PartialEq, Eq, Structural)]
pub enum PageJump {
    Settled,
    Retry,
}

/// What a pointer press did.
#[derive(Clone, Copy, Debug, PartialEq, Eq, Structural)]
pub enum MouseOutcome {
    Outside,
    Moved,
    Activate,
}

/// What committing the current selection decides.
#[derive(Debug)]
pub enum SelectDecision {
    NoMatches,
    Leaf(Vec<u8>),
    Directory(Vec<u8>),
}

/// What a fetched child catalog decides.
#[derive(Debug)]
pub enum DescendDecision {
    PlaySingle(Vec<u8>),
    Browse,
}

/// The closed set of commands the navigator handles.
#[derive(Clone, Copy, Debug)]
pub enum Command {
    Insert(char),
    MoveDown,
    MoveUp,
    PageUp,
    PageDown,
    MoveLeft,
    MoveRight,
    Home,
    End,
    Backspace,
    Delete,
    Clear,
    Select,
    Cancel,
    Parent,
    OpenSelected,
    RandomPage,
}

/// What a command asks of the surrounding controller.
#[derive(Clone, Copy, Debug, PartialEq, Eq, Structural)]
pub enum Outcome {
    Consumed,
    SelectRequested,
    CancelRequested,
    ParentRequested,
    OpenRequested,
    RandomPageRequested,
}

/// How each state-changing command transforms the navigator.
pub open spec fn command_applied(o: NavModel, cmd: Command) -> NavModel {
    match cmd {
        Command::Insert(ch) => insert_of(o, ch),
        Command::MoveDown => down_of(o),
        Command::MoveUp => up_of(o),
        Command::PageUp => page_up_of(o),
        Command::PageDown => page_down_of(o),
        Command::MoveLeft => left_of(o),
        Command::MoveRight => right_of(o),
        Command::Home => NavModel { cursor: 0, ..o },
        Command::End => NavModel { cursor: o.query.len() as int, ..o },
        Command::Backspace => backspace_of(o),
        Command::Delete => delete_of(o),
        Command::Clear => cleared_of(o),
        _ => o,
    }
}

/// The ASCII-lowercased character: the letters 'A' through 'Z' map to their
/// lowercase counterparts; every other character is unchanged.
pub open spec fn ascii_lower(ch: char) -> char {
    if 'A' <= ch && ch <= 'Z' {
        ((ch as u8) + 32) as char
    } else {
        ch
    }
}

/// Lowercases an ASCII letter.
pub fn to_ascii_lower(ch: char) -> (r: char)
    ensures
        r == ascii_lower(ch),
{
    if 'A' <= ch && ch <= 'Z' {
        ((ch as u8) + 32) as char
    } else {
        ch
    }
}

/// What each command hands back to the controller.
pub open spec fn command_outcome(cmd: Command) -> Outcome {
    match cmd {
        Command::Select => Outcome::SelectRequested,
        Command::Cancel => Outcome::CancelRequested,
        Command::Parent => Outcome::ParentRequested,
        Command::OpenSelected => Outcome::OpenRequested,
        Command::RandomPage => Outcome::RandomPageRequested,
        _ => Outcome::Consumed,
    }
}

pub struct FuzzyView {
    query: Vec<char>,
    cursor: usize,
    selected: usize,
    offset: usize,
    match_count: usize,
    items: Vec<FuzzyItem>,
    available_y: usize,
    size_x: usize,
    size_y: usize,
}

impl View for FuzzyView {
    type V = NavModel;

    closed spec fn view(&self) -> NavModel {
        NavModel {
            query: self.query@,
            cursor: self.cursor as int,
            selected: self.selected as int,
            offset: self.offset as int,
            match_count: self.match_count as int,
            items: item_models(self.items@),
            available_y: self.available_y as int,
            size_x: self.size_x as int,
            size_y: self.size_y as int,
        }
    }
}

impl FuzzyView {
    pub open spec fn inv(&self) -> bool {
        nav_wf(self@)
    }

    /// Builds a navigator over a catalog, normalizing every item to the
    /// uniform no-query weight of one.
    pub fn new(items: Vec<FuzzyItem>) -> (r: Self)
        ensures
            r.inv(),
            r@ == fresh_nav(item_models(items@)),
    {
        let mut items = items;
        reset_weights(&mut items);
        let n = items.len();
        let r = FuzzyView {
            query: Vec::new(),
            cursor: 0,
            selected: 0,
            offset: 0,
            match_count: n,
            items,
            available_y: 0,
            size_x: 0,
            size_y: 0,
        };
        proof {
            assert(r@.query =~= Seq::<char>::empty());
        }
        r
    }

    /// Builds a navigator over a catalog and seeds it with a first query
    /// character, lowercased when it is an ASCII letter.
    pub fn with(items: Vec<FuzzyItem>, key: char) -> (r: Self)
        ensures
            r.inv(),
            r@ == insert_of(fresh_nav(item_models(items@)), ascii_lower(key)),
    {
        let mut v = FuzzyView::new(items);
        v.insert(to_ascii_lower(key));
        v
    }

    /// Records a viewport size: three rows are reserved for the input line,
    /// the separator line and one boundary line; the rest can show items.
    pub fn layout(&mut self, size_x: usize, size_y: usize)
        requires
            old(self).inv(),
        ensures
            final(self).inv(),
            final(self)@ == (NavModel {
                size_x: size_x as int,
                size_y: size_y as int,
                available_y: if size_y > 2 {
                    size_y - 3
                } else {
                    0
                },
                ..old(self)@
            }),
    {
        self.size_x = size_x;
        self.size_y = size_y;
        self.available_y = if size_y > 2 {
            size_y - 3
        } else {
            0
        };
    }

    /// Moves the selection down one row.
    pub fn move_down(&mut self)
        requires
            old(self).inv(),
        ensures
            final(self).inv(),
            final(self)@ == down_of(old(self)@),
    {
        if self.selected == 0 {
            return ;
        }
        if self.selected == self.offset {
            self.offset = self.offset - 1;
        }
        self.selected = self.selected - 1;
    }

    /// Moves the selection up one row.
    pub fn move_up(&mut self)
        requires
            old(self).inv(),
        ensures
            final(self).inv(),
            final(self)@ == up_of(old(self)@),
    {
        if self.match_count == 0 {
            return ;
        }
        if self.selected == self.match_count - 1 {
            return ;
        }
        if self.selected - self.offset >= self.available_y {
            self.offset = self.offset + 1;
        }
        self.selected = self.selected + 1;
    }

    /// Moves the selection up one page.
    pub fn page_up(&mut self)
        requires
            old(self).inv(),
        ensures
            final(self).inv(),
            final(self)@ == page_up_of(old(self)@),
    {
        if self.match_count == 0 {
            return ;
        }
        let top = self.match_count - 1;
        if self.available_y <= top && self.selected <= top - self.available_y {
            self.selected = self.selected + self.available_y;
            self.offset = self.offset + self.available_y;
        } else {
            self.selected = top;
            if self.available_y < top && self.offset < top - self.available_y {
                self.offset = self.offset + self.available_y;
            }
        }
    }

    /// Moves the selection down one page.
    pub fn page_down(&mut self)
        requires
            old(self).inv(),
        ensures
            final(self).inv(),
            final(self)@ == page_down_of(old(self)@),
    {
        if self.match_count == 0 {
            return ;
        }
        if self.selected > self.available_y {
            self.selected = self.selected - self.available_y;
        } else {
            self.selected = 0;
        }
        if self.offset > self.available_y {
            self.offset = self.offset - self.available_y;
        } else {
            self.offset = 0;
        }
    }

    /// Re-runs the filter on the current query: resets the weights when the
    /// query is empty, otherwise re-scores and stably re-sorts every item;
    /// selection and scroll return to the bottom.
    pub fn update_list(&mut self)
        requires
            old(self).inv(),
        ensures
            final(self).inv(),
            final(self)@ == refiltered(old(self)@, old(self)@.query, old(self)@.cursor),
    {
        let ghost o = self@;
        if self.query.len() == 0 {
            reset_weights(&mut self.items);
            self.match_count = self.items.len();
            self.selected = 0;
            self.offset = 0;
            proof {
                let its = item_models(self.items@);
                assert(forall|i: int| 0 <= i < its.len() ==> (#[trigger] its[i]).weight == 1);
                assert(sorted_desc(its));
                lemma_sorted_matched_prefix(its);
                lemma_count_matched_bounds(its);
                if count_matched(its) < its.len() {
                    assert(is_matched(its[count_matched(its)]));
                }
            }
        } else {
            let count = rescore(&mut self.items, &self.query);
            sort_items(&mut self.items);
            self.match_count = count;
            self.selected = 0;
            self.offset = 0;
            proof {
                let scored = scored_items(o.items, o.query);
                let its = item_models(self.items@);
                lemma_sort_desc_count(scored);
                lemma_sort_desc_sorted(scored);
                assert(all_items(scored, |it: ItemModel| it.weight >= 0));
                lemma_sort_desc_all(scored, |it: ItemModel| it.weight >= 0);
                assert(forall|i: int| 0 <= i < its.len() ==> (#[trigger] its[i]).weight >= 0);
                assert(all_items(scored, |it: ItemModel| indices_wf(it)));
                lemma_sort_desc_all(scored, |it: ItemModel| indices_wf(it));
                assert(forall|i: int| 0 <= i < its.len() ==> indices_wf(#[trigger] its[i]));
                lemma_sorted_matched_prefix(its);
            }
        }
    }

    /// Inserts a character at the cursor and re-filters.
    pub fn insert(&mut self, ch: char)
        requires
            old(self).inv(),
        ensures
            final(self).inv(),
            final(self)@ == insert_of(old(self)@, ch),
    {
        self.query.insert(self.cursor, ch);
        let n = self.query.len();
        proof {
            assert(self.cursor < n);
        }
        self.cursor = self.cursor + 1;
        self.update_list();
    }

    /// Moves the cursor one grapheme cluster left; the list is untouched.
    /// From a cursor on a cluster boundary it lands on a boundary again, and
    /// moving right afterwards returns exactly to where it was.
    pub fn move_left(&mut self)
        requires
            old(self).inv(),
        ensures
            final(self).inv(),
            final(self)@ == left_of(old(self)@),
            old(self)@.cursor > 0 && is_cluster_boundary(old(self)@.query, old(self)@.cursor)
                ==> is_cluster_boundary(final(self)@.query, final(self)@.cursor) && right_of(
                final(self)@,
            ) == old(self)@,
    {
        if self.cursor > 0 {
            let k = last_cluster_len(&self.query, self.cursor);
            self.cursor = self.cursor - k;
        }
    }

    /// Moves the cursor one grapheme cluster right; the list is untouched.
    /// From a cursor on a cluster boundary it lands on a boundary again, and
    /// moving left afterwards returns exactly to where it was.
    pub fn move_right(&mut self)
        requires
            old(self).inv(),
        ensures
            final(self).inv(),
            final(self)@ == right_of(old(self)@),
            old(self)@.cursor < old(self)@.query.len() && is_cluster_boundary(
                old(self)@.query,
                old(self)@.cursor,
            ) ==> is_cluster_boundary(final(self)@.query, final(self)@.cursor) && left_of(
                final(self)@,
            ) == old(self)@,
    {
        if self.cursor < self.query.len() {
            let k = first_cluster_len(&self.query, self.cursor);
            self.cursor = self.cursor + k;
        }
    }

    /// Deletes the grapheme cluster at the cursor and re-filters; with the
    /// cursor at the end of the text the query is unchanged but still
    /// re-evaluated.
    pub fn delete(&mut self)
        requires
            old(self).inv(),
        ensures
            final(self).inv(),
            final(self)@ == delete_of(old(self)@),
    {
        let ghost o = self@;
        if self.cursor == self.query.len() {
            self.update_list();
        } else {
            let k = first_cluster_len(&self.query, self.cursor);
            let ghost q0 = self.query@;
            let c = self.cursor;
            let mut t: usize = 0;
            proof {
                assert(q0.take(c as int) + q0.skip(c as int) =~= q0);
            }
            while t < k
                invariant
                    t <= k,
                    1 <= k,
                    c + k <= q0.len(),
                    k as int == cluster_lens(q0.skip(c as int)).first(),
                    self@ == (NavModel { query: q0.take(c as int) + q0.skip(c + t), ..o }),
                    o.cursor == c as int,
                decreases k - t,
            {
                self.query.remove(c);
                proof {
                    assert((q0.take(c as int) + q0.skip(c + t)).remove(c as int) =~= q0.take(
                        c as int,
                    ) + q0.skip(c + t + 1));
                }
                t = t + 1;
            }
            proof {
                assert(self@.query == deleted_query(o));
            }
            self.update_list();
        }
    }

    /// Deletes the grapheme cluster to the left of the cursor, as a move
    /// left followed by a delete.
    pub fn backspace(&mut self)
        requires
            old(self).inv(),
        ensures
            final(self).inv(),
            final(self)@ == backspace_of(old(self)@),
    {
        if self.cursor > 0 {
            self.move_left();
            self.delete();
        }
    }

    /// Empties the query and re-filters: every weight returns to one and all
    /// items are shown again, in catalog order.
    pub fn clear(&mut self)
        requires
            old(self).inv(),
        ensures
            final(self).inv(),
            final(self)@ == cleared_of(old(self)@),
            final(self)@.match_count == old(self)@.items.len(),
            forall|i: int|
                0 <= i < final(self)@.items.len() ==> (#[trigger] final(self)@.items[i]).weight
                    == 1,
    {
        let ghost o = self@;
        self.query.clear();
        self.cursor = 0;
        self.update_list();
        proof {
            assert(self@.query =~= Seq::<char>::empty());
            let its = refiltered_items(o.items, self@.query);
            assert(forall|i: int| 0 <= i < its.len() ==> (#[trigger] its[i]).weight == 1);
            assert(sorted_desc(its));
            lemma_sorted_matched_prefix(its);
            lemma_count_matched_bounds(its);
            if count_matched(its) < its.len() {
                assert(is_matched(its[count_matched(its)]));
            }
            assert(self@ == cleared_of(o));
        }
    }

    /// Sets the cursor to the start of the query.
    pub fn home(&mut self)
        requires
            old(self).inv(),
        ensures
            final(self).inv(),
            final(self)@ == (NavModel { cursor: 0, ..old(self)@ }),
    {
        self.cursor = 0;
    }

    /// Sets the cursor past the last character of the query.
    pub fn to_end(&mut self)
        requires
            old(self).inv(),
        ensures
            final(self).inv(),
            final(self)@ == (NavModel { cursor: old(self)@.query.len() as int, ..old(self)@ }),
    {
        self.cursor = self.query.len();
    }

    /// How many pages a random jump can draw from; zero when everything
    /// already fits on one page.
    pub fn page_count(&self) -> (r: usize)
        requires
            self.inv(),
            self@.items.len() < usize::MAX,
        ensures
            r as int == if random_jump_applies(self@) {
                pages_of(self@)
            } else {
                0
            },
    {
        if self.available_y > 0 && self.items.len() > self.available_y {
            proof {
                assert(self@.items.len() as int / self@.available_y <= self@.items.len() as int)
                    by (nonlinear_arith)
                    requires
                        self@.available_y >= 1,
                        self@.items.len() >= 0,
                ;
            }
            self.items.len() / self.available_y + 1
        } else {
            0
        }
    }

    /// Jumps to the drawn page: a no-op when everything fits on one page;
    /// asks for a redraw when the page starts exactly at the current offset;
    /// otherwise clears the query and puts selection and scroll on the
    /// page's first row.
    pub fn random_page(&mut self, page: usize) -> (r: PageJump)
        requires
            old(self).inv(),
            random_jump_applies(old(self)@) ==> (page as int) < pages_of(old(self)@),
        ensures
            final(self).inv(),
            ({
                let o = old(self)@;
                if !random_jump_applies(o) {
                    final(self)@ == o && r == PageJump::Settled
                } else if page as int * o.available_y == o.offset {
                    final(self)@ == o && r == PageJump::Retry
                } else {
                    final(self)@ == jumped_of(o, page as int) && r == PageJump::Settled
                }
            }),
    {
        if self.available_y == 0 || self.items.len() <= self.available_y {
            return PageJump::Settled;
        }
        let len = self.items.len();
        let ay = self.available_y;
        proof {
            vstd::arithmetic::div_mod::lemma_fundamental_div_mod(len as int, ay as int);
            vstd::arithmetic::div_mod::lemma_mod_bound(len as int, ay as int);
            vstd::arithmetic::mul::lemma_mul_inequality(
                page as int,
                len as int / ay as int,
                ay as int,
            );
            assert(page as int * ay as int <= len as int);
        }
        let y = page * ay;
        if y == self.offset {
            return PageJump::Retry;
        }
        self.clear();
        let yc = if y < self.items.len() {
            y
        } else {
            self.items.len() - 1
        };
        self.selected = yc;
        self.offset = yc;
        PageJump::Settled
    }

    /// Maps a pointer press at viewport row `mouse_y` to a list position: at
    /// the already selected row it activates; at another row holding a match
    /// it only moves the selection; anywhere else it has no effect.
    pub fn mouse_select(&mut self, mouse_y: usize) -> (r: MouseOutcome)
        requires
            old(self).inv(),
        ensures
            final(self).inv(),
            ({
                let o = old(self)@;
                let t = mouse_target(o, mouse_y as int);
                if mouse_y < 1 || mouse_y as int > o.available_y + 1 {
                    final(self)@ == o && r == MouseOutcome::Outside
                } else if t == o.selected {
                    final(self)@ == o && r == MouseOutcome::Activate
                } else if t < o.match_count {
                    final(self)@ == (NavModel { selected: t, ..o }) && r == MouseOutcome::Moved
                } else {
                    final(self)@ == o && r == MouseOutcome::Outside
                }
            }),
    {
        // the target index can exceed the machine word, so it is computed wide
        if mouse_y < 1 || (mouse_y as u128) > (self.available_y as u128) + 1 {
            return MouseOutcome::Outside;
        }
        let t = (self.available_y as u128) + 1 + (self.offset as u128) - (mouse_y as u128);
        if t == self.selected as u128 {
            return MouseOutcome::Activate;
        }
        if t < self.match_count as u128 {
            self.selected = t as usize;
            return MouseOutcome::Moved;
        }
        MouseOutcome::Outside
    }

    /// What committing the current selection does: with no matches nothing;
    /// on a leaf an activation with its path; on a directory a descent.
    pub fn select_decision(&self) -> (r: SelectDecision)
        requires
            self.inv(),
        ensures
            ({
                let o = self@;
                if o.match_count == 0 {
                    r == SelectDecision::NoMatches
                } else if o.items[o.selected].child_count == 0 {
                    r matches SelectDecision::Leaf(p) && p@ == o.items[o.selected].path
                } else {
                    r matches SelectDecision::Directory(p) && p@ == o.items[o.selected].path
                }
            }),
    {
        if self.match_count == 0 {
            return SelectDecision::NoMatches;
        }
        let p = copy_bytes(&self.items[self.selected].path);
        if self.items[self.selected].child_count == 0 {
            SelectDecision::Leaf(p)
        } else {
            SelectDecision::Directory(p)
        }
    }

    /// The directory to ascend to: derived from the first item's path by
    /// removing its leaf name, and one more segment unless that directory is
    /// the search root. None when the catalog is empty.
    pub fn parent_path(&self, root: &Vec<u8>) -> (r: Option<Vec<u8>>)
        requires
            self.inv(),
        ensures
            match r {
                Option::None => self@.items.len() == 0,
                Option::Some(p) => self@.items.len() > 0 && p@ == parent_dir(
                    self@.items[0].path,
                    root@,
                ),
            },
    {
        if self.items.len() == 0 {
            return None;
        }
        let d = pop_component(&self.items[0].path);
        if bytes_eq(&d, root) {
            Some(d)
        } else {
            Some(pop_component(&d))
        }
    }

    /// Dispatches one command: editing and movement update the state here;
    /// commit, cancel, ascend, external open and random jump are handed back
    /// to the controller.
    pub fn on_command(&mut self, cmd: Command) -> (r: Outcome)
        requires
            old(self).inv(),
        ensures
            final(self).inv(),
            final(self)@ == command_applied(old(self)@, cmd),
            r == command_outcome(cmd),
    {
        match cmd {
            Command::Insert(ch) => {
                self.insert(ch);
                Outcome::Consumed
            },
            Command::MoveDown => {
                self.move_down();
                Outcome::Consumed
            },
            Command::MoveUp => {
                self.move_up();
                Outcome::Consumed
            },
            Command::PageUp => {
                self.page_up();
                Outcome::Consumed
            },
            Command::PageDown => {
                self.page_down();
                Outcome::Consumed
            },
            Command::MoveLeft => {
                self.move_left();
                Outcome::Consumed
            },
            Command::MoveRight => {
                self.move_right();
                Outcome::Consumed
            },
            Command::Home => {
                self.home();
                Outcome::Consumed
            },
            Command::End => {
                self.to_end();
                Outcome::Consumed
            },
            Command::Backspace => {
                self.backspace();
                Outcome::Consumed
            },
            Command::Delete => {
                self.delete();
                Outcome::Consumed
            },
            Command::Clear => {
                self.clear();
                Outcome::Consumed
            },
            Command::Select => Outcome::SelectRequested,
            Command::Cancel => Outcome::CancelRequested,
            Command::Parent => Outcome::ParentRequested,
            Command::OpenSelected => Outcome::OpenRequested,
            Command::RandomPage => Outcome::RandomPageRequested,
        }
    }

    /// How many item rows a draw pass walks on a screen of `h` rows: the
    /// matches still at or above the scroll offset, capped by the rows left
    /// over the two reserved bottom lines; nothing on a tiny screen.
    pub fn visible_rows(&self, h: usize) -> (r: usize)
        requires
            self.inv(),
        ensures
            r as int == if h <= 3 {
                0int
            } else if self@.match_count - self@.offset <= h - 2 {
                self@.match_count - self@.offset
            } else {
                h - 2
            },
    {
        if h <= 3 {
            return 0;
        }
        let avail = h - 2;
        let remaining = self.match_count - self.offset;
        if remaining <= avail {
            remaining
        } else {
            avail
        }
    }

    pub fn selected(&self) -> (r: usize)
        ensures
            r as int == self@.selected,
    {
        self.selected
    }

    pub fn offset(&self) -> (r: usize)
        ensures
            r as int == self@.offset,
    {
        self.offset
    }

    pub fn match_count(&self) -> (r: usize)
        ensures
            r as int == self@.match_count,
    {
        self.match_count
    }

    pub fn cursor(&self) -> (r: usize)
        ensures
            r as int == self@.cursor,
    {
        self.cursor
    }

    pub fn query_chars(&self) -> (r: &Vec<char>)
        ensures
            r@ == self@.query,
    {
        &self.query
    }

    pub fn item_count(&self) -> (r: usize)
        ensures
            r as int == self@.items.len(),
    {
        self.items.len()
    }

    pub fn available_rows(&self) -> (r: usize)
        ensures
            r as int == self@.available_y,
    {
        self.available_y
    }

    pub fn weight_at(&self, i: usize) -> (r: i64)
        requires
            i < self@.items.len(),
        ensures
            r as int == self@.items[i as int].weight,
    {
        self.items[i].weight
    }

    pub fn display_at(&self, i: usize) -> (r: &String)
        requires
            i < self@.items.len(),
        ensures
            r@ == self@.items[i as int].display,
    {
        &self.items[i].display
    }

    pub fn path_at(&self, i: usize) -> (r: &Vec<u8>)
        requires
            i < self@.items.len(),
        ensures
            r@ == self@.items[i as int].path,
    {
        &self.items[i].path
    }

    pub fn indices_at(&self, i: usize) -> (r: &Vec<usize>)
        requires
            i < self@.items.len(),
        ensures
            r@ == self@.items[i as int].indices,
    {
        &self.items[i].indices
    }
}

/// Whether a fetched child catalog resolves to a single playable leaf (then
/// it is activated directly, skipping the intermediate single-item listing)
/// or to a listing to browse.
pub fn descend_decision(child_items: &Vec<FuzzyItem>) -> (r: DescendDecision)
    ensures
        ({
            let s = item_models(child_items@);
            if s.len() == 1 && s[0].has_audio && s[0].child_count == 0 {
                r matches DescendDecision::PlaySingle(p) && p@ == s[0].path
            } else {
                r matches DescendDecision::Browse
            }
        }),
{
    if child_items.len() == 1 {
        let it = &child_items[0];
        if it.has_audio && it.child_count == 0 {
            return DescendDecision::PlaySingle(copy_bytes(&it.path));
        }
    }
    DescendDecision::Browse
}

/// Resets every item to the uniform weight of one with no matched positions,
/// keeping the order.
fn reset_weights(items: &mut Vec<FuzzyItem>)
    ensures
        item_models(final(items)@) == reset_items(item_models(old(items)@)),
{
    let ghost orig = item_models(old(items)@);
    let n = items.len();
    let mut out: Vec<FuzzyItem> = Vec::new();
    let mut i: usize = 0;
    while i < n
        invariant
            i <= n,
            orig.len() == n,
            items@.len() == n - i,
            forall|k: int| 0 <= k < n - i ==> (#[trigger] items@[k])@ == orig[i + k],
            out@.len() == i,
            forall|k: int| 0 <= k < i ==> (#[trigger] out@[k])@ == reset_item(orig[k]),
        decreases n - i,
    {
        let it = items.remove(0);
        let FuzzyItem { display, path, has_audio, child_count, .. } = it;
        out.push(
            FuzzyItem { display, path, has_audio, child_count, weight: 1, indices: Vec::new() },
        );
        proof {
            assert(out@.last()@.indices =~= Seq::<usize>::empty());
        }
        i = i + 1;
    }
    *items = out;
    proof {
        assert(item_models(items@) =~= reset_items(orig));
    }
}

/// Re-scores every item against `pattern`, keeping the order, and returns
/// how many matched.
fn rescore(items: &mut Vec<FuzzyItem>, pattern: &Vec<char>) -> (count: usize)
    ensures
        item_models(final(items)@) == scored_items(item_models(old(items)@), pattern@),
        count as int == count_matched(item_models(final(items)@)),
        forall|k: int|
            0 <= k < item_models(final(items)@).len() ==> indices_wf(
                #[trigger] item_models(final(items)@)[k],
            ),
{
    let ghost orig = item_models(old(items)@);
    let n = items.len();
    let mut out: Vec<FuzzyItem> = Vec::new();
    let mut count: usize = 0;
    let mut i: usize = 0;
    while i < n
        invariant
            i <= n,
            count <= i,
            orig.len() == n,
            items@.len() == n - i,
            forall|k: int| 0 <= k < n - i ==> (#[trigger] items@[k])@ == orig[i + k],
            out@.len() == i,
            forall|k: int|
                0 <= k < i ==> (#[trigger] out@[k])@ == scored_item(orig[k], pattern@),
            forall|k: int| 0 <= k < i ==> indices_wf((#[trigger] out@[k])@),
            count as int == count_matched(item_models(out@)),
        decreases n - i,
    {
        let it = items.remove(0);
        let scored = score_label(&it.display, pattern);
        let FuzzyItem { display, path, has_audio, child_count, .. } = it;
        let ghost prev = item_models(out@);
        let (w, ix): (i64, Vec<usize>) = match scored {
            Some((w0, ix0)) => {
                if w0 > 0 {
                    (w0, ix0)
                } else {
                    (0, Vec::new())
                }
            },
            None => (0, Vec::new()),
        };
        out.push(FuzzyItem { display, path, has_audio, child_count, weight: w, indices: ix });
        if w > 0 {
            count = count + 1;
        }
        proof {
            let now = item_models(out@);
            assert(now =~= prev.push(out@.last()@));
            assert(out@.last()@ == scored_item(orig[i as int], pattern@)) by {
                if w == 0 {
                    assert(out@.last()@.indices =~= Seq::<usize>::empty());
                }
            }
            assert(indices_wf(out@.last()@));
            assert(now.drop_last() =~= prev);
            lemma_count_matched_last(now);
        }
        i = i + 1;
    }
    *items = out;
    proof {
        assert(item_models(items@) =~= scored_items(orig, pattern@));
    }
    count
}

} // verus!
