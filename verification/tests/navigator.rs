use fuzzy_nav::item::FuzzyItem;
use fuzzy_nav::navigator::{
    descend_decision, Command, DescendDecision, FuzzyView, MouseOutcome, Outcome, PageJump,
    SelectDecision,
};

fn item(display: &str, path: &str, has_audio: bool, child_count: usize) -> FuzzyItem {
    FuzzyItem {
        display: String::from(display),
        path: path.as_bytes().to_vec(),
        has_audio,
        child_count,
        weight: 1,
        indices: Vec::new(),
    }
}

fn catalog(names: &[&str]) -> Vec<FuzzyItem> {
    names
        .iter()
        .map(|n| item(n, &format!("/root/{}", n), true, 0))
        .collect()
}

fn numbered(n: usize) -> Vec<FuzzyItem> {
    (0..n)
        .map(|i| item(&format!("track{:02}", i), &format!("/root/track{:02}", i), true, 0))
        .collect()
}

#[test]
fn fuzzy_query_filters_and_ranks() {
    let mut v = FuzzyView::new(catalog(&["alpha", "bravo", "alphabet"]));
    v.insert('a');
    v.insert('l');
    assert_eq!(v.query_chars().as_slice(), &['a', 'l']);
    assert_eq!(v.match_count(), 2);
    // the two matches stand first, in stable order; bravo is excluded
    assert_eq!(v.display_at(0), "alpha");
    assert_eq!(v.display_at(1), "alphabet");
    assert_eq!(v.display_at(2), "bravo");
    assert_eq!(v.weight_at(2), 0);
    assert!(v.weight_at(0) > 0);
    assert!(v.weight_at(1) > 0);
    assert_eq!(v.indices_at(0).as_slice(), &[0, 1]);
}

#[test]
fn fresh_view_has_uniform_weights() {
    let v = FuzzyView::new(catalog(&["alpha", "bravo", "alphabet"]));
    assert_eq!(v.match_count(), 3);
    for i in 0..3 {
        assert_eq!(v.weight_at(i), 1);
        assert!(v.indices_at(i).is_empty());
    }
    assert_eq!(v.display_at(0), "alpha");
    assert_eq!(v.display_at(1), "bravo");
    assert_eq!(v.display_at(2), "alphabet");
}

#[test]
fn clear_restores_full_count() {
    let mut v = FuzzyView::new(catalog(&["alpha", "bravo", "alphabet"]));
    v.insert('a');
    v.insert('l');
    assert_eq!(v.match_count(), 2);
    v.clear();
    assert_eq!(v.match_count(), 3);
    assert_eq!(v.cursor(), 0);
    assert!(v.query_chars().is_empty());
    assert_eq!(v.selected(), 0);
    assert_eq!(v.offset(), 0);
    for i in 0..3 {
        assert_eq!(v.weight_at(i), 1);
    }
}

#[test]
fn refilter_with_unchanged_query_is_idempotent() {
    let mut v = FuzzyView::new(catalog(&["alpha", "bravo", "alphabet", "gamma", "lava"]));
    v.insert('a');
    let count = v.match_count();
    let order: Vec<String> = (0..5).map(|i| v.display_at(i).clone()).collect();
    let weights: Vec<i64> = (0..5).map(|i| v.weight_at(i)).collect();
    v.update_list();
    assert_eq!(v.match_count(), count);
    for i in 0..5 {
        assert_eq!(v.display_at(i), &order[i]);
        assert_eq!(v.weight_at(i), weights[i]);
    }
}

#[test]
fn stable_sort_keeps_equal_weights_in_order() {
    let mut v = FuzzyView::new(catalog(&["red1", "blue", "red2"]));
    v.insert('r');
    v.insert('e');
    v.insert('d');
    assert_eq!(v.match_count(), 2);
    assert_eq!(v.display_at(0), "red1");
    assert_eq!(v.display_at(1), "red2");
    assert_eq!(v.weight_at(0), v.weight_at(1));
    assert_eq!(v.display_at(2), "blue");
    assert_eq!(v.weight_at(2), 0);
}

#[test]
fn move_down_then_up_restores_position() {
    let mut v = FuzzyView::new(numbered(6));
    v.layout(80, 8); // 5 list rows
    v.move_up();
    v.move_up();
    assert_eq!((v.selected(), v.offset()), (2, 0));
    v.move_down();
    assert_eq!((v.selected(), v.offset()), (1, 0));
    v.move_up();
    assert_eq!((v.selected(), v.offset()), (2, 0));
}

#[test]
fn move_down_then_up_at_window_bottom_scrolls() {
    // with the selection sitting exactly on the scroll offset, down-then-up
    // leaves the offset one lower: the window has scrolled
    let mut v = FuzzyView::new(numbered(12));
    v.layout(80, 8); // 5 list rows, 3 pages
    assert_eq!(v.random_page(1), PageJump::Settled);
    assert_eq!((v.selected(), v.offset()), (5, 5));
    v.move_down();
    assert_eq!((v.selected(), v.offset()), (4, 4));
    v.move_up();
    assert_eq!((v.selected(), v.offset()), (5, 4));
}

#[test]
fn page_up_then_down_restores_position() {
    let mut v = FuzzyView::new(numbered(20));
    v.layout(80, 8); // 5 list rows
    v.page_up();
    assert_eq!((v.selected(), v.offset()), (5, 5));
    v.page_down();
    assert_eq!((v.selected(), v.offset()), (0, 0));
    v.move_up();
    v.move_up();
    v.page_up();
    assert_eq!((v.selected(), v.offset()), (7, 5));
    v.page_down();
    assert_eq!((v.selected(), v.offset()), (2, 0));
}

#[test]
fn page_up_clamps_at_last_match() {
    // selection at the bottom of a short list: page up clamps to the last
    // match, page down returns the selection to zero
    let mut v = FuzzyView::new(numbered(3));
    v.layout(80, 8); // 5 list rows, all items fit
    v.page_up();
    assert_eq!((v.selected(), v.offset()), (2, 0));
    v.page_down();
    assert_eq!((v.selected(), v.offset()), (0, 0));
}

#[test]
fn page_roundtrip_at_top_may_move_offset() {
    // from the topmost selection the clamped page up does not advance a full
    // page, so the offset does not return with the selection
    let mut v = FuzzyView::new(numbered(20));
    v.layout(80, 8); // 5 list rows
    for _ in 0..3 {
        v.page_up();
    }
    assert_eq!((v.selected(), v.offset()), (15, 15));
    v.page_up();
    assert_eq!((v.selected(), v.offset()), (19, 15));
    v.page_down();
    assert_eq!((v.selected(), v.offset()), (14, 10));
}

#[test]
fn movement_with_no_matches_is_a_noop() {
    let mut v = FuzzyView::new(catalog(&["alpha", "bravo"]));
    v.layout(80, 8);
    v.insert('z');
    v.insert('z');
    assert_eq!(v.match_count(), 0);
    v.move_up();
    v.move_down();
    v.page_up();
    v.page_down();
    assert_eq!((v.selected(), v.offset()), (0, 0));
}

#[test]
fn mouse_press_on_selected_row_activates() {
    let mut v = FuzzyView::new(numbered(6));
    v.layout(80, 9); // 6 list rows; target = 6 + 1 + offset - mouse_y
    assert_eq!(v.mouse_select(7), MouseOutcome::Activate);
    assert_eq!((v.selected(), v.offset()), (0, 0));
}

#[test]
fn mouse_press_on_other_row_only_moves_selection() {
    let mut v = FuzzyView::new(numbered(6));
    v.layout(80, 9); // 6 list rows
    assert_eq!(v.mouse_select(6), MouseOutcome::Moved);
    assert_eq!(v.selected(), 1);
    assert_eq!(v.offset(), 0);
    // pressing the same row again is now an activation
    assert_eq!(v.mouse_select(6), MouseOutcome::Activate);
    assert_eq!(v.selected(), 1);
}

#[test]
fn mouse_press_outside_list_region_does_nothing() {
    let mut v = FuzzyView::new(numbered(6));
    v.layout(80, 9); // 6 list rows; rows 1..=7 are in range
    assert_eq!(v.mouse_select(0), MouseOutcome::Outside);
    assert_eq!(v.mouse_select(8), MouseOutcome::Outside);
    assert_eq!((v.selected(), v.offset()), (0, 0));
}

#[test]
fn mouse_press_on_empty_row_does_nothing() {
    let mut v = FuzzyView::new(numbered(2));
    v.layout(80, 9); // 6 list rows, only 2 items
    assert_eq!(v.mouse_select(1), MouseOutcome::Outside);
    assert_eq!((v.selected(), v.offset()), (0, 0));
}

#[test]
fn random_page_on_single_page_is_noop() {
    let mut v = FuzzyView::new(numbered(3));
    v.layout(80, 8); // 5 list rows, 3 items fit
    assert_eq!(v.page_count(), 0);
    assert_eq!(v.random_page(0), PageJump::Settled);
    assert_eq!((v.selected(), v.offset()), (0, 0));
    assert_eq!(v.match_count(), 3);
}

#[test]
fn random_page_jumps_and_clears_query() {
    let mut v = FuzzyView::new(numbered(12));
    v.layout(80, 8); // 5 list rows
    assert_eq!(v.page_count(), 3);
    v.insert('t');
    assert_eq!(v.random_page(1), PageJump::Settled);
    assert!(v.query_chars().is_empty());
    assert_eq!(v.match_count(), 12);
    assert_eq!((v.selected(), v.offset()), (5, 5));
    // the page starting at the current offset must be redrawn
    assert_eq!(v.random_page(1), PageJump::Retry);
    assert_eq!((v.selected(), v.offset()), (5, 5));
    assert_eq!(v.random_page(0), PageJump::Settled);
    assert_eq!((v.selected(), v.offset()), (0, 0));
}

#[test]
fn random_page_clamps_to_last_item() {
    let mut v = FuzzyView::new(numbered(10));
    v.layout(80, 8); // 5 list rows, pages = 10/5 + 1 = 3
    assert_eq!(v.page_count(), 3);
    assert_eq!(v.random_page(2), PageJump::Settled);
    assert_eq!((v.selected(), v.offset()), (9, 9));
}

#[test]
fn cursor_moves_by_grapheme_cluster() {
    let mut v = FuzzyView::new(catalog(&["alpha"]));
    v.insert('e');
    v.insert('\u{0301}'); // combining acute: one cluster of two characters
    assert_eq!(v.cursor(), 2);
    v.move_left();
    assert_eq!(v.cursor(), 0);
    v.move_right();
    assert_eq!(v.cursor(), 2);
}

#[test]
fn cursor_left_then_right_round_trips() {
    let mut v = FuzzyView::new(catalog(&["alpha"]));
    v.insert('e');
    v.insert('\u{0301}'); // one cluster of two characters
    v.insert('x');
    assert_eq!(v.cursor(), 3);
    v.move_left();
    assert_eq!(v.cursor(), 2);
    v.move_left();
    assert_eq!(v.cursor(), 0);
    v.move_right();
    assert_eq!(v.cursor(), 2);
    v.move_right();
    assert_eq!(v.cursor(), 3);
}

#[test]
fn backspace_removes_whole_cluster() {
    let mut v = FuzzyView::new(catalog(&["alpha"]));
    v.insert('e');
    v.insert('\u{0301}');
    v.backspace();
    assert!(v.query_chars().is_empty());
    assert_eq!(v.cursor(), 0);
    assert_eq!(v.match_count(), 1);
}

#[test]
fn ascii_cursor_moves_one_character() {
    let mut v = FuzzyView::new(catalog(&["alpha"]));
    v.insert('a');
    v.insert('l');
    assert_eq!(v.cursor(), 2);
    v.move_left();
    assert_eq!(v.cursor(), 1);
    v.move_left();
    assert_eq!(v.cursor(), 0);
    v.move_left();
    assert_eq!(v.cursor(), 0);
    v.move_right();
    assert_eq!(v.cursor(), 1);
}

#[test]
fn delete_removes_cluster_at_cursor() {
    let mut v = FuzzyView::new(catalog(&["alpha", "lava"]));
    v.insert('a');
    v.insert('l');
    v.home();
    assert_eq!(v.cursor(), 0);
    v.delete();
    assert_eq!(v.query_chars().as_slice(), &['l']);
    assert_eq!(v.cursor(), 0);
    assert_eq!(v.match_count(), 2);
}

#[test]
fn delete_at_end_of_text_still_reevaluates() {
    let mut v = FuzzyView::new(catalog(&["alpha", "bravo"]));
    v.insert('a');
    v.move_up(); // move the selection away from the bottom
    assert_eq!(v.selected(), 1);
    v.delete(); // no text change, but the view re-filters
    assert_eq!(v.query_chars().as_slice(), &['a']);
    assert_eq!(v.match_count(), 2);
    assert_eq!(v.selected(), 0);
}

#[test]
fn select_decision_distinguishes_leaf_and_directory() {
    let v = FuzzyView::new(vec![item("rock", "/root/rock", false, 4)]);
    match v.select_decision() {
        SelectDecision::Directory(p) => assert_eq!(p, b"/root/rock".to_vec()),
        other => panic!("expected a directory, got {:?}", other),
    }
    let v = FuzzyView::new(vec![item("song", "/root/song", true, 0)]);
    match v.select_decision() {
        SelectDecision::Leaf(p) => assert_eq!(p, b"/root/song".to_vec()),
        other => panic!("expected a leaf, got {:?}", other),
    }
}

#[test]
fn select_decision_with_no_matches_is_empty() {
    let v = FuzzyView::new(Vec::new());
    assert!(matches!(v.select_decision(), SelectDecision::NoMatches));
    let mut v = FuzzyView::new(catalog(&["alpha"]));
    v.insert('z');
    assert_eq!(v.match_count(), 0);
    assert!(matches!(v.select_decision(), SelectDecision::NoMatches));
}

#[test]
fn singleton_playable_catalog_activates_directly() {
    let child = vec![item("song", "/root/rock/song", true, 0)];
    match descend_decision(&child) {
        DescendDecision::PlaySingle(p) => assert_eq!(p, b"/root/rock/song".to_vec()),
        other => panic!("expected a direct activation, got {:?}", other),
    }
}

#[test]
fn larger_or_unplayable_catalogs_are_browsed() {
    let two = vec![
        item("one", "/root/rock/one", true, 0),
        item("two", "/root/rock/two", true, 0),
    ];
    assert!(matches!(descend_decision(&two), DescendDecision::Browse));
    let silent = vec![item("notes", "/root/rock/notes", false, 0)];
    assert!(matches!(descend_decision(&silent), DescendDecision::Browse));
    let nested = vec![item("deep", "/root/rock/deep", true, 3)];
    assert!(matches!(descend_decision(&nested), DescendDecision::Browse));
}

#[test]
fn parent_path_ascends_one_or_two_segments() {
    let v = FuzzyView::new(vec![item("song", "/music/rock/song", true, 0)]);
    let root = b"/music".to_vec();
    assert_eq!(v.parent_path(&root), Some(b"/music".to_vec()));
    let rock_root = b"/music/rock".to_vec();
    assert_eq!(v.parent_path(&rock_root), Some(b"/music/rock".to_vec()));
    let empty = FuzzyView::new(Vec::new());
    assert_eq!(empty.parent_path(&root), None);
}

#[test]
fn commands_dispatch_to_the_same_transitions() {
    let mut v = FuzzyView::new(numbered(6));
    v.layout(80, 8);
    assert_eq!(v.on_command(Command::MoveUp), Outcome::Consumed);
    assert_eq!(v.selected(), 1);
    assert_eq!(v.on_command(Command::MoveDown), Outcome::Consumed);
    assert_eq!(v.selected(), 0);
    assert_eq!(v.on_command(Command::Insert('t')), Outcome::Consumed);
    assert_eq!(v.query_chars().as_slice(), &['t']);
    assert_eq!(v.on_command(Command::Clear), Outcome::Consumed);
    assert!(v.query_chars().is_empty());
    assert_eq!(v.on_command(Command::Select), Outcome::SelectRequested);
    assert_eq!(v.on_command(Command::Cancel), Outcome::CancelRequested);
    assert_eq!(v.on_command(Command::Parent), Outcome::ParentRequested);
    assert_eq!(v.on_command(Command::OpenSelected), Outcome::OpenRequested);
    assert_eq!(v.on_command(Command::RandomPage), Outcome::RandomPageRequested);
    assert_eq!(v.selected(), 0);
}

#[test]
fn home_and_end_only_move_the_cursor() {
    let mut v = FuzzyView::new(catalog(&["alpha"]));
    v.insert('a');
    v.insert('l');
    let count = v.match_count();
    assert_eq!(v.on_command(Command::Home), Outcome::Consumed);
    assert_eq!(v.cursor(), 0);
    assert_eq!(v.on_command(Command::End), Outcome::Consumed);
    assert_eq!(v.cursor(), 2);
    assert_eq!(v.match_count(), count);
}

#[test]
fn visible_rows_follow_matches_and_height() {
    let mut v = FuzzyView::new(numbered(12));
    v.layout(80, 10);
    assert_eq!(v.visible_rows(10), 8);
    assert_eq!(v.visible_rows(3), 0);
    v.layout(80, 8);
    assert_eq!(v.random_page(1), PageJump::Settled);
    assert_eq!(v.offset(), 5);
    assert_eq!(v.visible_rows(10), 7);
}

#[test]
fn with_seeds_the_first_query_character() {
    let v = FuzzyView::with(catalog(&["alpha", "bravo", "alphabet"]), 'a');
    assert_eq!(v.query_chars().as_slice(), &['a']);
    assert_eq!(v.cursor(), 1);
    assert_eq!(v.match_count(), 3); // bravo holds an 'a' too
}

#[test]
fn with_lowercases_an_ascii_seed_key() {
    let v = FuzzyView::with(catalog(&["alpha", "bravo", "alphabet"]), 'A');
    assert_eq!(v.query_chars().as_slice(), &['a']);
    assert_eq!(v.cursor(), 1);
    let v = FuzzyView::with(catalog(&["alpha"]), '7');
    assert_eq!(v.query_chars().as_slice(), &['7']);
}
