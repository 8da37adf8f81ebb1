use textedit::click::ClickHistory;
use textedit::dispatch::{handle_click, EditAction};

#[test]
fn single_click_classifies() {
    let mut h = ClickHistory::new();
    h.add_entry(10, 20, 0);
    assert!(h.clicked(1));
    assert!(!h.clicked(2));
}

#[test]
fn triple_click_within_thresholds() {
    let mut h = ClickHistory::new();
    h.add_entry(100, 100, 0);
    h.add_entry(101, 100, 200);
    h.add_entry(101, 101, 400);
    assert!(h.clicked(3));
    assert!(h.clicked(2));
    assert!(h.clicked(1));
}

#[test]
fn five_pixels_apart_is_not_a_double_click() {
    let mut h = ClickHistory::new();
    h.add_entry(0, 0, 0);
    h.add_entry(5, 0, 100);
    assert!(!h.clicked(2));
    assert!(h.clicked(1));
}

#[test]
fn six_hundred_ms_apart_is_not_a_double_click() {
    let mut h = ClickHistory::new();
    h.add_entry(7, 7, 0);
    h.add_entry(7, 7, 600);
    assert!(!h.clicked(2));
}

#[test]
fn five_hundred_ms_apart_still_counts() {
    let mut h = ClickHistory::new();
    h.add_entry(7, 7, 0);
    h.add_entry(7, 7, 500);
    assert!(h.clicked(2));
}

#[test]
fn history_never_exceeds_four_entries() {
    let mut h = ClickHistory::new();
    for i in 0..25u64 {
        h.add_entry(i as i32, 0, i * 10);
        assert!(h.history.len() <= 4);
    }
    assert_eq!(h.history.len(), 4);
}

#[test]
fn newest_entry_sits_in_front() {
    let mut h = ClickHistory::new();
    h.add_entry(1, 1, 10);
    h.add_entry(2, 2, 20);
    assert_eq!(h.history[0].x, 2);
    assert_eq!(h.history[1].x, 1);
}

#[test]
fn handle_click_prefers_triple_over_double_over_single() {
    let mut h = ClickHistory::new();
    assert_eq!(handle_click(&mut h, 50, 50, 0), EditAction::Click { x: 50, y: 50 });
    assert_eq!(
        handle_click(&mut h, 50, 50, 100),
        EditAction::DoubleClick { x: 50, y: 50 }
    );
    assert_eq!(
        handle_click(&mut h, 50, 50, 200),
        EditAction::TripleClick { x: 50, y: 50 }
    );
}

#[test]
fn handle_click_far_away_restarts_at_single() {
    let mut h = ClickHistory::new();
    assert_eq!(handle_click(&mut h, 0, 0, 0), EditAction::Click { x: 0, y: 0 });
    assert_eq!(
        handle_click(&mut h, 500, 500, 50),
        EditAction::Click { x: 500, y: 500 }
    );
}
