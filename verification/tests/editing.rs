//! The text-editing model: insert, delete, drain, selection growth and the
//! cursor-blink timer.

use streamline_ui::nodes::text_field::{BlinkTimer, TextField, TextSelection, BLINK_PERIOD_NANOS};

fn chars(s: &str) -> Vec<char> {
    s.chars().collect()
}

fn field_with(text: &str, cursor: usize) -> TextField {
    let mut field = TextField::default();
    field.text = chars(text);
    field.cursor_pos = cursor;
    field
}

#[test]
fn insert_char_appends_at_cursor() {
    let mut field = field_with("ac", 1);
    field.insert_char('b');
    assert_eq!(field.text, chars("abc"));
    assert_eq!(field.cursor_pos, 2);
}

#[test]
fn insert_then_remove_previous_restores_state() {
    let mut field = field_with("hello", 3);
    field.insert_char('x');
    field.remove_previous_char();
    assert_eq!(field.text, chars("hello"));
    assert_eq!(field.cursor_pos, 3);
}

#[test]
fn insert_char_replaces_selection() {
    let mut field = field_with("abcdef", 4);
    field.selection = Some(TextSelection::new(1, 3));
    field.insert_char('x');
    assert_eq!(field.text, chars("axef"));
    assert_eq!(field.cursor_pos, 2);
    assert!(field.selection.is_none());
}

#[test]
fn remove_previous_char_at_start_is_a_no_op() {
    let mut field = field_with("ab", 0);
    field.remove_previous_char();
    assert_eq!(field.text, chars("ab"));
    assert_eq!(field.cursor_pos, 0);
}

#[test]
fn remove_next_char_keeps_cursor() {
    let mut field = field_with("abc", 1);
    field.remove_next_char();
    assert_eq!(field.text, chars("ac"));
    assert_eq!(field.cursor_pos, 1);
}

#[test]
fn remove_next_char_at_end_is_a_no_op() {
    let mut field = field_with("abc", 3);
    field.remove_next_char();
    assert_eq!(field.text, chars("abc"));
    assert_eq!(field.cursor_pos, 3);
}

#[test]
fn drain_selection_removes_covered_range() {
    let mut field = field_with("abcdef", 5);
    field.selection = Some(TextSelection::new(1, 3));
    field.drain_selection();
    assert_eq!(field.text, chars("aef"));
    assert_eq!(field.cursor_pos, 1);
    assert!(field.selection.is_none());
}

#[test]
fn drain_selection_without_selection_changes_nothing() {
    let mut field = field_with("abc", 2);
    field.drain_selection();
    assert_eq!(field.text, chars("abc"));
    assert_eq!(field.cursor_pos, 2);
    assert!(field.selection.is_none());
}

#[test]
fn selection_accessors() {
    let sel = TextSelection::new(2, 3);
    assert_eq!(sel.start(), 2);
    assert_eq!(sel.length(), 3);
    assert_eq!(sel.end(), 5);
    assert!(!sel.is_empty());
    assert!(TextSelection::new(4, 0).is_empty());
}

#[test]
fn include_char_at_grows_leftward() {
    let mut sel = TextSelection::new(4, 2);
    sel.include_char_at(1);
    assert_eq!(sel.start(), 1);
    assert_eq!(sel.length(), 5);
    assert_eq!(sel.end(), 6);
}

#[test]
fn include_char_at_grows_rightward() {
    let mut sel = TextSelection::new(1, 2);
    sel.include_char_at(5);
    assert_eq!(sel.start(), 1);
    assert_eq!(sel.length(), 5);
    assert_eq!(sel.end(), 6);
}

#[test]
fn include_char_at_inside_changes_nothing() {
    let mut sel = TextSelection::new(1, 3);
    sel.include_char_at(2);
    assert_eq!(sel.start(), 1);
    assert_eq!(sel.length(), 3);
}

#[test]
fn include_char_at_stays_inside_the_buffer() {
    // buffer of length 6; any in-range index keeps 0 <= start <= end <= 6
    let mut sel = TextSelection::new(2, 2);
    for index in 0..6usize {
        sel.include_char_at(index);
        assert!(sel.start() <= sel.end());
        assert!(sel.end() <= 6);
    }
    assert_eq!(sel.start(), 0);
    assert_eq!(sel.end(), 6);
}

#[test]
fn blink_timer_flips_only_on_period_completion() {
    let mut field = TextField::default();
    assert!(field.cursor_blink);
    let changed = field.cursor_blink(BLINK_PERIOD_NANOS / 2);
    assert!(!changed);
    assert!(field.cursor_blink);
    let changed = field.cursor_blink(BLINK_PERIOD_NANOS / 2);
    assert!(changed);
    assert!(!field.cursor_blink);
    // remainder wraps around the period
    let changed = field.cursor_blink(BLINK_PERIOD_NANOS + BLINK_PERIOD_NANOS / 4);
    assert!(changed);
    assert!(field.cursor_blink);
    assert_eq!(field.cursor_blink_timer.elapsed_nanos, BLINK_PERIOD_NANOS / 4);
}

#[test]
fn reset_cursor_blink_forces_the_glyph_on() {
    let mut field = TextField::default();
    field.cursor_blink(BLINK_PERIOD_NANOS);
    assert!(!field.cursor_blink);
    field.reset_cursor_blink();
    assert!(field.cursor_blink);
    assert_eq!(field.cursor_blink_timer.elapsed_nanos, 0);
}

#[test]
fn activate_and_deactivate_toggle_the_field() {
    let mut field = TextField::default();
    assert!(!field.active);
    field.cursor_blink(BLINK_PERIOD_NANOS);
    field.activate();
    assert!(field.active);
    assert!(field.cursor_blink);
    assert_eq!(field.cursor_blink_timer.elapsed_nanos, 0);
    field.deactivate();
    assert!(!field.active);
}

#[test]
fn blink_timer_tick_reports_completion() {
    let mut timer = BlinkTimer::new(100);
    assert!(!timer.tick(99));
    assert_eq!(timer.elapsed_nanos, 99);
    assert!(timer.tick(1));
    assert_eq!(timer.elapsed_nanos, 0);
    assert!(timer.tick(250));
    assert_eq!(timer.elapsed_nanos, 50);
    timer.reset();
    assert_eq!(timer.elapsed_nanos, 0);
}

#[test]
fn default_field_is_fresh() {
    let field = TextField::default();
    assert_eq!(field.text.len(), 0);
    assert_eq!(field.cursor_pos, 0);
    assert!(field.cursor_blink);
    assert!(!field.active);
    assert!(field.selection.is_none());
    assert_eq!(field.font_size, (16.0f32).to_bits());
    assert_eq!(field.cursor_blink_timer.period_nanos, BLINK_PERIOD_NANOS);
    assert!(field.placeholder_text.is_none());
}
