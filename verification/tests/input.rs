//! The key-event state machine: dispatch, selection editing, activity
//! filtering and re-projection.

use streamline_ui::input::{
    accepts_key_events_check, handle_text_input, process_key_event, FieldKey, KeyEvent,
};
use streamline_ui::nodes::text_field::{TextField, TextSelection};
use streamline_ui::text::Text;

fn chars(s: &str) -> Vec<char> {
    s.chars().collect()
}

fn active_field(text: &str, cursor: usize) -> TextField {
    let mut field = TextField::default();
    field.text = chars(text);
    field.cursor_pos = cursor;
    field.activate();
    field
}

fn press(key: FieldKey) -> KeyEvent {
    KeyEvent { pressed: true, key, character: None, control: false, shift: false }
}

fn press_char(c: char) -> KeyEvent {
    KeyEvent {
        pressed: true,
        key: FieldKey::Other,
        character: Some(c),
        control: false,
        shift: false,
    }
}

#[test]
fn shift_arrow_left_twice_selects_backwards() {
    // buffer "hello", cursor at the end, two presses of shift+ArrowLeft
    let mut field = active_field("hello", 5);
    let mut text = Text::new();
    let mut ev = press(FieldKey::ArrowLeft);
    ev.shift = true;
    process_key_event(&mut field, &mut text, &ev);
    process_key_event(&mut field, &mut text, &ev);

    let sel = field.selection.expect("selection exists");
    assert_eq!(sel.start(), 3);
    assert_eq!(sel.length(), 2);
    assert_eq!(field.cursor_pos, 3);
}

#[test]
fn typing_into_an_empty_field_appends() {
    let mut field = active_field("", 0);
    let mut text = Text::new();
    for c in ['a', 'b', 'c'] {
        process_key_event(&mut field, &mut text, &press_char(c));
    }
    assert_eq!(field.text, chars("abc"));
    assert_eq!(field.cursor_pos, 3);
    assert!(field.selection.is_none());
}

#[test]
fn delete_drains_the_selection() {
    // buffer "abcdef", selection covering "bcd"
    let mut field = active_field("abcdef", 0);
    field.selection = Some(TextSelection::new(1, 3));
    let mut text = Text::new();
    process_key_event(&mut field, &mut text, &press(FieldKey::Delete));

    assert_eq!(field.text, chars("aef"));
    assert_eq!(field.cursor_pos, 1);
    assert!(field.selection.is_none());
}

#[test]
fn control_a_selects_the_whole_buffer() {
    let mut field = active_field("text", 2);
    let mut text = Text::new();
    let ev = KeyEvent {
        pressed: true,
        key: FieldKey::KeyA,
        character: Some('a'),
        control: true,
        shift: false,
    };
    process_key_event(&mut field, &mut text, &ev);

    let sel = field.selection.expect("selection exists");
    assert_eq!(sel.start(), 0);
    assert_eq!(sel.length(), 4);
    assert_eq!(field.text, chars("text"));
}

#[test]
fn plain_a_inserts_the_character() {
    let mut field = active_field("xyz", 1);
    let mut text = Text::new();
    let ev = KeyEvent {
        pressed: true,
        key: FieldKey::KeyA,
        character: Some('a'),
        control: false,
        shift: false,
    };
    process_key_event(&mut field, &mut text, &ev);
    assert_eq!(field.text, chars("xayz"));
    assert_eq!(field.cursor_pos, 2);
}

#[test]
fn backspace_removes_the_previous_character() {
    let mut field = active_field("abc", 2);
    let mut text = Text::new();
    process_key_event(&mut field, &mut text, &press(FieldKey::Backspace));
    assert_eq!(field.text, chars("ac"));
    assert_eq!(field.cursor_pos, 1);
}

#[test]
fn enter_space_and_tab_insert_literals() {
    let mut field = active_field("", 0);
    let mut text = Text::new();
    process_key_event(&mut field, &mut text, &press(FieldKey::Enter));
    process_key_event(&mut field, &mut text, &press(FieldKey::Space));
    process_key_event(&mut field, &mut text, &press(FieldKey::Tab));
    assert_eq!(field.text, vec!['\n', ' ', '\t']);
}

#[test]
fn home_and_end_move_the_cursor() {
    let mut field = active_field("abcd", 2);
    let mut text = Text::new();
    process_key_event(&mut field, &mut text, &press(FieldKey::Home));
    assert_eq!(field.cursor_pos, 0);
    process_key_event(&mut field, &mut text, &press(FieldKey::End));
    assert_eq!(field.cursor_pos, 4);
    assert!(field.selection.is_none());
}

#[test]
fn shift_home_selects_to_the_start() {
    let mut field = active_field("abcd", 3);
    let mut text = Text::new();
    let mut ev = press(FieldKey::Home);
    ev.shift = true;
    process_key_event(&mut field, &mut text, &ev);
    let sel = field.selection.expect("selection exists");
    assert_eq!(sel.start(), 0);
    assert_eq!(sel.length(), 3);
    assert_eq!(field.cursor_pos, 0);
}

#[test]
fn shift_end_selects_to_the_end() {
    let mut field = active_field("abcd", 1);
    let mut text = Text::new();
    let mut ev = press(FieldKey::End);
    ev.shift = true;
    process_key_event(&mut field, &mut text, &ev);
    let sel = field.selection.expect("selection exists");
    assert_eq!(sel.start(), 1);
    assert_eq!(sel.length(), 3);
    assert_eq!(field.cursor_pos, 4);
}

#[test]
fn unshifted_home_keeps_an_existing_selection() {
    let mut field = active_field("abcd", 3);
    field.selection = Some(TextSelection::new(1, 2));
    let mut text = Text::new();
    process_key_event(&mut field, &mut text, &press(FieldKey::Home));
    let sel = field.selection.expect("selection kept");
    assert_eq!(sel.start(), 1);
    assert_eq!(sel.length(), 2);
    assert_eq!(field.cursor_pos, 0);
}

#[test]
fn inactive_fields_ignore_events() {
    let mut field = active_field("abc", 1);
    field.deactivate();
    let mut text = Text::new();
    process_key_event(&mut field, &mut text, &press_char('x'));
    assert_eq!(field.text, chars("abc"));
    assert_eq!(text.sections.len(), 0);
}

#[test]
fn release_events_are_ignored() {
    let mut field = active_field("abc", 1);
    let mut text = Text::new();
    let mut ev = press_char('x');
    ev.pressed = false;
    process_key_event(&mut field, &mut text, &ev);
    assert_eq!(field.text, chars("abc"));
    assert_eq!(text.sections.len(), 0);
}

#[test]
fn consumed_events_reset_the_blink_and_reproject() {
    let mut field = active_field("ab", 1);
    field.cursor_blink(streamline_ui::nodes::text_field::BLINK_PERIOD_NANOS);
    assert!(!field.cursor_blink);
    let mut text = Text::new();
    process_key_event(&mut field, &mut text, &press_char('x'));
    assert!(field.cursor_blink);
    assert_eq!(field.cursor_blink_timer.elapsed_nanos, 0);
    assert_eq!(text.sections.len(), 9);
    let joined: Vec<char> = text.sections.iter().flat_map(|s| s.value.clone()).collect();
    assert_eq!(joined, chars("ax|b"));
}

#[test]
fn arrow_at_the_boundary_still_resets_the_blink() {
    let mut field = active_field("ab", 0);
    field.cursor_blink(streamline_ui::nodes::text_field::BLINK_PERIOD_NANOS);
    assert!(!field.cursor_blink);
    let mut text = Text::new();
    process_key_event(&mut field, &mut text, &press(FieldKey::ArrowLeft));
    assert_eq!(field.cursor_pos, 0);
    assert!(field.cursor_blink);
    assert_eq!(text.sections.len(), 9);
}

#[test]
fn arrow_right_with_shift_anchors_behind_the_cursor() {
    let mut field = active_field("abc", 0);
    let mut text = Text::new();
    let mut ev = press(FieldKey::ArrowRight);
    ev.shift = true;
    process_key_event(&mut field, &mut text, &ev);
    let sel = field.selection.expect("selection exists");
    assert_eq!(sel.start(), 0);
    assert_eq!(sel.length(), 1);
    assert_eq!(field.cursor_pos, 1);
}

#[test]
fn batches_are_delivered_in_order() {
    let mut field = active_field("", 0);
    let mut text = Text::new();
    let events = vec![
        press_char('h'),
        press_char('i'),
        press(FieldKey::Backspace),
        press_char('o'),
        press_char('p'),
    ];
    handle_text_input(&mut field, &mut text, &events);
    assert_eq!(field.text, chars("hop"));
    assert_eq!(field.cursor_pos, 3);
    assert_eq!(text.sections.len(), 9);
}

#[test]
fn empty_batches_change_nothing() {
    let mut field = active_field("abc", 1);
    let mut text = Text::new();
    let events: Vec<KeyEvent> = Vec::new();
    handle_text_input(&mut field, &mut text, &events);
    assert_eq!(field.text, chars("abc"));
    assert_eq!(text.sections.len(), 0);
}

#[test]
fn admissibility_check_accepts_sane_states() {
    let field = active_field("abc", 1);
    assert!(accepts_key_events_check(&field));
    let mut with_selection = active_field("abc", 3);
    with_selection.selection = Some(TextSelection::new(1, 2));
    assert!(accepts_key_events_check(&with_selection));
}

#[test]
fn admissibility_check_rejects_corrupted_states() {
    // a selection reaching past the buffer cannot arise from the machine;
    // one written from outside is refused before any delivery
    let mut field = active_field("abc", 3);
    field.selection = Some(TextSelection::new(1, 3));
    assert!(!accepts_key_events_check(&field));
    let mut cursor_out = active_field("abc", 3);
    cursor_out.cursor_pos = 4;
    assert!(!accepts_key_events_check(&cursor_out));
}

#[test]
fn shift_end_caps_the_selection_at_the_buffer() {
    // buffer "ab", selection already covering "a": extending to the end
    // selects up to the buffer's end and no further
    let mut field = active_field("ab", 1);
    field.selection = Some(TextSelection::new(0, 1));
    let mut text = Text::new();
    let mut ev = press(FieldKey::End);
    ev.shift = true;
    process_key_event(&mut field, &mut text, &ev);
    let sel = field.selection.expect("selection exists");
    assert_eq!(sel.start(), 0);
    assert_eq!(sel.length(), 2);
    assert_eq!(field.cursor_pos, 2);
}

#[test]
fn shift_arrow_right_caps_the_selection_at_the_buffer() {
    let mut field = active_field("ab", 1);
    field.selection = Some(TextSelection::new(0, 1));
    let mut text = Text::new();
    let mut ev = press(FieldKey::ArrowRight);
    ev.shift = true;
    process_key_event(&mut field, &mut text, &ev);
    let sel = field.selection.expect("selection exists");
    assert_eq!(sel.start(), 0);
    assert_eq!(sel.length(), 2);
    assert_eq!(field.cursor_pos, 2);
    // the capped selection drains cleanly
    process_key_event(&mut field, &mut text, &press(FieldKey::Backspace));
    assert_eq!(field.text, chars(""));
    assert_eq!(field.cursor_pos, 0);
}

#[test]
fn rightward_extension_keeps_its_interior_overshoot() {
    // away from the buffer's end, extending rightward still includes the
    // character at the new cursor position, one past the covered range
    let mut field = active_field("abcd", 0);
    let mut text = Text::new();
    let mut ev = press(FieldKey::ArrowRight);
    ev.shift = true;
    process_key_event(&mut field, &mut text, &ev);
    process_key_event(&mut field, &mut text, &ev);
    let sel = field.selection.expect("selection exists");
    assert_eq!(sel.start(), 0);
    assert_eq!(sel.length(), 3);
    assert_eq!(field.cursor_pos, 2);
}
