//! The key-event state machine that drives text editing.
//!
//! The host's input backend delivers an ordered batch of key events, each
//! already decoded into a [`KeyEvent`]: press state, the dispatch key, the
//! literal character if the key produced one, and the modifier state at the
//! time of the event.  Only an active field consumes events, and only press
//! events; every consumed event that changes the field resets the cursor
//! blink and re-projects the field into its text runs.
//!
//! The machine preserves the editing model's invariant: starting from a
//! well-formed field — cursor inside the buffer, selection covering only
//! buffer positions — every dispatch leaves the field well-formed.  In
//! particular, a shift-extension that names the buffer-end position grows
//! the selection only up to the end of the buffer, never past it.

use vstd::prelude::*;

use crate::nodes::text_field::{
    drain_spec, include_spec, insert_spec, projected, remove_next_spec, remove_prev_spec,
    reset_blink_spec, run_texts, FieldModel, SelectionModel, TextField, TextSelection,
};
use crate::text::Text;

verus! {

/// The dispatch key of one keyboard event.
#[derive(Debug, Clone, Copy, PartialEq, Eq)]
pub enum FieldKey {
    /// The key that deletes backward.
    Backspace,
    /// The key that deletes forward.
    Delete,
    /// The left arrow key.
    ArrowLeft,
    /// The right arrow key.
    ArrowRight,
    /// The key that jumps to the start of the buffer.
    Home,
    /// The key that jumps to the end of the buffer.
    End,
    /// The key that inserts a line break.
    Enter,
    /// The key that inserts a space.
    Space,
    /// The key that inserts a tabulation.
    Tab,
    /// The letter-A key, which selects everything when control is held.
    KeyA,
    /// Any other key.
    Other,
}

/// One keyboard event, as the host's input backend delivers it.
#[derive(Debug, Clone, Copy)]
pub struct KeyEvent {
    /// Whether this is a press; release events are ignored.
    pub pressed: bool,
    /// The dispatch key.
    pub key: FieldKey,
    /// The literal character the key produced, if any.  It is consumed
    /// only when the dispatch above did not consume the event.
    pub character: Option<char>,
    /// Whether a control key was held.
    pub control: bool,
    /// Whether a shift key was held.
    pub shift: bool,
}

/// How a shift-extension grows a selection in a buffer of length `len`: it
/// widens per [`include_spec`] and is then capped at the buffer, because
/// position `len` holds no character.  The cap matters only when `index`
/// is the buffer-end position; for any interior position the widened
/// selection already lies within the buffer.
pub open spec fn include_within_spec(s: SelectionModel, index: int, len: int) -> SelectionModel {
    let grown = include_spec(s, index);
    if grown.end() > len {
        SelectionModel { start: grown.start, length: len - grown.start }
    } else {
        grown
    }
}

/// What the left arrow does: the cursor moves left, clamped at the start;
/// with shift held, the selection grows to include the character at the new
/// cursor position, or starts there one character wide.
pub open spec fn arrow_left_step(f: FieldModel, shift: bool) -> FieldModel {
    if f.cursor > 0 {
        let c = f.cursor - 1;
        if shift {
            match f.selection {
                Some(s) => FieldModel {
                    cursor: c,
                    selection: Some(include_within_spec(s, c, f.text.len() as int)),
                    ..f
                },
                None => FieldModel {
                    cursor: c,
                    selection: Some(SelectionModel { start: c, length: 1 }),
                    ..f
                },
            }
        } else {
            FieldModel { cursor: c, ..f }
        }
    } else {
        f
    }
}

/// What the right arrow does: the cursor moves right, clamped at the end;
/// with shift held, the selection grows to include the character at the new
/// cursor position — capped at the buffer when the cursor reaches its end —
/// or starts one character wide anchored at the position the cursor just
/// left.
pub open spec fn arrow_right_step(f: FieldModel, shift: bool) -> FieldModel {
    if f.cursor < f.text.len() {
        let c = f.cursor + 1;
        if shift {
            match f.selection {
                Some(s) => FieldModel {
                    cursor: c,
                    selection: Some(include_within_spec(s, c, f.text.len() as int)),
                    ..f
                },
                None => FieldModel {
                    cursor: c,
                    selection: Some(SelectionModel { start: c - 1, length: 1 }),
                    ..f
                },
            }
        } else {
            FieldModel { cursor: c, ..f }
        }
    } else {
        f
    }
}

/// What the home key does: with shift held, the selection grows to include
/// position zero, or covers everything before the cursor; then the cursor
/// jumps to the start.  Without shift an existing selection is left as it
/// is.
pub open spec fn home_step(f: FieldModel, shift: bool) -> FieldModel {
    if shift {
        match f.selection {
            Some(s) => FieldModel {
                cursor: 0,
                selection: Some(include_within_spec(s, 0, f.text.len() as int)),
                ..f
            },
            None => FieldModel {
                cursor: 0,
                selection: Some(SelectionModel { start: 0, length: f.cursor }),
                ..f
            },
        }
    } else {
        FieldModel { cursor: 0, ..f }
    }
}

/// What the end key does: with shift held, the selection grows to the end
/// of the buffer, or covers everything from the cursor on; then the cursor
/// jumps to the end.  Without shift an existing selection is left as it
/// is.
pub open spec fn end_step(f: FieldModel, shift: bool) -> FieldModel {
    let len = f.text.len() as int;
    if shift {
        match f.selection {
            Some(s) => FieldModel {
                cursor: len,
                selection: Some(include_within_spec(s, len, len)),
                ..f
            },
            None => FieldModel {
                cursor: len,
                selection: Some(SelectionModel { start: f.cursor, length: len - f.cursor }),
                ..f
            },
        }
    } else {
        FieldModel { cursor: len, ..f }
    }
}

/// What select-all does: the selection covers the whole buffer, replacing
/// any existing selection; cursor and text stay.
pub open spec fn select_all_step(f: FieldModel) -> FieldModel {
    FieldModel {
        selection: Some(SelectionModel { start: 0, length: f.text.len() as int }),
        ..f
    }
}

/// The state and dirtiness one dispatched key event produces, before any
/// blink reset: the named-key dispatch first, and the literal character —
/// drain the selection, insert the character — only when the dispatch did
/// not consume the event.
pub open spec fn key_event_result(f: FieldModel, ev: KeyEvent) -> (FieldModel, bool) {
    let named: Option<(FieldModel, bool)> = match ev.key {
        FieldKey::Backspace => Some(
            (
                if f.selection is Some {
                    drain_spec(f)
                } else {
                    remove_prev_spec(f)
                },
                true,
            ),
        ),
        FieldKey::Delete => Some(
            (
                if f.selection is Some {
                    drain_spec(f)
                } else {
                    remove_next_spec(f)
                },
                true,
            ),
        ),
        FieldKey::ArrowLeft => Some((arrow_left_step(f, ev.shift), true)),
        FieldKey::ArrowRight => Some((arrow_right_step(f, ev.shift), true)),
        FieldKey::Home => Some((home_step(f, ev.shift), true)),
        FieldKey::End => Some((end_step(f, ev.shift), true)),
        FieldKey::Enter => Some((insert_spec(f, '\n'), true)),
        FieldKey::Space => Some((insert_spec(f, ' '), true)),
        FieldKey::Tab => Some((insert_spec(f, '\t'), true)),
        FieldKey::KeyA => if ev.control {
            Some((select_all_step(f), true))
        } else {
            None
        },
        FieldKey::Other => None,
    };
    match named {
        Some(r) => r,
        None => match ev.character {
            Some(c) => (insert_spec(f, c), true),
            None => (f, false),
        },
    }
}

/// The field state one dispatched key event produces.
pub open spec fn key_event_step(f: FieldModel, ev: KeyEvent) -> FieldModel {
    key_event_result(f, ev).0
}

/// Whether one dispatched key event marks the field dirty, forcing a blink
/// reset and a re-projection.
pub open spec fn key_event_dirty(f: FieldModel, ev: KeyEvent) -> bool {
    key_event_result(f, ev).1
}

/// When a field can take any single key event: it is well-formed — cursor
/// inside the buffer, selection covering only buffer positions — and the
/// buffer is below the address-space limit, so an insertion has room.
pub open spec fn accepts_key_events(f: FieldModel) -> bool {
    f.wf() && f.text.len() < usize::MAX
}

/// Widens `sel` to include position `index`, capped at a buffer of length
/// `buf_len`: including the buffer-end position selects only up to the end
/// of the buffer.
fn include_within(sel: &mut TextSelection, index: usize, buf_len: usize)
    requires
        old(sel)@.start <= buf_len,
        old(sel)@.start + old(sel)@.length <= usize::MAX,
        index <= buf_len,
        buf_len < usize::MAX,
    ensures
        final(sel)@ == include_within_spec(old(sel)@, index as int, buf_len as int),
{
    sel.include_char_at(index);
    if sel.length > buf_len - sel.start {
        sel.length = buf_len - sel.start;
    }
}

impl TextField {
    /// Dispatches one key event against this field, mutating it as
    /// [`key_event_result`] describes, and returns whether the field is now
    /// dirty and needs a blink reset and a re-projection.  Press filtering
    /// and activity are the caller's concern.  A well-formed field stays
    /// well-formed, and the buffer grows by at most one character.
    pub fn apply_key_event(&mut self, ev: &KeyEvent) -> (dirty: bool)
        requires
            accepts_key_events(old(self)@),
        ensures
            final(self)@ == key_event_step(old(self)@, *ev),
            dirty == key_event_dirty(old(self)@, *ev),
            final(self)@.wf(),
            final(self)@.text.len() <= old(self)@.text.len() + 1,
    {
        let mut dirty = false;
        let mut handled = true;
        match ev.key {
            FieldKey::Backspace => {
                if self.selection.is_some() {
                    self.drain_selection();
                } else {
                    self.remove_previous_char();
                }
                dirty = true;
            }
            FieldKey::Delete => {
                if self.selection.is_some() {
                    self.drain_selection();
                } else {
                    self.remove_next_char();
                }
                dirty = true;
            }
            FieldKey::ArrowLeft => {
                if self.cursor_pos > 0 {
                    self.cursor_pos -= 1;
                    if ev.shift {
                        let cursor_pos = self.cursor_pos;
                        let buf_len = self.text.len();
                        match self.selection {
                            Some(mut selection) => {
                                include_within(&mut selection, cursor_pos, buf_len);
                                self.selection = Some(selection);
                            }
                            None => {
                                self.selection = Some(TextSelection::new(cursor_pos, 1));
                            }
                        }
                    }
                }
                dirty = true;
            }
            FieldKey::ArrowRight => {
                if self.cursor_pos < self.text.len() {
                    self.cursor_pos += 1;
                    if ev.shift {
                        let cursor_pos = self.cursor_pos;
                        let buf_len = self.text.len();
                        match self.selection {
                            Some(mut selection) => {
                                include_within(&mut selection, cursor_pos, buf_len);
                                self.selection = Some(selection);
                            }
                            None => {
                                self.selection = Some(TextSelection::new(cursor_pos - 1, 1));
                            }
                        }
                    }
                }
                dirty = true;
            }
            FieldKey::Home => {
                if ev.shift {
                    let buf_len = self.text.len();
                    match self.selection {
                        Some(mut selection) => {
                            include_within(&mut selection, 0, buf_len);
                            self.selection = Some(selection);
                        }
                        None => {
                            self.selection = Some(TextSelection::new(0, self.cursor_pos));
                        }
                    }
                }
                self.cursor_pos = 0;
                dirty = true;
            }
            FieldKey::End => {
                if ev.shift {
                    let buf_len = self.text.len();
                    match self.selection {
                        Some(mut selection) => {
                            include_within(&mut selection, buf_len, buf_len);
                            self.selection = Some(selection);
                        }
                        None => {
                            self.selection = Some(
                                TextSelection::new(self.cursor_pos, buf_len - self.cursor_pos),
                            );
                        }
                    }
                }
                self.cursor_pos = self.text.len();
                dirty = true;
            }
            FieldKey::Enter => {
                self.drain_selection();
                self.insert_char('\n');
                dirty = true;
            }
            FieldKey::Space => {
                self.drain_selection();
                self.insert_char(' ');
                dirty = true;
            }
            FieldKey::Tab => {
                self.drain_selection();
                self.insert_char('\t');
                dirty = true;
            }
            FieldKey::KeyA => {
                if ev.control {
                    self.selection = Some(TextSelection::new(0, self.text.len()));
                    dirty = true;
                } else {
                    handled = false;
                }
            }
            FieldKey::Other => {
                handled = false;
            }
        }
        if !handled {
            match ev.character {
                Some(c) => {
                    self.drain_selection();
                    self.insert_char(c);
                    dirty = true;
                }
                None => {}
            }
        }
        dirty
    }
}

/// The field state after one delivered event: an inactive field and a
/// release event change nothing; a consumed event that marked the field
/// dirty additionally has its cursor blink reset.
pub open spec fn processed_step(f: FieldModel, ev: KeyEvent) -> FieldModel {
    if !f.active || !ev.pressed {
        f
    } else if key_event_dirty(f, ev) {
        reset_blink_spec(key_event_step(f, ev))
    } else {
        key_event_step(f, ev)
    }
}

/// Delivers one key event to one field, as the per-tick input pass does:
/// only an active field consumes a press; when the dispatch marked the
/// field dirty, the cursor blink is reset and the field is re-projected
/// into its text runs.  A well-formed field stays well-formed.
pub fn process_key_event(field: &mut TextField, text: &mut Text, ev: &KeyEvent)
    requires
        accepts_key_events(old(field)@),
    ensures
        final(field)@ == processed_step(old(field)@, *ev),
        final(field)@.wf(),
        final(field)@.text.len() <= old(field)@.text.len() + 1,
        !(old(field)@.active && ev.pressed && key_event_dirty(old(field)@, *ev)) ==> *final(text)
            == *old(text),
        old(field)@.active && ev.pressed && key_event_dirty(old(field)@, *ev) ==> projected(
            final(field)@,
            old(text)@,
            final(text)@,
        ),
{
    if !field.active {
        return ;
    }
    if !ev.pressed {
        return ;
    }
    let dirty = field.apply_key_event(ev);
    if dirty {
        field.reset_cursor_blink();
        field.update_text(text);
    }
}

/// The field state after a whole batch of events, delivered in order.
pub open spec fn processed_all(f: FieldModel, evs: Seq<KeyEvent>) -> FieldModel
    decreases evs.len(),
{
    if evs.len() == 0 {
        f
    } else {
        processed_all(processed_step(f, evs[0]), evs.subrange(1, evs.len() as int))
    }
}

/// Whether any event of the batch marks the field dirty, so that the runs
/// are re-projected at least once.
pub open spec fn any_effect(f: FieldModel, evs: Seq<KeyEvent>) -> bool
    decreases evs.len(),
{
    if evs.len() == 0 {
        false
    } else {
        (f.active && evs[0].pressed && key_event_dirty(f, evs[0])) || any_effect(
            processed_step(f, evs[0]),
            evs.subrange(1, evs.len() as int),
        )
    }
}

/// Delivers a batch of key events to one field, in order, as the per-tick
/// input pass does.  The field must be well-formed, with room for the
/// batch's worst-case growth of one character per event; it is well-formed
/// again after the batch.  The field ends as the fold of
/// [`processed_step`]; the runs are untouched if no event marked the field
/// dirty, and otherwise hold the projection of the final field state.
pub fn handle_text_input(field: &mut TextField, text: &mut Text, events: &Vec<KeyEvent>)
    requires
        old(field)@.wf(),
        old(field)@.text.len() + events@.len() <= usize::MAX,
    ensures
        final(field)@ == processed_all(old(field)@, events@),
        final(field)@.wf(),
        !any_effect(old(field)@, events@) ==> *final(text) == *old(text),
        any_effect(old(field)@, events@) ==> final(text)@.sections.len() == 9 && (forall|i: int|
            0 <= i < 9 ==> #[trigger] final(text)@.sections[i].value == run_texts(final(field)@)[i]),
        final(text)@.justify == old(text)@.justify,
        final(text)@.linebreak == old(text)@.linebreak,
{
    let ghost f0 = field@;
    let ghost t0 = *text;
    let ghost mut seen: bool = false;
    let mut i: usize = 0;
    proof {
        assert(events@.subrange(0, events@.len() as int) =~= events@);
    }
    while i < events.len()
        invariant
            i <= events@.len(),
            field@.wf(),
            field@.text.len() <= f0.text.len() + i,
            f0.text.len() + events@.len() <= usize::MAX,
            processed_all(field@, events@.subrange(i as int, events@.len() as int))
                == processed_all(f0, events@),
            any_effect(f0, events@) == (seen || any_effect(
                field@,
                events@.subrange(i as int, events@.len() as int),
            )),
            !seen ==> *text == t0,
            seen ==> text@.sections.len() == 9 && (forall|j: int|
                0 <= j < 9 ==> #[trigger] text@.sections[j].value == run_texts(field@)[j]),
            text@.justify == t0@.justify,
            text@.linebreak == t0@.linebreak,
        decreases events@.len() - i,
    {
        let ghost rem = events@.subrange(i as int, events@.len() as int);
        let ghost f_pre = field@;
        let ev = events[i];
        proof {
            assert(rem[0] == events@[i as int]);
            assert(rem.subrange(1, rem.len() as int) =~= events@.subrange(
                i + 1,
                events@.len() as int,
            ));
        }
        process_key_event(field, text, &ev);
        proof {
            if f_pre.active && ev.pressed && key_event_dirty(f_pre, ev) {
                seen = true;
            }
        }
        i += 1;
    }
    proof {
        assert(events@.subrange(events@.len() as int, events@.len() as int)
            =~= Seq::<KeyEvent>::empty());
    }
}

/// Decides at run time whether a field can take key events, exactly per
/// [`accepts_key_events`].  A host loop checks this before delivering to a
/// field and treats a refusal — a corrupted editing state — as the
/// programming error it is.
pub fn accepts_key_events_check(field: &TextField) -> (b: bool)
    ensures
        b == accepts_key_events(field@),
{
    let cursor_ok = field.cursor_pos <= field.text.len();
    let len_ok = field.text.len() < usize::MAX;
    let sel_ok = match field.selection {
        Some(s) => s.length <= field.text.len() && s.start <= field.text.len() - s.length,
        None => true,
    };
    cursor_ok && len_ok && sel_ok
}

} // verus!
