//! The run-time state of an editable text field: the text buffer, cursor,
//! selection and cursor-blink state, the edit operations over them, and the
//! projector that renders the state into a fixed set of styled text runs.

use vstd::prelude::*;

use crate::assets::FontRef;
use crate::geometry::{Rgba, FLOAT_BITS_SIXTEEN};
use crate::text::{sections_model, SectionModel, Text, TextModel, TextSection, TextStyle};

verus! {

/// The cursor blink half-period, in nanoseconds.
pub const BLINK_PERIOD_NANOS: u64 = 500_000_000;

/// A contiguous region of selected text: the half-open range
/// `[start, start + length)` of buffer positions.
#[derive(Debug, Clone, Copy, PartialEq, Eq, Hash, Structural)]
pub struct TextSelection {
    /// The first selected buffer position.
    pub start: usize,
    /// The number of selected positions.
    pub length: usize,
}

/// The mathematical model of a [`TextSelection`].
pub ghost struct SelectionModel {
    /// The first selected buffer position.
    pub start: int,
    /// The number of selected positions.
    pub length: int,
}

impl View for TextSelection {
    type V = SelectionModel;

    open spec fn view(&self) -> SelectionModel {
        SelectionModel { start: self.start as int, length: self.length as int }
    }
}

impl SelectionModel {
    /// One past the last selected buffer position.
    pub open spec fn end(self) -> int {
        self.start + self.length
    }

    /// The selection lies within a buffer of length `buf_len`.
    pub open spec fn in_bounds(self, buf_len: int) -> bool {
        0 <= self.start && 0 <= self.length && self.start + self.length <= buf_len
    }
}

/// How [`TextSelection::include_char_at`] grows a selection: the covered
/// range widens just enough to take in the character at `index`; a position
/// already inside the selection leaves it unchanged.
pub open spec fn include_spec(s: SelectionModel, index: int) -> SelectionModel {
    let lo = if index < s.start { index } else { s.start };
    let hi = if index + 1 > s.end() { index + 1 } else { s.end() };
    SelectionModel { start: lo, length: hi - lo }
}

impl Default for TextSelection {
    fn default() -> (s: Self)
        ensures
            s@ == (SelectionModel { start: 0, length: 0 }),
    {
        TextSelection { start: 0, length: 0 }
    }
}

impl TextSelection {
    /// Creates a selection of `length` positions starting at `start`.
    pub fn new(start: usize, length: usize) -> (s: Self)
        ensures
            s@ == (SelectionModel { start: start as int, length: length as int }),
    {
        TextSelection { start, length }
    }

    /// Returns the first selected buffer position.
    pub fn start(&self) -> (r: usize)
        ensures
            r as int == self@.start,
    {
        self.start
    }

    /// Returns the number of selected positions.
    pub fn length(&self) -> (r: usize)
        ensures
            r as int == self@.length,
    {
        self.length
    }

    /// Returns one past the last selected buffer position.
    pub fn end(&self) -> (r: usize)
        requires
            self@.start + self@.length <= usize::MAX,
        ensures
            r as int == self@.end(),
    {
        self.start + self.length
    }

    /// Returns whether the selection covers no positions.
    pub fn is_empty(&self) -> (r: bool)
        ensures
            r == (self@.length == 0),
    {
        self.length == 0
    }

    /// Widens the selection to include the character at `index`.
    ///
    /// Growing leftward moves `start` to `index`; growing rightward extends
    /// the length so the covered range ends just past `index`; an `index`
    /// already inside the selection changes nothing.
    pub fn include_char_at(&mut self, index: usize)
        requires
            old(self)@.start + old(self)@.length <= usize::MAX,
            index < usize::MAX,
        ensures
            final(self)@ == include_spec(old(self)@, index as int),
    {
        if index < self.start {
            self.length += self.start - index;
            self.start = index;
        } else if index >= self.end() {
            self.length = index - self.start + 1;
        }
    }
}

/// The selection stays inside the buffer under [`include_spec`]: widening a
/// selection that lies within a buffer of length `buf_len` to include a
/// character position below `buf_len` yields a selection that still lies
/// within the buffer.  Applied step by step, any sequence of such calls
/// keeps `0 <= start <= start + length <= buf_len`.
pub proof fn lemma_include_char_at_in_bounds(s: SelectionModel, index: int, buf_len: int)
    requires
        s.in_bounds(buf_len),
        0 <= index < buf_len,
    ensures
        include_spec(s, index).in_bounds(buf_len),
{
}

/// The periodic timer that drives the cursor blink, in nanoseconds.
#[derive(Debug, Clone, Copy, PartialEq, Eq, Structural)]
pub struct BlinkTimer {
    /// Time accumulated since the period last completed.
    pub elapsed_nanos: u64,
    /// The timer's period.
    pub period_nanos: u64,
}

impl BlinkTimer {
    /// The timer's accumulated time stays below its (positive) period.
    pub open spec fn wf(self) -> bool {
        0 < self.period_nanos && self.elapsed_nanos < self.period_nanos
    }

    /// A fresh repeating timer with the given period.
    pub fn new(period_nanos: u64) -> (t: BlinkTimer)
        requires
            period_nanos > 0,
        ensures
            t == (BlinkTimer { elapsed_nanos: 0, period_nanos }),
            t.wf(),
    {
        BlinkTimer { elapsed_nanos: 0, period_nanos }
    }

    /// Rewinds the timer to the start of its period.
    pub fn reset(&mut self)
        ensures
            *final(self) == (BlinkTimer { elapsed_nanos: 0, ..*old(self) }),
    {
        self.elapsed_nanos = 0;
    }

    /// Advances the timer by `delta_nanos` and reports whether the
    /// period completed during this tick.  On completion the remainder past
    /// the period is kept, so the timer repeats.
    pub fn tick(&mut self, delta_nanos: u64) -> (finished: bool)
        requires
            old(self).wf(),
            delta_nanos <= u64::MAX - old(self).elapsed_nanos,
        ensures
            finished == (old(self).elapsed_nanos + delta_nanos >= old(self).period_nanos),
            final(self).period_nanos == old(self).period_nanos,
            final(self).elapsed_nanos as int == (old(self).elapsed_nanos + delta_nanos) % (old(self).period_nanos as int),
            final(self).wf(),
    {
        let total = self.elapsed_nanos + delta_nanos;
        if total >= self.period_nanos {
            self.elapsed_nanos = total % self.period_nanos;
            true
        } else {
            self.elapsed_nanos = total;
            proof {
                vstd::arithmetic::div_mod::lemma_small_mod(total as nat, self.period_nanos as nat);
            }
            false
        }
    }
}

/// The run-time state of one editable text field.
#[derive(Debug)]
pub struct TextField {
    /// The text currently in the field, as Unicode scalar values.
    pub text: Vec<char>,
    /// The cursor position, a buffer index in `0 ..= text.len()`.
    pub cursor_pos: usize,
    /// The timer that drives the cursor blink.
    pub cursor_blink_timer: BlinkTimer,
    /// Whether the cursor glyph is currently shown.
    pub cursor_blink: bool,
    /// Whether the field currently consumes key events.
    pub active: bool,
    /// The selected region of text, if any.
    pub selection: Option<TextSelection>,
    /// The font for the field's text.
    pub font: FontRef,
    /// The font size, as the host's 32-bit float bit pattern.
    pub font_size: u32,
    /// The text color.
    pub font_color: Rgba,
    /// Text shown while the field is empty, if any.
    pub placeholder_text: Option<String>,
    /// The color of the placeholder text.
    pub placeholder_color: Rgba,
}

/// The mathematical model of a [`TextField`].
pub ghost struct FieldModel {
    /// The buffer contents.
    pub text: Seq<char>,
    /// The cursor position.
    pub cursor: int,
    /// Time accumulated by the blink timer since its period last completed.
    pub blink_elapsed: int,
    /// The blink timer's period.
    pub blink_period: int,
    /// Whether the cursor glyph is currently shown.
    pub blink: bool,
    /// Whether the field consumes key events.
    pub active: bool,
    /// The selected region, if any.
    pub selection: Option<SelectionModel>,
    /// The font for the field's text.
    pub font: FontRef,
    /// The font size bit pattern.
    pub font_size: u32,
    /// The text color.
    pub font_color: Rgba,
    /// The placeholder text, if any.
    pub placeholder: Option<Seq<char>>,
    /// The placeholder color.
    pub placeholder_color: Rgba,
}

impl View for TextField {
    type V = FieldModel;

    open spec fn view(&self) -> FieldModel {
        FieldModel {
            text: self.text@,
            cursor: self.cursor_pos as int,
            blink_elapsed: self.cursor_blink_timer.elapsed_nanos as int,
            blink_period: self.cursor_blink_timer.period_nanos as int,
            blink: self.cursor_blink,
            active: self.active,
            selection: match self.selection {
                Some(s) => Some(s@),
                None => None,
            },
            font: self.font,
            font_size: self.font_size,
            font_color: self.font_color,
            placeholder: match &self.placeholder_text {
                Some(p) => Some(p@),
                None => None,
            },
            placeholder_color: self.placeholder_color,
        }
    }
}

impl FieldModel {
    /// The cursor lies within the buffer and the selection, if any, covers
    /// only buffer positions.
    pub open spec fn wf(self) -> bool {
        &&& 0 <= self.cursor <= self.text.len()
        &&& match self.selection {
            Some(s) => s.in_bounds(self.text.len() as int),
            None => true,
        }
    }
}

/// What [`TextField::drain_selection`] does: with a selection, the covered
/// range is removed from the buffer, the cursor moves to the selection's
/// start, and the selection is cleared; with none, nothing changes.
pub open spec fn drain_spec(f: FieldModel) -> FieldModel {
    match f.selection {
        Some(s) => FieldModel {
            text: f.text.subrange(0, s.start) + f.text.skip(s.end()),
            cursor: s.start,
            selection: None,
            ..f
        },
        None => f,
    }
}

/// What [`TextField::insert_char`] does: any selection is drained first,
/// then the character is inserted at the cursor and the cursor advances
/// past it.
pub open spec fn insert_spec(f: FieldModel, c: char) -> FieldModel {
    let d = drain_spec(f);
    FieldModel { text: d.text.insert(d.cursor, c), cursor: d.cursor + 1, ..d }
}

/// What [`TextField::remove_previous_char`] does: the character before the
/// cursor is removed and the cursor moves back, except at the start of the
/// buffer, where nothing changes.
pub open spec fn remove_prev_spec(f: FieldModel) -> FieldModel {
    if f.cursor > 0 {
        FieldModel { text: f.text.remove(f.cursor - 1), cursor: f.cursor - 1, ..f }
    } else {
        f
    }
}

/// What [`TextField::remove_next_char`] does: the character at the cursor
/// is removed and the cursor stays, except at the end of the buffer, where
/// nothing changes.
pub open spec fn remove_next_spec(f: FieldModel) -> FieldModel {
    if f.cursor < f.text.len() {
        FieldModel { text: f.text.remove(f.cursor), ..f }
    } else {
        f
    }
}

/// What [`TextField::reset_cursor_blink`] does: the blink timer rewinds and
/// the cursor glyph is forced on.
pub open spec fn reset_blink_spec(f: FieldModel) -> FieldModel {
    FieldModel { blink: true, blink_elapsed: 0, ..f }
}

/// The state a fresh [`TextField`] starts in: empty buffer, cursor at the
/// start, blink on, inactive, no selection, and default styling.
pub open spec fn default_field_spec() -> FieldModel {
    FieldModel {
        text: Seq::<char>::empty(),
        cursor: 0,
        blink_elapsed: 0,
        blink_period: BLINK_PERIOD_NANOS as int,
        blink: true,
        active: false,
        selection: None,
        font: FontRef::Unspecified,
        font_size: FLOAT_BITS_SIXTEEN,
        font_color: Rgba::black_spec(),
        placeholder: None,
        placeholder_color: Rgba::gray_spec(),
    }
}

impl Default for TextField {
    fn default() -> (f: Self)
        ensures
            f@ == default_field_spec(),
            f.cursor_blink_timer.wf(),
    {
        TextField {
            text: Vec::new(),
            cursor_pos: 0,
            cursor_blink_timer: BlinkTimer::new(BLINK_PERIOD_NANOS),
            cursor_blink: true,
            active: false,
            selection: None,
            font: FontRef::Unspecified,
            font_size: FLOAT_BITS_SIXTEEN,
            font_color: Rgba::black(),
            placeholder_text: None,
            placeholder_color: Rgba::gray(),
        }
    }
}

/// Removes `v[start .. end)`, keeping the rest in order.
fn remove_range(v: &mut Vec<char>, start: usize, end: usize)
    requires
        start <= end,
        end <= old(v)@.len(),
    ensures
        final(v)@ == old(v)@.subrange(0, start as int) + old(v)@.skip(end as int),
{
    let count = end - start;
    let mut i: usize = 0;
    while i < count
        invariant
            i <= count,
            start + count <= old(v)@.len(),
            v@ == old(v)@.subrange(0, start as int) + old(v)@.skip(start as int + i as int),
        decreases count - i,
    {
        v.remove(start);
        i += 1;
        proof {
            assert(v@ =~= old(v)@.subrange(0, start as int) + old(v)@.skip(start as int + i as int));
        }
    }
    proof {
        assert(v@ =~= old(v)@.subrange(0, start as int) + old(v)@.skip(end as int));
    }
}

impl TextField {
    /// Rewinds the blink timer and forces the cursor glyph on, so the
    /// cursor is visible immediately after any edit.
    pub fn reset_cursor_blink(&mut self)
        ensures
            final(self)@ == reset_blink_spec(old(self)@),
    {
        self.cursor_blink_timer.reset();
        self.cursor_blink = true;
    }

    /// Marks this field active and resets the cursor blink.
    pub fn activate(&mut self)
        ensures
            final(self)@ == reset_blink_spec(FieldModel { active: true, ..old(self)@ }),
    {
        self.active = true;
        self.reset_cursor_blink();
    }

    /// Marks this field inactive.
    pub fn deactivate(&mut self)
        ensures
            final(self)@ == (FieldModel { active: false, ..old(self)@ }),
    {
        self.active = false;
    }

    /// Advances the blink timer by `delta_nanos` of elapsed time; when the
    /// half-period completes, the cursor glyph toggles.  Returns whether a
    /// toggle happened, which signals that the field needs re-rendering.
    pub fn cursor_blink(&mut self, delta_nanos: u64) -> (changed: bool)
        requires
            old(self).cursor_blink_timer.wf(),
            delta_nanos <= u64::MAX - old(self).cursor_blink_timer.elapsed_nanos,
        ensures
            changed == (old(self)@.blink_elapsed + delta_nanos >= old(self)@.blink_period),
            final(self)@ == (FieldModel {
                blink: if changed { !old(self)@.blink } else { old(self)@.blink },
                blink_elapsed: (old(self)@.blink_elapsed + delta_nanos) % old(self)@.blink_period,
                ..old(self)@
            }),
            final(self).cursor_blink_timer.wf(),
    {
        if self.cursor_blink_timer.tick(delta_nanos) {
            self.cursor_blink = !self.cursor_blink;
            true
        } else {
            false
        }
    }

    /// Removes the selected text, if any: the covered characters leave the
    /// buffer, the cursor moves to the selection's start, and the selection
    /// is cleared.  Without a selection this is a no-op.
    pub fn drain_selection(&mut self)
        requires
            old(self)@.selection matches Some(s) ==> s.end() <= old(self)@.text.len(),
        ensures
            final(self)@ == drain_spec(old(self)@),
    {
        match self.selection {
            Some(sel) => {
                proof {
                    assert(old(self)@.selection == Some(sel@));
                    assert(self.text.len() == self.text@.len());
                }
                let start = sel.start;
                let end = sel.start + sel.length;
                remove_range(&mut self.text, start, end);
                self.cursor_pos = start;
                self.selection = None;
            }
            None => {}
        }
    }

    /// Inserts `c` at the cursor as if the user typed it: a selection, if
    /// present, is replaced by the new character; the cursor ends just past
    /// the insertion.
    pub fn insert_char(&mut self, c: char)
        requires
            old(self)@.wf(),
            old(self)@.text.len() < usize::MAX,
        ensures
            final(self)@ == insert_spec(old(self)@, c),
    {
        self.drain_selection();
        self.text.insert(self.cursor_pos, c);
        self.cursor_pos += 1;
    }

    /// Removes the character before the cursor; at the start of the buffer
    /// nothing changes.  The selection is not consulted: callers drain a
    /// selection instead when one exists.
    pub fn remove_previous_char(&mut self)
        requires
            old(self)@.cursor <= old(self)@.text.len(),
        ensures
            final(self)@ == remove_prev_spec(old(self)@),
    {
        if self.cursor_pos > 0 {
            self.text.remove(self.cursor_pos - 1);
            self.cursor_pos -= 1;
        }
    }

    /// Removes the character at the cursor; at the end of the buffer
    /// nothing changes.
    pub fn remove_next_char(&mut self)
        ensures
            final(self)@ == remove_next_spec(old(self)@),
    {
        if self.cursor_pos < self.text.len() {
            self.text.remove(self.cursor_pos);
        }
    }
}

/// The characters of the cursor run: the cursor glyph while the blink phase
/// is on, nothing while it is off.
pub open spec fn cursor_glyph(blink: bool) -> Seq<char> {
    if blink {
        seq!['|']
    } else {
        Seq::<char>::empty()
    }
}

/// `count` characters of `s` starting at `start`, clamped to the available
/// range: an out-of-range start yields nothing and an oversized count stops
/// at the end of `s`.
pub open spec fn clamped_slice(s: Seq<char>, start: int, count: int) -> Seq<char> {
    let lo = if start < 0 {
        0
    } else if start > s.len() {
        s.len() as int
    } else {
        start
    };
    let n = if count < 0 {
        0
    } else if count > s.len() - lo {
        s.len() - lo
    } else {
        count
    };
    s.subrange(lo, lo + n)
}

/// The text content of the nine runs the projector produces, by fixed
/// index: runs 0 to 2 are the text before the selection split around the
/// cursor, runs 3 to 5 the selected text split around the cursor, runs 6
/// to 8 the text after the selection split around the cursor.  The cursor
/// is classified as before the selection when it sits at or before the
/// selection's start, inside it up to just before its end, and after it
/// otherwise.  Only the three runs of the zone holding the cursor are
/// populated together; runs of the other zones hold their plain slices or
/// stay empty.
pub open spec fn run_texts(f: FieldModel) -> Seq<Seq<char>> {
    let len = f.text.len() as int;
    let glyph = cursor_glyph(f.blink);
    let e = Seq::<char>::empty();
    match f.selection {
        None => seq![
            clamped_slice(f.text, 0, f.cursor),
            glyph,
            clamped_slice(f.text, f.cursor, len),
            e, e, e, e, e, e,
        ],
        Some(s) => if f.cursor <= s.start {
            seq![
                clamped_slice(f.text, 0, f.cursor),
                glyph,
                clamped_slice(f.text, f.cursor, s.start - f.cursor),
                clamped_slice(f.text, s.start, s.length),
                e, e,
                clamped_slice(f.text, s.end(), len),
                e, e,
            ]
        } else if f.cursor < s.end() {
            seq![
                clamped_slice(f.text, 0, s.start),
                e, e,
                clamped_slice(f.text, s.start, f.cursor - s.start),
                glyph,
                clamped_slice(f.text, f.cursor, s.end() - f.cursor),
                clamped_slice(f.text, s.end(), len),
                e, e,
            ]
        } else {
            seq![
                clamped_slice(f.text, 0, s.start),
                e, e,
                clamped_slice(f.text, s.start, s.length),
                e, e,
                clamped_slice(f.text, s.end(), f.cursor - s.end()),
                glyph,
                clamped_slice(f.text, f.cursor, len),
            ]
        },
    }
}

/// The fixed styles of the nine runs: plain field styling for the
/// unselected runs, the built-in cursor face for the cursor runs, and the
/// selection-highlight color for the selected runs.
pub open spec fn run_styles(f: FieldModel) -> Seq<TextStyle> {
    let normal = TextStyle { font: f.font, font_size: f.font_size, color: f.font_color };
    let cursor = TextStyle { font: FontRef::BuiltinCursor, font_size: f.font_size, color: f.font_color };
    let selected = TextStyle { font: f.font, font_size: f.font_size, color: Rgba::blue_spec() };
    seq![normal, cursor, normal, selected, cursor, selected, normal, cursor, normal]
}

/// The nine freshly initialized runs: empty text under the fixed styles.
pub open spec fn fresh_runs(f: FieldModel) -> Seq<SectionModel> {
    Seq::new(9, |i: int| SectionModel { value: Seq::<char>::empty(), style: run_styles(f)[i] })
}

/// `post` is `pre` re-projected from field state `f`: nine runs whose text
/// is [`run_texts`]`(f)`, with the styles `pre` already had if it had its
/// nine runs — ordinary updates never touch styles — and the fixed styles
/// of [`run_styles`] otherwise; block-level layout settings unchanged.
pub open spec fn projected(f: FieldModel, pre: TextModel, post: TextModel) -> bool {
    &&& post.sections.len() == 9
    &&& forall|i: int| 0 <= i < 9 ==> #[trigger] post.sections[i].value == run_texts(f)[i]
    &&& pre.sections.len() == 9 ==> forall|i: int|
        0 <= i < 9 ==> #[trigger] post.sections[i].style == pre.sections[i].style
    &&& pre.sections.len() != 9 ==> forall|i: int|
        0 <= i < 9 ==> #[trigger] post.sections[i].style == run_styles(f)[i]
    &&& post.justify == pre.justify
    &&& post.linebreak == pre.linebreak
}

/// Copies `count` characters of `v` starting at `start` into a new vector,
/// clamped to the available range.
fn slice_chars(v: &Vec<char>, start: usize, count: usize) -> (r: Vec<char>)
    ensures
        r@ == clamped_slice(v@, start as int, count as int),
{
    let len = v.len();
    let lo = if start > len {
        len
    } else {
        start
    };
    let n = if count > len - lo {
        len - lo
    } else {
        count
    };
    let hi = lo + n;
    let mut r: Vec<char> = Vec::new();
    let mut i = lo;
    while i < hi
        invariant
            lo <= i <= hi,
            hi == lo + n,
            hi <= v@.len(),
            r@ == v@.subrange(lo as int, i as int),
        decreases hi - i,
    {
        r.push(v[i]);
        i += 1;
        proof {
            assert(r@ =~= v@.subrange(lo as int, i as int));
        }
    }
    proof {
        assert(r@ =~= clamped_slice(v@, start as int, count as int));
    }
    r
}

/// Overwrites the text of run `i`, keeping its style and every other run.
fn set_run(text: &mut Text, i: usize, value: Vec<char>)
    requires
        i < old(text).sections@.len(),
    ensures
        final(text).sections@.len() == old(text).sections@.len(),
        final(text).sections@[i as int]@.value == value@,
        final(text).sections@[i as int]@.style == old(text).sections@[i as int]@.style,
        forall|j: int|
            0 <= j < old(text).sections@.len() && j != i ==> final(text).sections@[j]
                == old(text).sections@[j],
        final(text).justify == old(text).justify,
        final(text).linebreak == old(text).linebreak,
{
    let style = text.sections[i].style;
    text.sections.set(i, TextSection { value, style });
}

impl TextField {
    /// Gives `text` its nine runs: empty content, with the styles of
    /// [`run_styles`] fixed at initialization.  A block that already has
    /// nine runs is left alone, so ordinary updates never reallocate the
    /// styles; passing `force` rebuilds them, for when the field's font or
    /// size changed.
    pub fn initialize_text_sections(&self, text: &mut Text, force: bool)
        ensures
            !force && old(text).sections@.len() == 9 ==> *final(text) == *old(text),
            force || old(text).sections@.len() != 9 ==> sections_model(final(text).sections@)
                == fresh_runs(self@),
            final(text).sections@.len() == 9 || final(text).sections@.len() == old(
                text,
            ).sections@.len(),
            final(text).justify == old(text).justify,
            final(text).linebreak == old(text).linebreak,
    {
        if !force && text.sections.len() == 9 {
            return ;
        }
        let normal = TextStyle { font: self.font, font_size: self.font_size, color: self.font_color };
        let cursor = TextStyle {
            font: FontRef::BuiltinCursor,
            font_size: self.font_size,
            color: self.font_color,
        };
        let selected = TextStyle { font: self.font, font_size: self.font_size, color: Rgba::blue() };
        let mut sections: Vec<TextSection> = Vec::new();
        sections.push(TextSection::empty(normal));
        sections.push(TextSection::empty(cursor));
        sections.push(TextSection::empty(normal));
        sections.push(TextSection::empty(selected));
        sections.push(TextSection::empty(cursor));
        sections.push(TextSection::empty(selected));
        sections.push(TextSection::empty(normal));
        sections.push(TextSection::empty(cursor));
        sections.push(TextSection::empty(normal));
        text.sections = sections;
        proof {
            assert(sections_model(text.sections@) =~= fresh_runs(self@));
        }
    }

    /// Empties the text of every run, keeping each run's style.
    fn clear_sections(&self, text: &mut Text)
        ensures
            final(text).sections@.len() == old(text).sections@.len(),
            forall|j: int|
                0 <= j < old(text).sections@.len() ==> #[trigger] final(text).sections@[j]@.value
                    == Seq::<char>::empty(),
            forall|j: int|
                0 <= j < old(text).sections@.len() ==> #[trigger] final(text).sections@[j]@.style
                    == old(text).sections@[j]@.style,
            final(text).justify == old(text).justify,
            final(text).linebreak == old(text).linebreak,
    {
        let mut i: usize = 0;
        while i < text.sections.len()
            invariant
                i <= text.sections@.len(),
                text.sections@.len() == old(text).sections@.len(),
                forall|j: int|
                    0 <= j < i ==> #[trigger] text.sections@[j]@.value == Seq::<char>::empty(),
                forall|j: int|
                    0 <= j < text.sections@.len() ==> #[trigger] text.sections@[j]@.style == old(
                        text,
                    ).sections@[j]@.style,
                text.justify == old(text).justify,
                text.linebreak == old(text).linebreak,
            decreases text.sections@.len() - i,
        {
            let style = text.sections[i].style;
            proof {
                assert(style == text.sections@[i as int]@.style);
            }
            text.sections.set(i, TextSection { value: Vec::new(), style });
            i += 1;
        }
    }

    /// Projects the field's state into the nine runs of `text`: the buffer
    /// is split around the selection and the cursor as [`run_texts`]
    /// describes, and the cursor run shows the glyph only while the blink
    /// phase is on.  Styles are not touched on a block that already had its
    /// nine runs; a block without them is initialized first.
    pub fn update_text(&self, text: &mut Text)
        requires
            self@.selection matches Some(s) ==> s.start + s.length <= usize::MAX && 0 <= s.start,
        ensures
            projected(self@, old(text)@, final(text)@),
    {
        self.initialize_text_sections(text, false);
        proof {
            if old(text).sections@.len() != 9 {
                assert(sections_model(text.sections@).len() == text.sections@.len());
                assert(forall|i: int|
                    0 <= i < 9 ==> #[trigger] text.sections@[i]@.style == fresh_runs(self@)[i].style);
                assert(forall|i: int|
                    0 <= i < 9 ==> #[trigger] text.sections@[i]@.style == run_styles(self@)[i]);
            }
            assert(text.sections@.len() == 9);
        }
        self.clear_sections(text);
        let mut cursor_run: Vec<char> = Vec::new();
        if self.cursor_blink {
            cursor_run.push('|');
        }
        proof {
            assert(cursor_run@ =~= cursor_glyph(self@.blink));
        }
        let len = self.text.len();
        match self.selection {
            Some(sel) => {
                proof {
                    assert(self@.selection == Some(sel@));
                }
                let sel_start = sel.start;
                let sel_end = sel.start + sel.length;
                if self.cursor_pos <= sel_start {
                    set_run(text, 0, slice_chars(&self.text, 0, self.cursor_pos));
                    set_run(text, 1, cursor_run);
                    set_run(text, 2, slice_chars(&self.text, self.cursor_pos, sel_start - self.cursor_pos));
                    set_run(text, 3, slice_chars(&self.text, sel_start, sel.length));
                    set_run(text, 6, slice_chars(&self.text, sel_end, len));
                } else if self.cursor_pos < sel_end {
                    set_run(text, 0, slice_chars(&self.text, 0, sel_start));
                    set_run(text, 3, slice_chars(&self.text, sel_start, self.cursor_pos - sel_start));
                    set_run(text, 4, cursor_run);
                    set_run(text, 5, slice_chars(&self.text, self.cursor_pos, sel_end - self.cursor_pos));
                    set_run(text, 6, slice_chars(&self.text, sel_end, len));
                } else {
                    set_run(text, 0, slice_chars(&self.text, 0, sel_start));
                    set_run(text, 3, slice_chars(&self.text, sel_start, sel.length));
                    set_run(text, 6, slice_chars(&self.text, sel_end, self.cursor_pos - sel_end));
                    set_run(text, 7, cursor_run);
                    set_run(text, 8, slice_chars(&self.text, self.cursor_pos, len));
                }
            }
            None => {
                set_run(text, 0, slice_chars(&self.text, 0, self.cursor_pos));
                set_run(text, 1, cursor_run);
                set_run(text, 2, slice_chars(&self.text, self.cursor_pos, len));
            }
        }
    }
}

/// Draining always clears the selection, so a later emptiness check on the
/// selection state always passes; and draining with no selection present
/// changes nothing, buffer and cursor included.
pub proof fn lemma_drain_selection_clears(f: FieldModel)
    ensures
        drain_spec(f).selection is None,
        f.selection is None ==> drain_spec(f) == f,
{
}

/// Round trip: inserting a character and then removing the previous
/// character restores the prior buffer and cursor position exactly, for any
/// character and any well-formed state with no selection.
pub proof fn lemma_insert_then_remove_previous(f: FieldModel, c: char)
    requires
        f.wf(),
        f.selection is None,
    ensures
        remove_prev_spec(insert_spec(f, c)) == f,
{
    let mid = insert_spec(f, c);
    assert(mid.text.remove(f.cursor) =~= f.text);
}

} // verus!
