//! The editor: it owns the selection and the layout cache, and applies an
//! edit action to the caller's text only where that text is the one it last
//! saw.

use crate::action::{EditAction, MouseAction};
use crate::boundary::{
    clamp, clamp_offset, forward_while, in_class, is_boundary, lemma_forward_while,
    lemma_next_boundary, lemma_prev_boundary, lemma_valid_utf8_well_formed, next_boundary,
    prev_boundary, well_formed, ByteClass,
};
use crate::input::{bound_action, typed_text, BasicTextInput, KeyEvent};
use crate::layout::{mark, DirtyReason, LayoutState, TextLayout, UNBOUNDED_WIDTH};
use crate::movement::{lemma_target_on_boundary, movement, resolve, Movement};
use crate::selection::Selection;
use crate::storage::{splice, ByteText, EditableText};
use vstd::prelude::*;
use vstd::slice::slice_subrange;
use vstd::string::StringSliceAdditionalSpecFns;
use vstd::utf8::{encode_utf8, encode_utf8_valid_utf8};

verus! {

/// The part of `text` before its first line feed.
pub open spec fn first_line(text: Seq<u8>) -> Seq<u8> {
    text.subrange(0, forward_while(text, 0, ByteClass::WithinLine))
}

/// What is inserted when `text` is typed or pasted: all of it in a
/// multi-line editor, its first line otherwise.
pub open spec fn inserted(text: Seq<u8>, multi_line: bool) -> Seq<u8> {
    if multi_line {
        text
    } else {
        first_line(text)
    }
}

/// `sel` with each offset clamped to the length of `s`.
pub open spec fn clamp_selection(sel: Selection, s: Seq<u8>) -> Selection {
    Selection { anchor: clamp(s, sel.anchor as int) as usize, end: clamp(s, sel.end as int) as usize }
}

/// A caret at `offset`.
pub open spec fn caret_at(offset: int) -> Selection {
    Selection { anchor: offset as usize, end: offset as usize }
}

/// The first line of a text is the text up to its first line feed: it is
/// a prefix of the text, holds no line feed, and ends at a line feed or at
/// the end of the text. A text without a line feed is its own first line.
pub proof fn lemma_first_line(text: Seq<u8>)
    ensures
        first_line(text).len() <= text.len(),
        first_line(text) == text.subrange(0, first_line(text).len() as int),
        forall|i: int| 0 <= i < first_line(text).len() ==> #[trigger] first_line(text)[i] != 10,
        first_line(text).len() < text.len() ==> text[first_line(text).len() as int] == 10,
        (forall|i: int| 0 <= i < text.len() ==> #[trigger] text[i] != 10) ==> first_line(text)
            == text,
{
    lemma_forward_while(text, 0, ByteClass::WithinLine);
    let n = forward_while(text, 0, ByteClass::WithinLine);
    assert forall|i: int| 0 <= i < first_line(text).len() implies #[trigger] first_line(text)[i]
        != 10 by {
        assert(first_line(text)[i] == text[i]);
        assert(in_class(text[i], ByteClass::WithinLine));
    }
    if forall|i: int| 0 <= i < text.len() ==> #[trigger] text[i] != 10 {
        assert(first_line(text) =~= text);
    }
}

/// In a single-line editor an insertion adds no line feed: what replaces the
/// selected range is the first line of the text, and the caret stands
/// behind it.
pub proof fn lemma_single_line_insert(s: Seq<u8>, sel: Selection, text: Seq<u8>)
    ensures
        ({
            let c = clamp_selection(sel, s);
            let p = first_line(text);
            let r = insert_result(s, sel, text, false);
            &&& r.0 == s.subrange(0, c.spec_min() as int) + p + s.subrange(
                c.spec_max() as int,
                s.len() as int,
            )
            &&& r.0.len() == s.len() - (c.spec_max() - c.spec_min()) + p.len()
            &&& r.1 == caret_at(c.spec_min() + p.len())
            &&& forall|i: int| 0 <= i < p.len() ==> #[trigger] p[i] != 10
        }),
{
    lemma_first_line(text);
}

/// Text and selection after `text` is inserted: it replaces the selected
/// range, and the caret stands behind it.
pub open spec fn insert_result(s: Seq<u8>, sel: Selection, text: Seq<u8>, multi_line: bool) -> (
    Seq<u8>,
    Selection,
) {
    let c = clamp_selection(sel, s);
    let t = inserted(text, multi_line);
    (splice(s, c.spec_min() as int, c.spec_max() as int, t), caret_at(c.spec_min() + t.len()))
}

/// Text and selection after a backward delete: a caret removes the text
/// element before it, a range removes itself; the caret stands where the
/// removed bytes began.
pub open spec fn delete_backward_result<T: EditableText>(s: Seq<u8>, sel: Selection) -> (Seq<u8>, Selection) {
    let c = clamp_selection(sel, s);
    let start = if c.spec_is_caret() {
        prev_boundary::<T>(s, c.end as int)
    } else {
        c.spec_min() as int
    };
    (splice(s, start, c.spec_max() as int, Seq::empty()), caret_at(start))
}

/// Text and selection after a forward delete: a caret removes the text
/// element after it, a range removes itself; the caret stands where the
/// removed bytes began.
pub open spec fn delete_forward_result<T: EditableText>(s: Seq<u8>, sel: Selection) -> (Seq<u8>, Selection) {
    let c = clamp_selection(sel, s);
    let stop = if c.spec_is_caret() {
        next_boundary::<T>(s, c.end as int)
    } else {
        c.spec_max() as int
    };
    (splice(s, c.spec_min() as int, stop, Seq::empty()), caret_at(c.spec_min() as int))
}

/// Text and selection after a delete by movement: a caret removes what the
/// movement would select, a range removes itself and ignores the movement.
pub open spec fn jump_delete_result<T: EditableText>(s: Seq<u8>, sel: Selection, m: Movement) -> (
    Seq<u8>,
    Selection,
) {
    let c = clamp_selection(sel, s);
    let d = if c.spec_is_caret() {
        resolve::<T>(m, c, s, true)
    } else {
        c
    };
    (splice(s, d.spec_min() as int, d.spec_max() as int, Seq::empty()), caret_at(d.spec_min() as int))
}

/// The selection after a click: with shift the active end goes to the
/// position, without it the selection becomes a caret there.
pub open spec fn click_result(s: Seq<u8>, sel: Selection, a: MouseAction) -> Selection {
    let c = clamp_selection(sel, s);
    let column = clamp(s, a.column as int);
    if a.shift {
        Selection { anchor: c.anchor, end: column as usize }
    } else {
        caret_at(column)
    }
}

/// The selection after a drag: the active end goes to the position.
pub open spec fn drag_result(s: Seq<u8>, sel: Selection, a: MouseAction) -> Selection {
    let c = clamp_selection(sel, s);
    Selection { anchor: c.anchor, end: clamp(s, a.column as int) as usize }
}

/// Text and selection after `edit` is applied to text `s` with selection
/// `sel`, which is first clamped to the text.
pub open spec fn edit_result<T: EditableText>(edit: EditAction, s: Seq<u8>, sel: Selection, multi_line: bool) -> (
    Seq<u8>,
    Selection,
) {
    match edit {
        EditAction::Insert(chars) => insert_result(s, sel, encode_utf8(chars@), multi_line),
        EditAction::Paste(chars) => insert_result(s, sel, encode_utf8(chars@), multi_line),
        EditAction::Backspace => delete_backward_result::<T>(s, sel),
        EditAction::Delete => delete_forward_result::<T>(s, sel),
        EditAction::JumpDelete(m) => jump_delete_result::<T>(s, sel, m),
        EditAction::JumpBackspace(m) => jump_delete_result::<T>(s, sel, m),
        EditAction::Move(m) => (s, resolve::<T>(m, clamp_selection(sel, s), s, false)),
        EditAction::ModifySelection(m) => (s, resolve::<T>(m, clamp_selection(sel, s), s, true)),
        EditAction::Click(a) => (s, click_result(s, sel, a)),
        EditAction::Drag(a) => (s, drag_result(s, sel, a)),
    }
}

/// What is put on the clipboard for selection `sel` of the cached text:
/// the selected bytes, or nothing where there is no text, the selection is
/// no range of it, or it is empty.
pub open spec fn clipboard_text(cached: Option<Seq<u8>>, sel: Selection) -> Option<Seq<u8>> {
    match cached {
        Some(s) => if sel.spec_min() < sel.spec_max() && sel.spec_max() <= s.len() {
            Some(s.subrange(sel.spec_min() as int, sel.spec_max() as int))
        } else {
            None
        },
        None => None,
    }
}

/// In any buffer: typing one byte at a caret within the text and then
/// deleting backward gives back the text and the caret, where the buffer has
/// a boundary before the typed byte. In a single-line editor the byte must
/// not be a line feed, which is not inserted at all.
pub proof fn lemma_insert_then_backspace_in<T: EditableText>(
    s: Seq<u8>,
    sel: Selection,
    b: u8,
    multi_line: bool,
)
    requires
        s.len() < usize::MAX,
        sel.spec_is_caret(),
        sel.end <= s.len(),
        multi_line || b != 10,
        is_boundary::<T>(insert_result(s, sel, seq![b], multi_line).0, sel.end as int),
    ensures
        ({
            let typed = insert_result(s, sel, seq![b], multi_line);
            delete_backward_result::<T>(typed.0, typed.1) == (s, sel)
        }),
{
    let text = seq![b];
    reveal_with_fuel(forward_while, 3);
    assert(inserted(text, multi_line) =~= text);
    let typed = insert_result(s, sel, text, multi_line);
    let c = sel.end as int;
    assert(typed.0.len() == s.len() + 1);
    assert(typed.1 == caret_at(c + 1));
    assert(prev_boundary::<T>(typed.0, c + 1) == c);
    assert(splice(typed.0, c, c + 1, Seq::empty()) =~= s);
}

/// Typing one ASCII character at a caret within a `ByteText` and then
/// deleting backward gives back the text and the caret. In a single-line
/// editor the character must not be a line feed, which is not inserted at
/// all.
pub proof fn lemma_insert_then_backspace(s: Seq<u8>, sel: Selection, b: u8, multi_line: bool)
    requires
        s.len() < usize::MAX,
        sel.spec_is_caret(),
        sel.end <= s.len(),
        b < 0x80,
        multi_line || b != 10,
    ensures
        ({
            let typed = insert_result(s, sel, seq![b], multi_line);
            delete_backward_result::<ByteText>(typed.0, typed.1) == (s, sel)
        }),
{
    let text = seq![b];
    reveal_with_fuel(forward_while, 3);
    assert(inserted(text, multi_line) =~= text);
    let typed = insert_result(s, sel, text, multi_line);
    let c = sel.end as int;
    assert(typed.0.len() == s.len() + 1);
    assert(typed.0[c] == b);
    assert(is_boundary::<ByteText>(typed.0, c));
    lemma_insert_then_backspace_in::<ByteText>(s, sel, b, multi_line);
}

/// Text and selection after a key press: the typed text is inserted, or
/// the action bound to the key is applied; a key that is not bound changes
/// nothing.
pub open spec fn key_result<T: EditableText>(event: KeyEvent, s: Seq<u8>, sel: Selection, multi_line: bool) -> (
    Seq<u8>,
    Selection,
) {
    match typed_text(event) {
        Some(chars) => insert_result(s, sel, encode_utf8(chars), multi_line),
        None => match bound_action(event) {
            Some(edit) => edit_result::<T>(edit, s, sel, multi_line),
            None => (s, sel),
        },
    }
}

/// The range to highlight for selection `sel` of the cached text: the
/// selected range with both ends clamped to the text.
pub open spec fn visible_range(cached: Option<Seq<u8>>, sel: Selection) -> Option<(usize, usize)> {
    match cached {
        Some(s) => Some(
            (clamp_selection(sel, s).spec_min(), clamp_selection(sel, s).spec_max()),
        ),
        None => None,
    }
}

/// The offset of the cursor line for selection `sel` of the cached text: the
/// active end, clamped to the text.
pub open spec fn visible_cursor(cached: Option<Seq<u8>>, sel: Selection) -> Option<usize> {
    match cached {
        Some(s) => Some(clamp_selection(sel, s).end),
        None => None,
    }
}

/// Whether both ends of `sel` stand on boundaries of `s`.
pub open spec fn on_boundaries<T: EditableText>(sel: Selection, s: Seq<u8>) -> bool {
    is_boundary::<T>(s, sel.anchor as int) && is_boundary::<T>(s, sel.end as int)
}

/// Whether the position of a pointer action, clamped to `s`, is a boundary
/// of `s`; true of every action that carries no position.
pub open spec fn points_at_boundary<T: EditableText>(edit: EditAction, s: Seq<u8>) -> bool {
    match edit {
        EditAction::Click(a) => is_boundary::<T>(s, clamp(s, a.column as int)),
        EditAction::Drag(a) => is_boundary::<T>(s, clamp(s, a.column as int)),
        _ => true,
    }
}

/// The number of bytes by which `edit` can make a text longer.
pub open spec fn growth(edit: EditAction) -> nat {
    match edit {
        EditAction::Insert(chars) => encode_utf8(chars@).len(),
        EditAction::Paste(chars) => encode_utf8(chars@).len(),
        _ => 0,
    }
}

/// A selection that stands on boundaries still does so after any edit: in a
/// `ByteText` in which no element is broken off, with a pointer position that is a
/// boundary, both ends of the new selection are boundaries of the new text,
/// and no element of the new text is broken off.
pub proof fn lemma_edit_keeps_boundaries(
    edit: EditAction,
    s: Seq<u8>,
    sel: Selection,
    multi_line: bool,
)
    requires
        s.len() + growth(edit) <= usize::MAX,
        well_formed(s),
        on_boundaries::<ByteText>(clamp_selection(sel, s), s),
        points_at_boundary::<ByteText>(edit, s),
    ensures
        on_boundaries::<ByteText>(
            edit_result::<ByteText>(edit, s, sel, multi_line).1,
            edit_result::<ByteText>(edit, s, sel, multi_line).0,
        ),
        well_formed(edit_result::<ByteText>(edit, s, sel, multi_line).0),
{
    let c = clamp_selection(sel, s);
    match edit {
        EditAction::Insert(chars) => {
            encode_utf8_valid_utf8(chars@);
            lemma_valid_utf8_well_formed(encode_utf8(chars@));
            lemma_insert_keeps_boundaries(s, sel, encode_utf8(chars@), multi_line);
        },
        EditAction::Paste(chars) => {
            encode_utf8_valid_utf8(chars@);
            lemma_valid_utf8_well_formed(encode_utf8(chars@));
            lemma_insert_keeps_boundaries(s, sel, encode_utf8(chars@), multi_line);
        },
        EditAction::Backspace => {
            if c.spec_is_caret() && c.end > 0 {
                lemma_prev_boundary::<ByteText>(s, c.end as int);
            }
            let start = if c.spec_is_caret() {
                prev_boundary::<ByteText>(s, c.end as int)
            } else {
                c.spec_min() as int
            };
            lemma_cut_keeps_boundary(s, start, c.spec_max() as int);
        },
        EditAction::Delete => {
            if c.spec_is_caret() && c.end < s.len() {
                lemma_next_boundary::<ByteText>(s, c.end as int);
            }
            let stop = if c.spec_is_caret() {
                next_boundary::<ByteText>(s, c.end as int)
            } else {
                c.spec_max() as int
            };
            lemma_cut_keeps_boundary(s, c.spec_min() as int, stop);
        },
        EditAction::JumpDelete(m) => {
            lemma_jump_delete_keeps_boundaries(s, sel, m);
        },
        EditAction::JumpBackspace(m) => {
            lemma_jump_delete_keeps_boundaries(s, sel, m);
        },
        EditAction::Move(m) => {
            lemma_target_on_boundary(m, c, s, false);
        },
        EditAction::ModifySelection(m) => {
            lemma_target_on_boundary(m, c, s, true);
        },
        EditAction::Click(a) => {},
        EditAction::Drag(a) => {},
    }
}

/// Replacing a range that ends on a boundary by text in which no element is
/// broken off leaves a text in which none is.
pub proof fn lemma_splice_well_formed(s: Seq<u8>, lo: int, hi: int, t: Seq<u8>)
    requires
        well_formed(s),
        well_formed(t),
        0 <= lo <= hi <= s.len(),
        is_boundary::<ByteText>(s, hi),
    ensures
        well_formed(splice(s, lo, hi, t)),
{
    let after = splice(s, lo, hi, t);
    assert(after.len() == lo + t.len() + (s.len() - hi));
    assert forall|i: int|
        0 <= i < after.len() && in_class(#[trigger] after[i], ByteClass::Continuation) implies i
        > 0 && after[i - 1] >= 0x80 by {
        if i < lo {
            assert(after[i] == s[i]);
            assert(after[i - 1] == s[i - 1]);
        } else if i < lo + t.len() {
            assert(after[i] == t[i - lo]);
            assert(after[i - 1] == t[i - lo - 1]);
        } else {
            let j = hi + (i - lo - t.len());
            assert(after[i] == s[j]);
            if j > hi {
                assert(after[i - 1] == s[j - 1]);
            }
        }
    }
}

proof fn lemma_inserted_well_formed(text: Seq<u8>, multi_line: bool)
    requires
        well_formed(text),
    ensures
        well_formed(inserted(text, multi_line)),
        inserted(text, multi_line).len() <= text.len(),
{
    let t = inserted(text, multi_line);
    lemma_forward_while(text, 0, ByteClass::WithinLine);
    assert forall|i: int|
        0 <= i < t.len() && in_class(#[trigger] t[i], ByteClass::Continuation) implies i > 0 && t[i
        - 1] >= 0x80 by {
        assert(t[i] == text[i]);
        assert(t[i - 1] == text[i - 1]);
    }
}

proof fn lemma_insert_keeps_boundaries(s: Seq<u8>, sel: Selection, text: Seq<u8>, multi_line: bool)
    requires
        s.len() + text.len() <= usize::MAX,
        well_formed(s),
        well_formed(text),
        on_boundaries::<ByteText>(clamp_selection(sel, s), s),
    ensures
        on_boundaries::<ByteText>(
            insert_result(s, sel, text, multi_line).1,
            insert_result(s, sel, text, multi_line).0,
        ),
        well_formed(insert_result(s, sel, text, multi_line).0),
{
    let c = clamp_selection(sel, s);
    let t = inserted(text, multi_line);
    lemma_inserted_well_formed(text, multi_line);
    let lo = c.spec_min() as int;
    let hi = c.spec_max() as int;
    let after = splice(s, lo, hi, t);
    lemma_splice_well_formed(s, lo, hi, t);
    assert(after.len() == lo + t.len() + (s.len() - hi));
    let p = lo + t.len();
    assert(insert_result(s, sel, text, multi_line).1 == caret_at(p));
    if hi < s.len() {
        assert(after[p] == s[hi]);
        assert(is_boundary::<ByteText>(s, hi));
        assert(!in_class(s[hi], ByteClass::Continuation));
    }
    assert(is_boundary::<ByteText>(after, p));
}

proof fn lemma_cut_keeps_boundary(s: Seq<u8>, start: int, stop: int)
    requires
        well_formed(s),
        0 <= start <= stop <= s.len() <= usize::MAX,
        is_boundary::<ByteText>(s, stop),
    ensures
        is_boundary::<ByteText>(splice(s, start, stop, Seq::empty()), start),
        well_formed(splice(s, start, stop, Seq::empty())),
{
    let after = splice(s, start, stop, Seq::empty());
    assert(after.len() == start + (s.len() - stop));
    if stop < s.len() {
        assert(after[start] == s[stop]);
    }
    lemma_splice_well_formed(s, start, stop, Seq::empty());
}

proof fn lemma_jump_delete_keeps_boundaries(s: Seq<u8>, sel: Selection, m: Movement)
    requires
        s.len() <= usize::MAX,
        well_formed(s),
        on_boundaries::<ByteText>(clamp_selection(sel, s), s),
    ensures
        on_boundaries::<ByteText>(jump_delete_result::<ByteText>(s, sel, m).1, jump_delete_result::<ByteText>(s, sel, m).0),
        well_formed(jump_delete_result::<ByteText>(s, sel, m).0),
{
    let c = clamp_selection(sel, s);
    lemma_target_on_boundary(m, c, s, true);
    let d = if c.spec_is_caret() {
        resolve::<ByteText>(m, c, s, true)
    } else {
        c
    };
    lemma_cut_keeps_boundary(s, d.spec_min() as int, d.spec_max() as int);
}

/// What the host has to do after the editor was told of new data.
#[derive(Clone, Copy, Debug, PartialEq, Eq, Structural)]
pub struct UpdateOutcome {
    /// Whether a repaint is to be requested.
    pub repaint: bool,
    /// Whether the cached text has to be shaped now.
    pub rebuild: bool,
}

/// The length of the first line of `bytes`.
pub fn first_line_len(bytes: &[u8]) -> (r: usize)
    ensures
        r == forward_while(bytes@, 0, ByteClass::WithinLine),
        r <= bytes@.len(),
{
    let mut i: usize = 0;
    while i < bytes.len() && bytes[i] != 10
        invariant
            i <= bytes@.len(),
            forward_while(bytes@, 0, ByteClass::WithinLine) == forward_while(
                bytes@,
                i as int,
                ByteClass::WithinLine,
            ),
        decreases bytes@.len() - i,
    {
        i += 1;
    }
    i
}

/// `sel` with each offset clamped to the length of `text`.
pub fn clamp_selection_to<T: EditableText>(sel: Selection, text: &T) -> (r: Selection)
    ensures
        r == clamp_selection(sel, text.bytes()),
        r.within(text.bytes().len()),
{
    Selection::new(clamp_offset(text, sel.anchor), clamp_offset(text, sel.end))
}

/// A text editor over a buffer of type `T`.
pub struct Editor<T> {
    layout: TextLayout<T>,
    selection: Selection,
    multi_line: bool,
    input: BasicTextInput,
}

impl<T: EditableText> Editor<T> {
    /// The bytes of the text that the editor last saw, if any.
    pub closed spec fn cached(&self) -> Option<Seq<u8>> {
        self.layout.cached()
    }

    /// The current selection.
    pub closed spec fn spec_selection(&self) -> Selection {
        self.selection
    }

    /// Whether line feeds may be inserted.
    pub closed spec fn multi_line(&self) -> bool {
        self.multi_line
    }

    /// The state of the layout of the cached text.
    pub closed spec fn layout_state(&self) -> LayoutState {
        self.layout.state()
    }

    /// The width at which lines wrap.
    pub closed spec fn wrap_width(&self) -> u64 {
        self.layout.width()
    }

    /// Whether `data` differs from the text that the editor last saw.
    pub open spec fn stale(&self, data: Seq<u8>) -> bool {
        match self.cached() {
            Some(s) => s != data,
            None => true,
        }
    }

    /// Whether `other` has the same cached text, layout state, wrap width and
    /// line mode.
    pub open spec fn same_layout(&self, other: &Self) -> bool {
        &&& self.cached() == other.cached()
        &&& self.layout_state() == other.layout_state()
        &&& self.wrap_width() == other.wrap_width()
        &&& self.multi_line() == other.multi_line()
    }

    /// A single-line editor without text, with a caret at 0.
    pub fn new() -> (r: Self)
        ensures
            r.cached().is_none(),
            r.spec_selection() == caret_at(0),
            !r.multi_line(),
            r.layout_state() == LayoutState::Clean,
            r.wrap_width() == UNBOUNDED_WIDTH,
    {
        Editor {
            layout: TextLayout::new(),
            selection: Selection::caret(0),
            multi_line: false,
            input: BasicTextInput::new(),
        }
    }

    /// The editor with its line mode set.
    pub fn with_multi_line(self, multi_line: bool) -> (r: Self)
        ensures
            r.multi_line() == multi_line,
            r.cached() == self.cached(),
            r.spec_selection() == self.spec_selection(),
            r.layout_state() == self.layout_state(),
            r.wrap_width() == self.wrap_width(),
    {
        let mut editor = self;
        editor.multi_line = multi_line;
        editor
    }

    /// Sets the width at which lines wrap.
    pub fn set_wrap_width(&mut self, width: u64)
        ensures
            final(self).wrap_width() == width,
            final(self).cached() == old(self).cached(),
            final(self).spec_selection() == old(self).spec_selection(),
            final(self).multi_line() == old(self).multi_line(),
            final(self).layout_state() == if width == old(self).wrap_width() {
                old(self).layout_state()
            } else {
                mark(old(self).layout_state(), DirtyReason::WidthChanged)
            },
    {
        self.layout.set_wrap_width(width);
    }

    /// Makes `text` the text that the editor has seen and marks the layout
    /// out of date. The selection stays as it is.
    pub fn set_text(&mut self, text: T)
        ensures
            final(self).cached() == Some(text.bytes()),
            !final(self).stale(text.bytes()),
            final(self).spec_selection() == old(self).spec_selection(),
            final(self).layout_state() == LayoutState::Dirty(DirtyReason::TextChanged),
            final(self).wrap_width() == old(self).wrap_width(),
            final(self).multi_line() == old(self).multi_line(),
    {
        self.layout.set_text(text);
    }

    /// The current selection.
    pub fn selection(&self) -> (r: &Selection)
        ensures
            *r == self.spec_selection(),
    {
        &self.selection
    }

    /// The text that the editor last saw.
    pub fn text(&self) -> (r: Option<&T>)
        ensures
            r.is_some() == self.cached().is_some(),
            r matches Some(t) ==> self.cached() == Some(t.bytes()),
    {
        self.layout.text()
    }

    /// The selected range, brought into the cached text, for which the host
    /// asks the layout for rectangles: `None` while there is no text.
    pub fn selection_range(&self) -> (r: Option<(usize, usize)>)
        ensures
            r == visible_range(self.cached(), self.spec_selection()),
    {
        self.layout.clamp_range(self.selection.min(), self.selection.max())
    }

    /// The offset of the caret, brought into the cached text, for which the
    /// host asks the layout for the cursor line: `None` while there is no text.
    pub fn cursor_position(&self) -> (r: Option<usize>)
        ensures
            r == visible_cursor(self.cached(), self.spec_selection()),
    {
        match self.layout.clamp_range(self.selection.end, self.selection.end) {
            Some(p) => Some(p.1),
            None => None,
        }
    }

    /// Applies a click at `mouse`.
    pub fn click(&mut self, mouse: MouseAction, data: &mut T)
        ensures
            final(self).same_layout(old(self)),
            final(data).bytes() == old(data).bytes(),
            final(self).spec_selection() == if old(self).stale(old(data).bytes()) {
                old(self).spec_selection()
            } else {
                click_result(old(data).bytes(), old(self).spec_selection(), mouse)
            },
    {
        self.do_edit(EditAction::Click(mouse), data);
    }

    /// Applies a drag to `mouse`.
    pub fn drag(&mut self, mouse: MouseAction, data: &mut T)
        ensures
            final(self).same_layout(old(self)),
            final(data).bytes() == old(data).bytes(),
            final(self).spec_selection() == if old(self).stale(old(data).bytes()) {
                old(self).spec_selection()
            } else {
                drag_result(old(data).bytes(), old(self).spec_selection(), mouse)
            },
    {
        self.do_edit(EditAction::Drag(mouse), data);
    }

    /// Applies the edit action that the key press stands for, if it stands
    /// for one and `data` is the text that the editor last saw.
    pub fn key(&mut self, event: &KeyEvent, data: &mut T)
        ensures
            final(self).same_layout(old(self)),
            old(self).stale(old(data).bytes()) ==> final(data).bytes() == old(data).bytes()
                && final(self).spec_selection() == old(self).spec_selection(),
            !old(self).stale(old(data).bytes()) ==> (
                final(data).bytes(),
                final(self).spec_selection(),
            ) == key_result::<T>(
                *event,
                old(data).bytes(),
                old(self).spec_selection(),
                old(self).multi_line(),
            ),
    {
        match self.input.handle_event(event) {
            Some(edit) => self.do_edit(edit, data),
            None => {},
        }
    }

    /// Takes note of `new_data`. Where it differs from the cached text it
    /// becomes the cached text and the selection is brought into it; where
    /// only the style changed the selection stays. Either way the host is
    /// told to repaint, and in the end whether to shape the text.
    pub fn update(&mut self, new_data: &T, style_changed: bool) -> (r: UpdateOutcome)
        ensures
            final(self).multi_line() == old(self).multi_line(),
            final(self).wrap_width() == old(self).wrap_width(),
            final(self).cached() == Some(new_data.bytes()),
            final(self).spec_selection() == if old(self).stale(new_data.bytes()) {
                old(self).spec_selection().constrained::<T>(new_data.bytes())
            } else {
                old(self).spec_selection()
            },
            r.repaint == (old(self).stale(new_data.bytes()) || style_changed),
            r.rebuild == (old(self).stale(new_data.bytes()) || style_changed || old(
                self,
            ).layout_state() != LayoutState::Clean),
            old(self).stale(new_data.bytes()) ==> on_boundaries::<T>(
                final(self).spec_selection(),
                new_data.bytes(),
            ) && final(self).spec_selection().within(new_data.bytes().len()),
            final(self).layout_state() == LayoutState::Clean,
            !final(self).stale(new_data.bytes()),
    {
        let mut repaint: bool = false;
        if self.data_is_stale(new_data) {
            self.layout.set_text(new_data.duplicate());
            self.selection.constrain_to(new_data);
            repaint = true;
        } else if self.layout.needs_rebuild_after_update(style_changed) {
            repaint = true;
        }
        let rebuild: bool = self.rebuild_if_needed();
        UpdateOutcome { repaint, rebuild }
    }

    /// Returns whether the cached text has to be shaped now, and records
    /// that this is being done.
    pub fn rebuild_if_needed(&mut self) -> (r: bool)
        ensures
            r == (old(self).cached().is_some() && old(self).layout_state() != LayoutState::Clean),
            final(self).layout_state() == if r {
                LayoutState::Clean
            } else {
                old(self).layout_state()
            },
            final(self).cached() == old(self).cached(),
            final(self).spec_selection() == old(self).spec_selection(),
            final(self).wrap_width() == old(self).wrap_width(),
            final(self).multi_line() == old(self).multi_line(),
    {
        self.layout.rebuild_if_needed()
    }

    /// Applies `edit` to `data`, unless `data` is not the text that the
    /// editor last saw: then nothing changes.
    pub fn do_edit(&mut self, edit: EditAction, data: &mut T)
        ensures
            final(self).same_layout(old(self)),
            old(self).stale(old(data).bytes()) ==> final(data).bytes() == old(data).bytes()
                && final(self).spec_selection() == old(self).spec_selection(),
            !old(self).stale(old(data).bytes()) ==> (
                final(data).bytes(),
                final(self).spec_selection(),
            ) == edit_result::<T>(
                edit,
                old(data).bytes(),
                old(self).spec_selection(),
                old(self).multi_line(),
            ),
            !old(self).stale(old(data).bytes()) ==> final(self).spec_selection().within(
                final(data).bytes().len(),
            ),
    {
        if self.data_is_stale(data) {
            return ;
        }
        match edit {
            EditAction::Insert(chars) => self.insert(chars.as_str(), data),
            EditAction::Paste(chars) => self.insert(chars.as_str(), data),
            EditAction::Backspace => self.delete_backward(data),
            EditAction::Delete => self.delete_forward(data),
            EditAction::JumpDelete(mvmt) => self.jump_delete(mvmt, data),
            EditAction::JumpBackspace(mvmt) => self.jump_delete(mvmt, data),
            EditAction::Move(mvmt) => {
                let current: Selection = clamp_selection_to(self.selection, data);
                self.selection = movement(mvmt, current, data, false);
            },
            EditAction::ModifySelection(mvmt) => {
                let current: Selection = clamp_selection_to(self.selection, data);
                self.selection = movement(mvmt, current, data, true);
            },
            EditAction::Click(action) => {
                let current: Selection = clamp_selection_to(self.selection, data);
                let column: usize = clamp_offset(data, action.column);
                if action.shift {
                    self.selection = Selection::new(current.anchor, column);
                } else {
                    self.selection = Selection::caret(column);
                }
            },
            EditAction::Drag(action) => {
                let current: Selection = clamp_selection_to(self.selection, data);
                self.selection = Selection::new(current.anchor, clamp_offset(data, action.column));
            },
        }
    }

    /// Whether `data` differs from the text that the editor last saw, so that
    /// the selection may not fit it.
    pub fn data_is_stale(&self, data: &T) -> (r: bool)
        ensures
            r == self.stale(data.bytes()),
    {
        match self.layout.text() {
            Some(t) => !t.same(data),
            None => true,
        }
    }

    fn insert(&mut self, text: &str, data: &mut T)
        ensures
            final(self).same_layout(old(self)),
            (final(data).bytes(), final(self).spec_selection()) == insert_result(
                old(data).bytes(),
                old(self).spec_selection(),
                text.spec_bytes(),
                old(self).multi_line(),
            ),
            final(self).spec_selection().within(final(data).bytes().len()),
    {
        let bytes: &[u8] = text.as_bytes();
        let chosen: &[u8] = if self.multi_line {
            bytes
        } else {
            slice_subrange(bytes, 0, first_line_len(bytes))
        };
        let current: Selection = clamp_selection_to(self.selection, data);
        let lo: usize = current.min();
        let hi: usize = current.max();
        data.edit(lo, hi, chosen);
        let n: usize = data.len();
        assert(n == lo + chosen@.len() + (old(data).bytes().len() - hi));
        self.selection = Selection::caret(lo + chosen.len());
    }

    fn delete_backward(&mut self, data: &mut T)
        ensures
            final(self).same_layout(old(self)),
            (final(data).bytes(), final(self).spec_selection()) == delete_backward_result::<T>(
                old(data).bytes(),
                old(self).spec_selection(),
            ),
            final(self).spec_selection().within(final(data).bytes().len()),
    {
        let current: Selection = clamp_selection_to(self.selection, data);
        let cursor_pos: usize = if current.is_caret() {
            let del_end: usize = current.end;
            proof {
                if del_end > 0 {
                    lemma_prev_boundary::<T>(data.bytes(), del_end as int);
                }
            }
            let del_start: usize = match data.prev_grapheme_offset(del_end) {
                Some(o) => o,
                None => 0,
            };
            data.edit(del_start, del_end, &[]);
            del_start
        } else {
            data.edit(current.min(), current.max(), &[]);
            current.min()
        };
        self.selection = Selection::caret(cursor_pos);
    }

    fn delete_forward(&mut self, data: &mut T)
        ensures
            final(self).same_layout(old(self)),
            (final(data).bytes(), final(self).spec_selection()) == delete_forward_result::<T>(
                old(data).bytes(),
                old(self).spec_selection(),
            ),
            final(self).spec_selection().within(final(data).bytes().len()),
    {
        let current: Selection = clamp_selection_to(self.selection, data);
        proof {
            if current.end < data.bytes().len() {
                lemma_next_boundary::<T>(data.bytes(), current.end as int);
            }
        }
        let stop: usize = if current.is_caret() {
            match data.next_grapheme_offset(current.end) {
                Some(o) => o,
                None => current.end,
            }
        } else {
            current.max()
        };
        data.edit(current.min(), stop, &[]);
        self.selection = Selection::caret(current.min());
    }

    fn jump_delete(&mut self, mvmt: Movement, data: &mut T)
        ensures
            final(self).same_layout(old(self)),
            (final(data).bytes(), final(self).spec_selection()) == jump_delete_result::<T>(
                old(data).bytes(),
                old(self).spec_selection(),
                mvmt,
            ),
            final(self).spec_selection().within(final(data).bytes().len()),
    {
        let current: Selection = clamp_selection_to(self.selection, data);
        let to_delete: Selection = if current.is_caret() {
            movement(mvmt, current, data, true)
        } else {
            current
        };
        data.edit(to_delete.min(), to_delete.max(), &[]);
        self.selection = Selection::caret(to_delete.min());
    }

    /// The text to put on the clipboard, or `None` where nothing is to be
    /// put there; always `None` where `data` is stale.
    pub fn copy(&self, data: &T) -> (r: Option<Vec<u8>>)
        ensures
            self.stale(data.bytes()) ==> r.is_none(),
            !self.stale(data.bytes()) ==> (match r {
                Some(v) => Some(v@),
                None => None,
            }) == clipboard_text(self.cached(), self.spec_selection()),
    {
        if !self.data_is_stale(data) {
            self.set_clipboard()
        } else {
            None
        }
    }

    /// Like `copy`, and then deletes backward. Where `data` is stale nothing
    /// changes and nothing is put on the clipboard.
    pub fn cut(&mut self, data: &mut T) -> (r: Option<Vec<u8>>)
        ensures
            final(self).same_layout(old(self)),
            old(self).stale(old(data).bytes()) ==> r.is_none() && final(data).bytes() == old(
                data,
            ).bytes() && final(self).spec_selection() == old(self).spec_selection(),
            !old(self).stale(old(data).bytes()) ==> (match r {
                Some(v) => Some(v@),
                None => None,
            }) == clipboard_text(old(self).cached(), old(self).spec_selection()) && (
                final(data).bytes(),
                final(self).spec_selection(),
            ) == delete_backward_result::<T>(old(data).bytes(), old(self).spec_selection()),
    {
        if !self.data_is_stale(data) {
            let text: Option<Vec<u8>> = self.set_clipboard();
            self.delete_backward(data);
            text
        } else {
            None
        }
    }

    /// The selected part of the cached text, where it is not empty.
    pub fn set_clipboard(&self) -> (r: Option<Vec<u8>>)
        ensures
            (match r {
                Some(v) => Some(v@),
                None => None,
            }) == clipboard_text(self.cached(), self.spec_selection()),
    {
        match self.layout.text() {
            Some(txt) => {
                match txt.slice(self.selection.min(), self.selection.max()) {
                    Some(text) => {
                        if text.len() != 0 {
                            Some(text)
                        } else {
                            None
                        }
                    },
                    None => None,
                }
            },
            None => None,
        }
    }

    /// Inserts pasted text.
    pub fn paste(&mut self, t: String, data: &mut T)
        ensures
            final(self).same_layout(old(self)),
            old(self).stale(old(data).bytes()) ==> final(data).bytes() == old(data).bytes()
                && final(self).spec_selection() == old(self).spec_selection(),
            !old(self).stale(old(data).bytes()) ==> (
                final(data).bytes(),
                final(self).spec_selection(),
            ) == insert_result(
                old(data).bytes(),
                old(self).spec_selection(),
                encode_utf8(t@),
                old(self).multi_line(),
            ),
    {
        self.do_edit(EditAction::Paste(t), data)
    }
}

} // verus!
