//! Movement commands and the function that resolves one against a selection
//! and the current text.

use crate::boundary::{
    back_while, clamp, clamp_offset, forward_while, is_boundary, lemma_back_while,
    lemma_forward_while, lemma_next_boundary, lemma_prev_boundary, next_boundary, next_line_break,
    next_word, next_word_offset, preceding_line_break, prev_boundary, prev_word, prev_word_offset,
    well_formed, ByteClass,
};
use crate::selection::Selection;
use crate::storage::{ByteText, EditableText};
use vstd::prelude::*;

verus! {

/// A command that moves the caret.
#[derive(Clone, Copy, Debug, PartialEq, Eq, Structural)]
pub enum Movement {
    /// One text element to the left.
    Left,
    /// One text element to the right.
    Right,
    /// To the start of the word on the left.
    LeftWord,
    /// To the end of the word on the right.
    RightWord,
    /// To the start of the line.
    PrecedingLineBreak,
    /// To the end of the line.
    NextLineBreak,
    /// To the start of the text.
    StartOfDocument,
    /// To the end of the text.
    EndOfDocument,
}

/// Whether `m` moves by text elements or words, and so collapses a range to
/// one of its edges when the selection is not being extended.
pub open spec fn collapses(m: Movement) -> bool {
    m == Movement::Left || m == Movement::Right || m == Movement::LeftWord || m
        == Movement::RightWord
}

/// The offset at which movement `m` puts the caret of `sel` in text `s`.
///
/// A range that is not being extended collapses to its left edge for a
/// leftward movement and to its right edge for a rightward one, and moves no
/// further. Every offset is clamped to the text before it is used.
pub open spec fn target<T: EditableText>(m: Movement, sel: Selection, s: Seq<u8>, modify: bool) -> int {
    let from = clamp(s, sel.end as int);
    let moves = sel.spec_is_caret() || modify;
    match m {
        Movement::Left => if moves {
            prev_boundary::<T>(s, from)
        } else {
            clamp(s, sel.spec_min() as int)
        },
        Movement::Right => if moves {
            next_boundary::<T>(s, from)
        } else {
            clamp(s, sel.spec_max() as int)
        },
        Movement::LeftWord => if moves {
            prev_word(s, from)
        } else {
            clamp(s, sel.spec_min() as int)
        },
        Movement::RightWord => if moves {
            next_word(s, from)
        } else {
            clamp(s, sel.spec_max() as int)
        },
        Movement::PrecedingLineBreak => back_while(s, from, ByteClass::WithinLine),
        Movement::NextLineBreak => forward_while(s, from, ByteClass::WithinLine),
        Movement::StartOfDocument => 0,
        Movement::EndOfDocument => s.len() as int,
    }
}

/// The selection that results from movement `m`: the caret goes to the
/// target; the anchor stays when the selection is extended and follows the
/// caret when it is not.
pub open spec fn resolve<T: EditableText>(m: Movement, sel: Selection, s: Seq<u8>, modify: bool) -> Selection {
    let offset = target::<T>(m, sel, s, modify) as usize;
    Selection {
        anchor: if modify {
            sel.anchor
        } else {
            offset
        },
        end: offset,
    }
}

/// The target of a movement lies within the text.
pub proof fn lemma_target_within<T: EditableText>(m: Movement, sel: Selection, s: Seq<u8>, modify: bool)
    ensures
        0 <= target::<T>(m, sel, s, modify) <= s.len(),
{
    let from = clamp(s, sel.end as int);
    if from > 0 {
        lemma_prev_boundary::<T>(s, from);
    }
    lemma_back_while(s, from, ByteClass::Whitespace);
    lemma_back_while(s, back_while(s, from, ByteClass::Whitespace), ByteClass::Word);
    lemma_back_while(s, from, ByteClass::WithinLine);
    lemma_forward_while(s, from, ByteClass::Whitespace);
    lemma_forward_while(s, forward_while(s, from, ByteClass::Whitespace), ByteClass::Word);
    lemma_forward_while(s, from, ByteClass::WithinLine);
    if from < s.len() {
        lemma_next_boundary::<T>(s, from);
    }
}

/// Movement by one text element never stops inside an element: from a caret,
/// or when extending, `Left` and `Right` put the caret on a boundary.
pub proof fn lemma_element_movement_on_boundary<T: EditableText>(
    m: Movement,
    sel: Selection,
    s: Seq<u8>,
    modify: bool,
)
    requires
        m == Movement::Left || m == Movement::Right,
        sel.spec_is_caret() || modify,
    ensures
        is_boundary::<T>(s, target::<T>(m, sel, s, modify)),
{
    let from = clamp(s, sel.end as int);
    if m == Movement::Left {
        if from > 0 {
            lemma_prev_boundary::<T>(s, from);
        }
    } else {
        if from < s.len() {
            lemma_next_boundary::<T>(s, from);
        }
    }
}

/// In a `ByteText` in which no element is broken off, every movement of a
/// selection that stands on boundaries within the text ends on boundaries.
pub proof fn lemma_target_on_boundary(m: Movement, sel: Selection, s: Seq<u8>, modify: bool)
    requires
        s.len() <= usize::MAX,
        well_formed(s),
        sel.within(s.len()),
        is_boundary::<ByteText>(s, sel.anchor as int),
        is_boundary::<ByteText>(s, sel.end as int),
    ensures
        is_boundary::<ByteText>(s, target::<ByteText>(m, sel, s, modify)),
        is_boundary::<ByteText>(s, resolve::<ByteText>(m, sel, s, modify).anchor as int),
        is_boundary::<ByteText>(s, resolve::<ByteText>(m, sel, s, modify).end as int),
{
    let from = sel.end as int;
    lemma_target_within::<ByteText>(m, sel, s, modify);
    if from > 0 {
        lemma_prev_boundary::<ByteText>(s, from);
    }
    if from < s.len() {
        lemma_next_boundary::<ByteText>(s, from);
    }
    lemma_back_while(s, from, ByteClass::Whitespace);
    lemma_back_while(s, back_while(s, from, ByteClass::Whitespace), ByteClass::Word);
    lemma_back_while(s, from, ByteClass::WithinLine);
    lemma_forward_while(s, from, ByteClass::Whitespace);
    lemma_forward_while(s, forward_while(s, from, ByteClass::Whitespace), ByteClass::Word);
    lemma_forward_while(s, from, ByteClass::WithinLine);
}

/// Resolves movement `m` against selection `s` and the current text.
/// With `modify` the selection is extended: its anchor stays.
pub fn movement<T: EditableText>(m: Movement, s: Selection, text: &T, modify: bool) -> (r:
    Selection)
    ensures
        r == resolve::<T>(m, s, text.bytes(), modify),
        r.end <= text.bytes().len(),
        !modify ==> r.spec_is_caret(),
        modify ==> r.anchor == s.anchor,
{
    proof {
        lemma_target_within::<T>(m, s, text.bytes(), modify);
    }
    let n: usize = text.len();
    let from: usize = clamp_offset(text, s.end);
    let moves: bool = s.is_caret() || modify;
    let offset: usize = match m {
        Movement::Left => if moves {
            match text.prev_grapheme_offset(from) {
                Some(o) => o,
                None => 0,
            }
        } else {
            clamp_offset(text, s.min())
        },
        Movement::Right => if moves {
            match text.next_grapheme_offset(from) {
                Some(o) => o,
                None => n,
            }
        } else {
            clamp_offset(text, s.max())
        },
        Movement::LeftWord => if moves {
            match prev_word_offset(text, from) {
                Some(o) => o,
                None => 0,
            }
        } else {
            clamp_offset(text, s.min())
        },
        Movement::RightWord => if moves {
            match next_word_offset(text, from) {
                Some(o) => o,
                None => n,
            }
        } else {
            clamp_offset(text, s.max())
        },
        Movement::PrecedingLineBreak => preceding_line_break(text, from),
        Movement::NextLineBreak => next_line_break(text, from),
        Movement::StartOfDocument => 0,
        Movement::EndOfDocument => n,
    };
    if modify {
        Selection::new(s.anchor, offset)
    } else {
        Selection::new(offset, offset)
    }
}

/// A range that is not being extended collapses under `Left` to a caret at
/// its lower edge, and the caret moves no further.
pub proof fn lemma_left_collapses_range<T: EditableText>(sel: Selection, s: Seq<u8>)
    requires
        !sel.spec_is_caret(),
        sel.within(s.len()),
    ensures
        resolve::<T>(Movement::Left, sel, s, false) == (Selection {
            anchor: sel.spec_min(),
            end: sel.spec_min(),
        }),
{
}

} // verus!
