//! Where a caret may stand in a text: the boundaries of the text elements
//! that a buffer tells of, and scans over classes of bytes for the
//! boundaries of words and lines.

use crate::storage::{ByteText, EditableText, TextElements};
use vstd::prelude::*;
use vstd::utf8::{
    is_char_boundary, is_char_boundary_iff_not_is_continuation_byte,
    is_char_boundary_start_end_of_seq, length_of_first_scalar, pop_first_scalar,
    valid_first_scalar, valid_utf8,
};

verus! {

/// A class of bytes that a scan runs over.
#[derive(Clone, Copy, Debug, PartialEq, Eq, Structural)]
pub enum ByteClass {
    /// A byte of a multi-byte element that is not its first.
    Continuation,
    /// ASCII white space.
    Whitespace,
    /// Anything but ASCII white space.
    Word,
    /// Anything but a line feed.
    WithinLine,
}

/// Whether `b` is ASCII white space: a space, or one of the controls from
/// horizontal tab to carriage return.
pub open spec fn is_space(b: u8) -> bool {
    b == 32 || (9 <= b && b <= 13)
}

/// Whether `b` belongs to class `c`.
pub open spec fn in_class(b: u8, c: ByteClass) -> bool {
    match c {
        ByteClass::Continuation => 0x80 <= b && b < 0xC0,
        ByteClass::Whitespace => is_space(b),
        ByteClass::Word => !is_space(b),
        ByteClass::WithinLine => b != 10,
    }
}

/// The least offset `r <= from` such that every byte in `[r, from)` is of class `c`.
pub open spec fn back_while(s: Seq<u8>, from: int, c: ByteClass) -> int
    decreases from,
{
    if from <= 0 {
        0
    } else if from <= s.len() && in_class(s[from - 1], c) {
        back_while(s, from - 1, c)
    } else {
        from
    }
}

/// The greatest offset `r >= from` such that every byte in `[from, r)` is of class `c`.
pub open spec fn forward_while(s: Seq<u8>, from: int, c: ByteClass) -> int
    decreases s.len() - from,
{
    if 0 <= from && from < s.len() && in_class(s[from], c) {
        forward_while(s, from + 1, c)
    } else {
        from
    }
}

/// Whether a caret may stand at offset `i` of a text `s` held in a buffer of
/// type `T`: at either end of the text, or where the buffer has a text
/// element begin.
pub open spec fn is_boundary<T: TextElements>(s: Seq<u8>, i: int) -> bool {
    0 <= i <= s.len() && (i == 0 || i == s.len() || T::starts_element(s, i))
}

/// The greatest boundary below `from`, or 0 where `from` is 0.
pub open spec fn prev_boundary<T: TextElements>(s: Seq<u8>, from: int) -> int
    decreases from,
{
    if from <= 0 {
        0
    } else if is_boundary::<T>(s, from - 1) {
        from - 1
    } else {
        prev_boundary::<T>(s, from - 1)
    }
}

/// The least boundary above `from`, or the length of the text where `from` is
/// not below it.
pub open spec fn next_boundary<T: TextElements>(s: Seq<u8>, from: int) -> int
    decreases s.len() - from,
{
    if from >= s.len() {
        s.len() as int
    } else if is_boundary::<T>(s, from + 1) {
        from + 1
    } else {
        next_boundary::<T>(s, from + 1)
    }
}

/// `from` clamped to the length of the text.
pub open spec fn clamp(s: Seq<u8>, from: int) -> int {
    if from > s.len() {
        s.len() as int
    } else {
        from
    }
}

/// The start of the word before `from`: back over white space, then back over
/// what is not.
pub open spec fn prev_word(s: Seq<u8>, from: int) -> int {
    back_while(s, back_while(s, from, ByteClass::Whitespace), ByteClass::Word)
}

/// The end of the word after `from`: forward over white space, then forward
/// over what is not.
pub open spec fn next_word(s: Seq<u8>, from: int) -> int {
    forward_while(s, forward_while(s, from, ByteClass::Whitespace), ByteClass::Word)
}

/// Whether every continuation byte of `s` follows a byte that is not ASCII,
/// as in every UTF-8 encoded text: no element is broken off at the start of
/// the text or behind an ASCII byte.
pub open spec fn well_formed(s: Seq<u8>) -> bool {
    forall|i: int|
        0 <= i < s.len() && in_class(#[trigger] s[i], ByteClass::Continuation) ==> i > 0 && s[i
            - 1] >= 0x80
}

/// Every valid UTF-8 text is well formed.
pub proof fn lemma_valid_utf8_well_formed(s: Seq<u8>)
    requires
        valid_utf8(s),
    ensures
        well_formed(s),
    decreases s.len(),
{
    if s.len() > 0 {
        let n = length_of_first_scalar(s);
        let rest = pop_first_scalar(s);
        assert(valid_first_scalar(s) && valid_utf8(rest));
        assert(1 <= n <= s.len());
        lemma_valid_utf8_well_formed(rest);
        assert forall|i: int|
            0 <= i < s.len() && in_class(#[trigger] s[i], ByteClass::Continuation) implies i > 0
            && s[i - 1] >= 0x80 by {
            if i >= n {
                assert(rest[i - n] == s[i]);
                assert(rest[i - n - 1] == s[i - 1]);
            }
        }
    }
}

/// In a valid UTF-8 text the boundaries of a `ByteText` are the character
/// boundaries.
pub proof fn lemma_boundary_is_char_boundary(s: Seq<u8>, i: int)
    requires
        valid_utf8(s),
        0 <= i <= s.len(),
    ensures
        is_boundary::<ByteText>(s, i) <==> is_char_boundary(s, i),
{
    is_char_boundary_start_end_of_seq(s);
    if 0 < i < s.len() {
        is_char_boundary_iff_not_is_continuation_byte(s, i);
    }
}

/// What a backward scan returns: it lies in `[0, from]`, every byte between it
/// and `from` is of the class, and the byte before it, if any, is not.
pub proof fn lemma_back_while(s: Seq<u8>, from: int, c: ByteClass)
    requires
        0 <= from <= s.len(),
    ensures
        0 <= back_while(s, from, c) <= from,
        forall|k: int| back_while(s, from, c) <= k < from ==> in_class(#[trigger] s[k], c),
        back_while(s, from, c) == 0 || !in_class(s[back_while(s, from, c) - 1], c),
    decreases from,
{
    if from > 0 && in_class(s[from - 1], c) {
        lemma_back_while(s, from - 1, c);
    }
}

/// What a forward scan returns: it lies in `[from, len]`, every byte between
/// `from` and it is of the class, and the byte at it, if any, is not.
pub proof fn lemma_forward_while(s: Seq<u8>, from: int, c: ByteClass)
    requires
        0 <= from <= s.len(),
    ensures
        from <= forward_while(s, from, c) <= s.len(),
        forall|k: int| from <= k < forward_while(s, from, c) ==> in_class(#[trigger] s[k], c),
        forward_while(s, from, c) == s.len() || !in_class(s[forward_while(s, from, c)], c),
    decreases s.len() - from,
{
    if from < s.len() && in_class(s[from], c) {
        lemma_forward_while(s, from + 1, c);
    }
}

/// Backward movement by one element never stops inside an element: the result
/// is a boundary below `from`, and no boundary lies between the two.
pub proof fn lemma_prev_boundary<T: TextElements>(s: Seq<u8>, from: int)
    requires
        0 < from <= s.len(),
    ensures
        is_boundary::<T>(s, prev_boundary::<T>(s, from)),
        0 <= prev_boundary::<T>(s, from) < from,
        forall|k: int|
            prev_boundary::<T>(s, from) < k < from ==> !#[trigger] is_boundary::<T>(s, k),
    decreases from,
{
    if !is_boundary::<T>(s, from - 1) {
        lemma_prev_boundary::<T>(s, from - 1);
    }
}

/// Forward movement by one element never stops inside an element: the result
/// is a boundary above `from`, and no boundary lies between the two.
pub proof fn lemma_next_boundary<T: TextElements>(s: Seq<u8>, from: int)
    requires
        0 <= from < s.len(),
    ensures
        is_boundary::<T>(s, next_boundary::<T>(s, from)),
        from < next_boundary::<T>(s, from) <= s.len(),
        forall|k: int|
            from < k < next_boundary::<T>(s, from) ==> !#[trigger] is_boundary::<T>(s, k),
    decreases s.len() - from,
{
    if !is_boundary::<T>(s, from + 1) {
        lemma_next_boundary::<T>(s, from + 1);
    }
}

/// Whether `b` belongs to class `c`.
pub fn byte_in_class(b: u8, c: ByteClass) -> (r: bool)
    ensures
        r == in_class(b, c),
{
    match c {
        ByteClass::Continuation => 0x80 <= b && b < 0xC0,
        ByteClass::Whitespace => b == 32 || (9 <= b && b <= 13),
        ByteClass::Word => !(b == 32 || (9 <= b && b <= 13)),
        ByteClass::WithinLine => b != 10,
    }
}

/// Scans backward from `from` over bytes of class `c`.
pub fn scan_back<T: EditableText>(text: &T, from: usize, c: ByteClass) -> (r: usize)
    requires
        from <= text.bytes().len(),
    ensures
        r == back_while(text.bytes(), from as int, c),
        r <= from,
{
    let mut i: usize = from;
    while i > 0 && byte_in_class(text.byte_at(i - 1), c)
        invariant
            i <= from <= text.bytes().len(),
            back_while(text.bytes(), from as int, c) == back_while(text.bytes(), i as int, c),
        decreases i,
    {
        i -= 1;
    }
    i
}

/// Scans forward from `from` over bytes of class `c`.
pub fn scan_forward<T: EditableText>(text: &T, from: usize, c: ByteClass) -> (r: usize)
    requires
        from <= text.bytes().len(),
    ensures
        r == forward_while(text.bytes(), from as int, c),
        from <= r <= text.bytes().len(),
{
    let n: usize = text.len();
    let mut i: usize = from;
    while i < n && byte_in_class(text.byte_at(i), c)
        invariant
            from <= i <= n,
            n == text.bytes().len(),
            forward_while(text.bytes(), from as int, c) == forward_while(text.bytes(), i as int, c),
        decreases n - i,
    {
        i += 1;
    }
    i
}

/// `from`, or the length of the text if that is less.
pub fn clamp_offset<T: EditableText>(text: &T, from: usize) -> (r: usize)
    ensures
        r == clamp(text.bytes(), from as int),
        r <= text.bytes().len(),
{
    let n: usize = text.len();
    if from > n {
        n
    } else {
        from
    }
}

/// The start of the word before `from`: `None` at the start of the text.
pub fn prev_word_offset<T: EditableText>(text: &T, from: usize) -> (r: Option<usize>)
    ensures
        from == 0 <==> r.is_none(),
        r matches Some(o) ==> o == prev_word(text.bytes(), clamp(text.bytes(), from as int)) && o
            <= from,
{
    if from == 0 {
        None
    } else {
        let at: usize = clamp_offset(text, from);
        let mid: usize = scan_back(text, at, ByteClass::Whitespace);
        Some(scan_back(text, mid, ByteClass::Word))
    }
}

/// The end of the word after `from`: `None` at or past the end of the text.
pub fn next_word_offset<T: EditableText>(text: &T, from: usize) -> (r: Option<usize>)
    ensures
        from >= text.bytes().len() <==> r.is_none(),
        r matches Some(o) ==> o == next_word(text.bytes(), from as int) && from <= o
            <= text.bytes().len(),
{
    if from >= text.len() {
        None
    } else {
        let mid: usize = scan_forward(text, from, ByteClass::Whitespace);
        Some(scan_forward(text, mid, ByteClass::Word))
    }
}

/// The offset after the last line feed before `from`, or 0 if there is none.
pub fn preceding_line_break<T: EditableText>(text: &T, from: usize) -> (r: usize)
    ensures
        r == back_while(text.bytes(), clamp(text.bytes(), from as int), ByteClass::WithinLine),
        r <= from,
{
    let at: usize = clamp_offset(text, from);
    scan_back(text, at, ByteClass::WithinLine)
}

/// The offset of the first line feed at or after `from`, or the length of the
/// text if there is none.
pub fn next_line_break<T: EditableText>(text: &T, from: usize) -> (r: usize)
    ensures
        r == forward_while(text.bytes(), clamp(text.bytes(), from as int), ByteClass::WithinLine),
        r <= text.bytes().len(),
{
    let at: usize = clamp_offset(text, from);
    scan_forward(text, at, ByteClass::WithinLine)
}

} // verus!
