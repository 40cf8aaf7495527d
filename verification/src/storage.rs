//! The capability that the editor asks of a text buffer, and a contiguous
//! buffer that has it.

use crate::boundary::{
    byte_in_class, clamp, in_class, lemma_valid_utf8_well_formed, next_boundary, prev_boundary,
    well_formed, ByteClass,
};
use vstd::prelude::*;
use vstd::slice::slice_to_vec;
use vstd::string::StringSliceAdditionalSpecFns;
use vstd::utf8::encode_utf8_valid_utf8;

verus! {

/// `s` with the bytes in `[start, end)` replaced by `text`.
pub open spec fn splice(s: Seq<u8>, start: int, end: int, text: Seq<u8>) -> Seq<u8> {
    s.subrange(0, start) + text + s.subrange(end, s.len() as int)
}

/// How a kind of buffer divides a text into elements.
pub trait TextElements {
    /// Whether one of the buffer's text elements (a grapheme cluster, or
    /// whatever the buffer takes for one) begins at offset `i` of text `s`.
    /// It is asked only of offsets inside the text: both ends of a text are
    /// boundaries whatever it says.
    spec fn starts_element(s: Seq<u8>, i: int) -> bool;
}

/// A text value that the editor can read and edit. Its model is the sequence
/// of its UTF-8 bytes; every offset is an index into that sequence.
pub trait EditableText: Sized + TextElements {
    /// The bytes of the text.
    spec fn bytes(&self) -> Seq<u8>;

    /// The length of the text in bytes.
    fn len(&self) -> (n: usize)
        ensures
            n == self.bytes().len(),
    ;

    /// The byte at offset `i`.
    fn byte_at(&self, i: usize) -> (b: u8)
        requires
            i < self.bytes().len(),
        ensures
            b == self.bytes()[i as int],
    ;

    /// Replaces the bytes in `[start, end)` by `text`.
    fn edit(&mut self, start: usize, end: usize, text: &[u8])
        requires
            start <= end <= old(self).bytes().len(),
        ensures
            final(self).bytes() == splice(old(self).bytes(), start as int, end as int, text@),
    ;

    /// The bytes in `[start, end)`, or `None` where that is no range of the text.
    fn slice(&self, start: usize, end: usize) -> (r: Option<Vec<u8>>)
        ensures
            r.is_some() <==> start <= end <= self.bytes().len(),
            r matches Some(v) ==> v@ == self.bytes().subrange(start as int, end as int),
    ;

    /// Whether two texts have the same content.
    fn same(&self, other: &Self) -> (r: bool)
        ensures
            r == (self.bytes() == other.bytes()),
    ;

    /// The boundary before `from`: `None` at the start of the text, otherwise
    /// the greatest boundary below `from`, with `from` clamped to the text.
    fn prev_grapheme_offset(&self, from: usize) -> (r: Option<usize>)
        ensures
            from == 0 <==> r.is_none(),
            r matches Some(o) ==> o == prev_boundary::<Self>(
                self.bytes(),
                clamp(self.bytes(), from as int),
            ),
    ;

    /// The boundary after `from`: `None` at or past the end of the text,
    /// otherwise the least boundary above `from`.
    fn next_grapheme_offset(&self, from: usize) -> (r: Option<usize>)
        ensures
            from >= self.bytes().len() <==> r.is_none(),
            r matches Some(o) ==> o == next_boundary::<Self>(self.bytes(), from as int),
    ;

    /// A copy with the same content.
    fn duplicate(&self) -> (r: Self)
        ensures
            r.bytes() == self.bytes(),
    ;
}

/// A text held as one contiguous vector of bytes.
#[derive(Debug)]
pub struct ByteText {
    data: Vec<u8>,
}

impl View for ByteText {
    type V = Seq<u8>;

    closed spec fn view(&self) -> Seq<u8> {
        self.data@
    }
}

impl ByteText {
    /// The empty text.
    pub fn new() -> (r: Self)
        ensures
            r@ == Seq::<u8>::empty(),
    {
        ByteText { data: Vec::new() }
    }

    /// The text whose bytes are the UTF-8 encoding of `s`.
    pub fn from_str(s: &str) -> (r: Self)
        ensures
            r@ == s.spec_bytes(),
            well_formed(r@),
    {
        proof {
            encode_utf8_valid_utf8(s@);
            lemma_valid_utf8_well_formed(s.spec_bytes());
        }
        ByteText { data: slice_to_vec(s.as_bytes()) }
    }

    /// The text with the given bytes.
    pub fn from_bytes(data: Vec<u8>) -> (r: Self)
        ensures
            r@ == data@,
    {
        ByteText { data }
    }

    /// The bytes of the text.
    pub fn as_bytes(&self) -> (r: &[u8])
        ensures
            r@ == self@,
    {
        self.data.as_slice()
    }
}

impl TextElements for ByteText {
    /// A text element of a `ByteText` is one UTF-8 encoded scalar value: it
    /// begins at every byte that is no continuation byte.
    open spec fn starts_element(s: Seq<u8>, i: int) -> bool {
        0 <= i < s.len() && !in_class(s[i], ByteClass::Continuation)
    }
}

impl EditableText for ByteText {
    open spec fn bytes(&self) -> Seq<u8> {
        self@
    }

    fn len(&self) -> (n: usize) {
        self.data.len()
    }

    fn byte_at(&self, i: usize) -> (b: u8) {
        self.data[i]
    }

    fn edit(&mut self, start: usize, end: usize, text: &[u8]) {
        let ghost before = self.data@;
        let mut tail = self.data.split_off(end);
        self.data.truncate(start);
        let mut middle = slice_to_vec(text);
        self.data.append(&mut middle);
        self.data.append(&mut tail);
        assert(self.data@ =~= splice(before, start as int, end as int, text@));
    }

    fn slice(&self, start: usize, end: usize) -> (r: Option<Vec<u8>>) {
        if start <= end && end <= self.data.len() {
            let mut out: Vec<u8> = Vec::new();
            let mut i: usize = start;
            while i < end
                invariant
                    start <= i <= end <= self.data@.len(),
                    out@ == self.data@.subrange(start as int, i as int),
                decreases end - i,
            {
                out.push(self.data[i]);
                i += 1;
                assert(out@ =~= self.data@.subrange(start as int, i as int));
            }
            Some(out)
        } else {
            None
        }
    }

    fn same(&self, other: &Self) -> (r: bool) {
        if self.data.len() != other.data.len() {
            return false;
        }
        let mut i: usize = 0;
        while i < self.data.len()
            invariant
                i <= self.data@.len(),
                self.data@.len() == other.data@.len(),
                self.data@.subrange(0, i as int) == other.data@.subrange(0, i as int),
            decreases self.data@.len() - i,
        {
            if self.data[i] != other.data[i] {
                return false;
            }
            i += 1;
            assert(self.data@.subrange(0, i as int) =~= self.data@.subrange(0, i - 1).push(
                self.data@[i - 1],
            ));
            assert(other.data@.subrange(0, i as int) =~= other.data@.subrange(0, i - 1).push(
                other.data@[i - 1],
            ));
        }
        assert(self.data@ =~= self.data@.subrange(0, i as int));
        assert(other.data@ =~= other.data@.subrange(0, i as int));
        true
    }

    fn duplicate(&self) -> (r: Self) {
        ByteText { data: slice_to_vec(self.data.as_slice()) }
    }

    fn prev_grapheme_offset(&self, from: usize) -> (r: Option<usize>) {
        if from == 0 {
            return None;
        }
        let n: usize = self.data.len();
        if n == 0 {
            return Some(0);
        }
        let at: usize = if from > n {
            n
        } else {
            from
        };
        let mut i: usize = at - 1;
        while i > 0 && byte_in_class(self.data[i], ByteClass::Continuation)
            invariant
                i < at <= n,
                n == self.data@.len(),
                prev_boundary::<ByteText>(self.data@, at as int) == prev_boundary::<ByteText>(
                    self.data@,
                    i + 1,
                ),
            decreases i,
        {
            i -= 1;
        }
        Some(i)
    }

    fn next_grapheme_offset(&self, from: usize) -> (r: Option<usize>) {
        let n: usize = self.data.len();
        if from >= n {
            return None;
        }
        let mut i: usize = from + 1;
        while i < n && byte_in_class(self.data[i], ByteClass::Continuation)
            invariant
                from < i <= n,
                n == self.data@.len(),
                next_boundary::<ByteText>(self.data@, from as int) == next_boundary::<ByteText>(
                    self.data@,
                    i - 1,
                ),
            decreases n - i,
        {
            i += 1;
        }
        Some(i)
    }
}

} // verus!
