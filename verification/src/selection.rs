//! A caret or a range of text, as a pair of byte offsets.

use crate::boundary::{
    clamp, clamp_offset, is_boundary, lemma_next_boundary, lemma_prev_boundary, next_boundary,
    prev_boundary,
};
use crate::storage::EditableText;
use vstd::prelude::*;

verus! {

/// A selection: the offset where it was started and the offset of the caret.
#[derive(Clone, Copy, Debug, PartialEq, Eq, Structural)]
pub struct Selection {
    /// The end that stays while the selection is extended.
    pub anchor: usize,
    /// The active end, where the caret is drawn.
    pub end: usize,
}

/// The boundary of `s` nearest to `o`: `o` itself, clamped to the text, where
/// that is a boundary; otherwise the nearer of the boundaries on either side,
/// the lower one where both are equally near.
pub open spec fn snap<T: EditableText>(s: Seq<u8>, o: int) -> int {
    let c = clamp(s, o);
    if is_boundary::<T>(s, c) {
        c
    } else {
        let lo = prev_boundary::<T>(s, c);
        let hi = next_boundary::<T>(s, c);
        if c - lo <= hi - c {
            lo
        } else {
            hi
        }
    }
}

/// A snapped offset is a boundary of the text.
pub proof fn lemma_snap_is_boundary<T: EditableText>(s: Seq<u8>, o: int)
    requires
        0 <= o,
    ensures
        is_boundary::<T>(s, snap::<T>(s, o)),
        0 <= snap::<T>(s, o) <= s.len(),
{
    let c = clamp(s, o);
    if !is_boundary::<T>(s, c) {
        lemma_prev_boundary::<T>(s, c);
        lemma_next_boundary::<T>(s, c);
    }
}

/// The boundary of `text` nearest to `o`.
pub fn snap_offset<T: EditableText>(text: &T, o: usize) -> (r: usize)
    ensures
        r == snap::<T>(text.bytes(), o as int),
        is_boundary::<T>(text.bytes(), r as int),
{
    let n: usize = text.len();
    let c: usize = clamp_offset(text, o);
    proof {
        lemma_snap_is_boundary::<T>(text.bytes(), o as int);
    }
    if c == 0 || c == n {
        return c;
    }
    let lo: usize = match text.prev_grapheme_offset(c) {
        Some(p) => p,
        None => 0,
    };
    proof {
        lemma_prev_boundary::<T>(text.bytes(), c as int);
    }
    let hi: usize = match text.next_grapheme_offset(lo) {
        Some(p) => p,
        None => n,
    };
    proof {
        let s = text.bytes();
        lemma_next_boundary::<T>(s, lo as int);
        lemma_next_boundary::<T>(s, c as int);
        let above = next_boundary::<T>(s, c as int);
        if hi != c {
            if is_boundary::<T>(s, c as int) {
                assert(hi < c);
                assert(!is_boundary::<T>(s, hi as int));
            }
            assert(hi > c) by {
                if hi < c {
                    assert(!is_boundary::<T>(s, hi as int));
                }
            }
            if above < hi {
                assert(!is_boundary::<T>(s, above));
            }
            if hi < above {
                assert(!is_boundary::<T>(s, hi as int));
            }
        }
    }
    if hi == c {
        c
    } else if c - lo <= hi - c {
        lo
    } else {
        hi
    }
}

impl Selection {
    /// Whether the selection is a caret: both ends at one offset.
    pub open spec fn spec_is_caret(&self) -> bool {
        self.anchor == self.end
    }

    /// The lower of the two offsets.
    pub open spec fn spec_min(&self) -> usize {
        if self.anchor <= self.end {
            self.anchor
        } else {
            self.end
        }
    }

    /// The higher of the two offsets.
    pub open spec fn spec_max(&self) -> usize {
        if self.anchor <= self.end {
            self.end
        } else {
            self.anchor
        }
    }

    /// Whether both offsets lie within a text of `len` bytes.
    pub open spec fn within(&self, len: nat) -> bool {
        self.anchor <= len && self.end <= len
    }

    /// The selection with each offset snapped to the nearest boundary of `s`.
    pub open spec fn constrained<T: EditableText>(&self, s: Seq<u8>) -> Selection {
        Selection {
            anchor: snap::<T>(s, self.anchor as int) as usize,
            end: snap::<T>(s, self.end as int) as usize,
        }
    }

    /// A selection from `anchor` to `end`.
    pub fn new(anchor: usize, end: usize) -> (r: Self)
        ensures
            r == (Selection { anchor, end }),
    {
        Selection { anchor, end }
    }

    /// A caret at `offset`.
    pub fn caret(offset: usize) -> (r: Self)
        ensures
            r == (Selection { anchor: offset, end: offset }),
            r.spec_is_caret(),
    {
        Selection { anchor: offset, end: offset }
    }

    /// Whether the selection is a caret.
    #[verifier::when_used_as_spec(spec_is_caret)]
    pub fn is_caret(&self) -> (r: bool)
        ensures
            r == self.spec_is_caret(),
    {
        self.anchor == self.end
    }

    /// The lower of the two offsets.
    #[verifier::when_used_as_spec(spec_min)]
    pub fn min(&self) -> (r: usize)
        ensures
            r == self.spec_min(),
    {
        if self.anchor <= self.end {
            self.anchor
        } else {
            self.end
        }
    }

    /// The higher of the two offsets.
    #[verifier::when_used_as_spec(spec_max)]
    pub fn max(&self) -> (r: usize)
        ensures
            r == self.spec_max(),
    {
        if self.anchor <= self.end {
            self.end
        } else {
            self.anchor
        }
    }

    /// The half-open range of bytes that the selection covers.
    pub fn range(&self) -> (r: (usize, usize))
        ensures
            r.0 == self.spec_min(),
            r.1 == self.spec_max(),
    {
        (self.min(), self.max())
    }

    /// Brings both offsets into `text`, each to the boundary nearest to it.
    pub fn constrain_to<T: EditableText>(&mut self, text: &T)
        ensures
            *final(self) == old(self).constrained::<T>(text.bytes()),
            final(self).within(text.bytes().len()),
            is_boundary::<T>(text.bytes(), final(self).anchor as int),
            is_boundary::<T>(text.bytes(), final(self).end as int),
    {
        let anchor: usize = snap_offset(text, self.anchor);
        let end: usize = snap_offset(text, self.end);
        self.anchor = anchor;
        self.end = end;
    }
}

/// Constraining a caret that stands on a boundary of the text, or past its
/// end, leaves it where it is if it is within the text, and otherwise puts
/// it at the end of the text.
pub proof fn lemma_constrain_caret<T: EditableText>(s: Seq<u8>, sel: Selection)
    requires
        s.len() <= usize::MAX,
        sel.spec_is_caret(),
        sel.end <= s.len() ==> is_boundary::<T>(s, sel.end as int),
    ensures
        sel.end <= s.len() ==> sel.constrained::<T>(s) == sel,
        sel.end > s.len() ==> sel.constrained::<T>(s) == (Selection {
            anchor: s.len() as usize,
            end: s.len() as usize,
        }),
{
}

} // verus!
