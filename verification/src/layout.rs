//! The cache of the text that was last handed to the shaping service, and the
//! record of whether that text has to be shaped again.

use crate::storage::EditableText;
use vstd::prelude::*;

verus! {

/// Why the cached text has to be shaped again.
#[derive(Clone, Copy, Debug, PartialEq, Eq, Structural)]
pub enum DirtyReason {
    /// The text was replaced.
    TextChanged,
    /// The wrap width changed.
    WidthChanged,
    /// A style that the layout depends on changed.
    StyleChanged,
}

/// Whether the shaped layout matches the cached text.
#[derive(Clone, Copy, Debug, PartialEq, Eq, Structural)]
pub enum LayoutState {
    /// The layout is that of the cached text at the current width.
    Clean,
    /// The layout is out of date.
    Dirty(DirtyReason),
}

/// The state after something of kind `reason` changed: a layout that was
/// already out of date keeps its first reason.
pub open spec fn mark(state: LayoutState, reason: DirtyReason) -> LayoutState {
    match state {
        LayoutState::Clean => LayoutState::Dirty(reason),
        LayoutState::Dirty(first) => LayoutState::Dirty(first),
    }
}

/// The width that stands for "do not wrap".
pub const UNBOUNDED_WIDTH: u64 = 0xffff_ffff_ffff_ffff;

/// A snapshot of the text together with the state of its layout.
pub struct TextLayout<T> {
    text: Option<T>,
    wrap_width: u64,
    state: LayoutState,
}

impl<T: EditableText> TextLayout<T> {
    /// The bytes of the cached text, if any text was set.
    pub closed spec fn cached(&self) -> Option<Seq<u8>> {
        match self.text {
            Some(t) => Some(t.bytes()),
            None => None,
        }
    }

    /// The state of the layout.
    pub closed spec fn state(&self) -> LayoutState {
        self.state
    }

    /// The width at which lines wrap.
    pub closed spec fn width(&self) -> u64 {
        self.wrap_width
    }

    /// Whether the shaping service has work to do: there is text and its
    /// layout is out of date.
    pub open spec fn spec_needs_rebuild(&self) -> bool {
        self.cached().is_some() && self.state() != LayoutState::Clean
    }

    /// A cache without text, which wraps nowhere.
    pub fn new() -> (r: Self)
        ensures
            r.cached().is_none(),
            r.state() == LayoutState::Clean,
            r.width() == UNBOUNDED_WIDTH,
    {
        TextLayout { text: None, wrap_width: UNBOUNDED_WIDTH, state: LayoutState::Clean }
    }

    /// Stores `text` as the snapshot and marks the layout out of date.
    pub fn set_text(&mut self, text: T)
        ensures
            final(self).cached() == Some(text.bytes()),
            final(self).state() == LayoutState::Dirty(DirtyReason::TextChanged),
            final(self).width() == old(self).width(),
    {
        self.text = Some(text);
        self.state = LayoutState::Dirty(DirtyReason::TextChanged);
    }

    /// Sets the width at which lines wrap. A width that differs from the
    /// current one marks the layout out of date.
    pub fn set_wrap_width(&mut self, width: u64)
        ensures
            final(self).width() == width,
            final(self).cached() == old(self).cached(),
            final(self).state() == if width == old(self).width() {
                old(self).state()
            } else {
                mark(old(self).state(), DirtyReason::WidthChanged)
            },
    {
        if width != self.wrap_width {
            self.wrap_width = width;
            self.mark_dirty(DirtyReason::WidthChanged);
        }
    }

    fn mark_dirty(&mut self, reason: DirtyReason)
        ensures
            final(self).width() == old(self).width(),
            final(self).cached() == old(self).cached(),
            final(self).state() == mark(old(self).state(), reason),
    {
        match self.state {
            LayoutState::Clean => {
                self.state = LayoutState::Dirty(reason);
            },
            LayoutState::Dirty(_) => {},
        }
    }

    /// The cached text: `None` only before the first `set_text`.
    pub fn text(&self) -> (r: Option<&T>)
        ensures
            r.is_some() == self.cached().is_some(),
            r matches Some(t) ==> self.cached() == Some(t.bytes()),
    {
        self.text.as_ref()
    }

    /// The current wrap width.
    pub fn wrap_width(&self) -> (r: u64)
        ensures
            r == self.width(),
    {
        self.wrap_width
    }

    /// The current state of the layout.
    pub fn layout_state(&self) -> (r: LayoutState)
        ensures
            r == self.state(),
    {
        self.state
    }

    /// Whether the shaping service has work to do.
    #[verifier::when_used_as_spec(spec_needs_rebuild)]
    pub fn needs_rebuild(&self) -> (r: bool)
        ensures
            r == self.spec_needs_rebuild(),
    {
        let dirty: bool = match self.state {
            LayoutState::Clean => false,
            LayoutState::Dirty(_) => true,
        };
        self.text.is_some() && dirty
    }

    /// Records a change of the environment. Returns whether the layout has to
    /// be rebuilt on its account, and marks it out of date if so.
    pub fn needs_rebuild_after_update(&mut self, style_changed: bool) -> (r: bool)
        ensures
            r == style_changed,
            final(self).width() == old(self).width(),
            final(self).cached() == old(self).cached(),
            final(self).state() == if style_changed {
                mark(old(self).state(), DirtyReason::StyleChanged)
            } else {
                old(self).state()
            },
    {
        if style_changed {
            self.mark_dirty(DirtyReason::StyleChanged);
        }
        style_changed
    }

    /// Returns whether the text has to be shaped now, and records that this is
    /// being done. A second call without a change in between returns `false`.
    pub fn rebuild_if_needed(&mut self) -> (r: bool)
        ensures
            r == old(self).spec_needs_rebuild(),
            final(self).width() == old(self).width(),
            final(self).cached() == old(self).cached(),
            final(self).state() == if r {
                LayoutState::Clean
            } else {
                old(self).state()
            },
            !final(self).spec_needs_rebuild(),
    {
        if self.needs_rebuild() {
            self.state = LayoutState::Clean;
            true
        } else {
            false
        }
    }

    /// The range `[start, end)` brought into the cached text, for a geometry
    /// query: `None` while there is no text.
    pub fn clamp_range(&self, start: usize, end: usize) -> (r: Option<(usize, usize)>)
        ensures
            r.is_some() == self.cached().is_some(),
            r matches Some(p) ==> self.cached() matches Some(s) && p.1 == (if end <= s.len() {
                end as int
            } else {
                s.len() as int
            }) && p.0 == (if start <= p.1 {
                start
            } else {
                p.1
            }),
    {
        match &self.text {
            Some(t) => {
                let n: usize = t.len();
                let hi: usize = if end <= n {
                    end
                } else {
                    n
                };
                let lo: usize = if start <= hi {
                    start
                } else {
                    hi
                };
                Some((lo, hi))
            },
            None => None,
        }
    }
}

} // verus!
