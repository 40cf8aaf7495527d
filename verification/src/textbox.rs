//! The decisions of the widget that hosts an editor: what each event does to
//! the editor, to the blinking cursor, and what it asks of the host.

use crate::action::{EditAction, MouseAction};
use crate::editor::{
    click_result, clipboard_text, delete_backward_result, drag_result, edit_result,
    insert_result, key_result, visible_cursor, visible_range, Editor, UpdateOutcome,
};
use crate::input::{bound_action, typed_text, BasicTextInput, KbKey, KeyEvent};
use crate::layout::LayoutState;
use crate::selection::Selection;
use crate::storage::EditableText;
use vstd::prelude::*;
use vstd::utf8::encode_utf8;

verus! {

/// The time in milliseconds for which the cursor stays in each half of its
/// blink.
pub const CURSOR_BLINK_MILLIS: u64 = 500;

/// The name of a timer that the host started.
#[derive(Clone, Copy, Debug, PartialEq, Eq, Structural)]
pub struct TimerToken {
    /// The host's number for the timer; 0 names no timer.
    pub id: u64,
}

/// An event that the host delivers to the widget.
#[derive(Clone, Debug)]
pub enum Event {
    /// A button went down at a position; `focus` tells that the click only
    /// brought the window to the front.
    MouseDown { mouse: MouseAction, focus: bool },
    /// The pointer moved to a position.
    MouseMove(MouseAction),
    /// A button went up.
    MouseUp,
    /// A timer fired.
    Timer(TimerToken),
    /// The copy command.
    Copy,
    /// The cut command.
    Cut,
    /// The widget's own command to restart the blinking.
    ResetBlink,
    /// A command to perform an edit.
    PerformEdit(EditAction),
    /// A paste, with the clipboard's text if it holds any.
    Paste(Option<String>),
    /// A key went down.
    KeyDown(KeyEvent),
    /// Any other event.
    Other,
}

/// What the host knows of the widget when it delivers an event.
#[derive(Clone, Copy, Debug, PartialEq, Eq, Structural)]
pub struct Context {
    /// Whether the widget holds the pointer.
    pub is_active: bool,
    /// Whether the widget has the keyboard focus.
    pub is_focused: bool,
}

/// What the widget asks of the host after an event.
#[derive(Clone, Copy, Debug, PartialEq, Eq, Structural)]
pub struct Requests {
    /// Give the widget the keyboard focus.
    pub request_focus: bool,
    /// Set whether the widget holds the pointer.
    pub set_active: Option<bool>,
    /// Repaint the widget.
    pub request_paint: bool,
    /// Start a timer that fires once after this many milliseconds, and
    /// report its token with `timer_started`.
    pub request_timer: Option<u64>,
    /// Show the text cursor shape.
    pub set_cursor: bool,
    /// Mark the event as handled.
    pub set_handled: bool,
    /// Move the focus to the next widget.
    pub focus_next: bool,
    /// Move the focus to the previous widget.
    pub focus_prev: bool,
}

/// The requests of one event together with the text for the clipboard.
#[derive(Debug)]
pub struct Reaction {
    /// What is asked of the host.
    pub requests: Requests,
    /// The text to put on the clipboard, if any.
    pub clipboard: Option<Vec<u8>>,
    /// Whether the event carried an edit that was dropped because the data
    /// was not the text that the editor last saw.
    pub dropped: bool,
}

/// An event of the widget's life cycle.
#[derive(Clone, Copy, Debug, PartialEq, Eq, Structural)]
pub enum LifeCycle {
    /// The widget was added to the tree.
    WidgetAdded,
    /// The widget gained or lost the focus.
    FocusChanged(bool),
    /// Any other event.
    Other,
}

/// What the widget asks of the host after a life-cycle event.
#[derive(Clone, Copy, Debug, PartialEq, Eq, Structural)]
pub struct LifeCycleRequests {
    /// Register the widget as one that takes the focus.
    pub register_for_focus: bool,
    /// Shape the cached text now.
    pub rebuild: bool,
    /// Send the widget its command to restart the blinking.
    pub submit_reset_blink: bool,
}

/// What is to be painted over the background.
#[derive(Clone, Copy, Debug, PartialEq, Eq)]
pub struct PaintPlan {
    /// The range of text to highlight.
    pub selection: Option<(usize, usize)>,
    /// The offset at which to draw the cursor line, where it is to be drawn.
    pub cursor: Option<usize>,
}

/// Whether the key press is tab with at most shift: it moves the focus.
pub open spec fn moves_focus(k: KeyEvent) -> bool {
    k.key == KbKey::Tab && !k.command && !k.alt
}

/// Whether the event restarts the blinking, with the cursor shown.
pub open spec fn resets_blink(event: Event) -> bool {
    match event {
        Event::MouseDown { mouse, focus } => !focus,
        Event::ResetBlink => true,
        Event::KeyDown(_) => true,
        _ => false,
    }
}

/// Whether the event is the widget's blink timer firing.
pub open spec fn is_blink(event: Event, timer: TimerToken) -> bool {
    match event {
        Event::Timer(id) => id == timer,
        _ => false,
    }
}

/// Whether the event is a copy or cut command that the widget takes.
pub open spec fn takes_clipboard(event: Event, ctx: Context) -> bool {
    ctx.is_focused && (event == Event::Copy || event == Event::Cut)
}

/// Whether the event hands an edit to the editor.
pub open spec fn dispatches_edit(event: Event, ctx: Context) -> bool {
    match event {
        Event::MouseDown { mouse, focus } => !focus,
        Event::MouseMove(_) => ctx.is_active,
        Event::PerformEdit(_) => true,
        Event::Paste(item) => item.is_some(),
        Event::KeyDown(k) => !moves_focus(k) && (typed_text(k).is_some() || bound_action(
            k,
        ).is_some()),
        _ => false,
    }
}

/// What the widget asks of the host for `event`.
pub open spec fn requests_for(event: Event, ctx: Context, timer: TimerToken) -> Requests {
    Requests {
        request_focus: event is MouseDown,
        set_active: match event {
            Event::MouseDown { mouse, focus } => Some(true),
            Event::MouseUp => if ctx.is_active {
                Some(false)
            } else {
                None
            },
            _ => None,
        },
        request_paint: match event {
            Event::MouseDown { mouse, focus } => true,
            Event::MouseMove(_) => ctx.is_active,
            Event::MouseUp => ctx.is_active,
            Event::Timer(id) => id == timer,
            Event::KeyDown(_) => true,
            _ => false,
        },
        request_timer: if resets_blink(event) || is_blink(event, timer) {
            Some(CURSOR_BLINK_MILLIS)
        } else {
            None
        },
        set_cursor: event is MouseMove,
        set_handled: takes_clipboard(event, ctx),
        focus_next: match event {
            Event::KeyDown(k) => moves_focus(k) && !k.shift,
            _ => false,
        },
        focus_prev: match event {
            Event::KeyDown(k) => moves_focus(k) && k.shift,
            _ => false,
        },
    }
}

/// Text and selection after `event`, where the text is the one that the
/// editor last saw.
pub open spec fn event_result<T: EditableText>(
    event: Event,
    ctx: Context,
    s: Seq<u8>,
    sel: Selection,
    multi_line: bool,
) -> (Seq<u8>, Selection) {
    match event {
        Event::MouseDown { mouse, focus } => if focus {
            (s, sel)
        } else {
            (s, click_result(s, sel, mouse))
        },
        Event::MouseMove(mouse) => if ctx.is_active {
            (s, drag_result(s, sel, mouse))
        } else {
            (s, sel)
        },
        Event::Cut => if ctx.is_focused {
            delete_backward_result::<T>(s, sel)
        } else {
            (s, sel)
        },
        Event::PerformEdit(edit) => edit_result::<T>(edit, s, sel, multi_line),
        Event::Paste(Some(text)) => insert_result(s, sel, encode_utf8(text@), multi_line),
        Event::KeyDown(k) => if moves_focus(k) {
            (s, sel)
        } else {
            key_result::<T>(k, s, sel, multi_line)
        },
        _ => (s, sel),
    }
}

/// A widget for text input: an editor and a cursor that blinks.
pub struct TextBox2<T> {
    editor: Editor<T>,
    cursor_timer: TimerToken,
    cursor_on: bool,
}

impl<T: EditableText> TextBox2<T> {
    /// The widget's editor.
    pub closed spec fn editor(&self) -> Editor<T> {
        self.editor
    }

    /// The token of the blink timer.
    pub closed spec fn cursor_timer(&self) -> TimerToken {
        self.cursor_timer
    }

    /// Whether the cursor is in the shown half of its blink.
    pub closed spec fn cursor_on(&self) -> bool {
        self.cursor_on
    }

    /// A multi-line text box whose cursor is hidden and has no timer.
    pub fn new() -> (r: Self)
        ensures
            r.editor().multi_line(),
            r.editor().cached().is_none(),
            r.editor().spec_selection() == (Selection { anchor: 0, end: 0 }),
            r.editor().layout_state() == LayoutState::Clean,
            r.cursor_timer() == (TimerToken { id: 0 }),
            !r.cursor_on(),
    {
        TextBox2 {
            editor: Editor::new().with_multi_line(true),
            cursor_timer: TimerToken { id: 0 },
            cursor_on: false,
        }
    }

    /// The editor, to read.
    pub fn get_editor(&self) -> (r: &Editor<T>)
        ensures
            *r == self.editor(),
    {
        &self.editor
    }

    /// Whether the cursor is in the shown half of its blink.
    pub fn is_cursor_on(&self) -> (r: bool)
        ensures
            r == self.cursor_on(),
    {
        self.cursor_on
    }

    /// Records the token of the timer that the host started on request.
    pub fn timer_started(&mut self, token: TimerToken)
        ensures
            final(self).cursor_timer() == token,
            final(self).cursor_on() == old(self).cursor_on(),
            final(self).editor() == old(self).editor(),
    {
        self.cursor_timer = token;
    }

    /// Handles `event`: applies it to the editor and `data`, sets the phase of
    /// the blink, and returns what the host is to do.
    pub fn event(&mut self, event: Event, ctx: Context, data: &mut T) -> (r: Reaction)
        ensures
            r.requests == requests_for(event, ctx, old(self).cursor_timer()),
            r.dropped == (old(self).editor().stale(old(data).bytes()) && dispatches_edit(
                event,
                ctx,
            )),
            final(self).cursor_timer() == old(self).cursor_timer(),
            final(self).cursor_on() == if resets_blink(event) {
                true
            } else if is_blink(event, old(self).cursor_timer()) {
                !old(self).cursor_on()
            } else {
                old(self).cursor_on()
            },
            final(self).editor().same_layout(&old(self).editor()),
            old(self).editor().stale(old(data).bytes()) ==> final(data).bytes() == old(
                data,
            ).bytes() && final(self).editor().spec_selection() == old(
                self,
            ).editor().spec_selection() && r.clipboard.is_none(),
            !old(self).editor().stale(old(data).bytes()) ==> (
                final(data).bytes(),
                final(self).editor().spec_selection(),
            ) == event_result::<T>(
                event,
                ctx,
                old(data).bytes(),
                old(self).editor().spec_selection(),
                old(self).editor().multi_line(),
            ) && (match r.clipboard {
                Some(v) => Some(v@),
                None => None,
            }) == (if takes_clipboard(event, ctx) {
                clipboard_text(old(self).editor().cached(), old(self).editor().spec_selection())
            } else {
                None
            }),
    {
        let mut requests = Requests {
            request_focus: false,
            set_active: None,
            request_paint: false,
            request_timer: None,
            set_cursor: false,
            set_handled: false,
            focus_next: false,
            focus_prev: false,
        };
        let mut clipboard: Option<Vec<u8>> = None;
        let stale: bool = self.editor.data_is_stale(data);
        let mut dispatched: bool = false;
        match event {
            Event::MouseDown { mouse, focus } => {
                requests.request_focus = true;
                requests.set_active = Some(true);
                if !focus {
                    self.cursor_on = true;
                    requests.request_timer = Some(CURSOR_BLINK_MILLIS);
                    dispatched = true;
                    self.editor.click(mouse, data);
                }
                requests.request_paint = true;
            },
            Event::MouseMove(mouse) => {
                requests.set_cursor = true;
                if ctx.is_active {
                    dispatched = true;
                    self.editor.drag(mouse, data);
                    requests.request_paint = true;
                }
            },
            Event::MouseUp => {
                if ctx.is_active {
                    requests.set_active = Some(false);
                    requests.request_paint = true;
                }
            },
            Event::Timer(id) => {
                if id.id == self.cursor_timer.id {
                    self.cursor_on = !self.cursor_on;
                    requests.request_paint = true;
                    requests.request_timer = Some(CURSOR_BLINK_MILLIS);
                }
            },
            Event::Copy => {
                if ctx.is_focused {
                    clipboard = self.editor.copy(data);
                    requests.set_handled = true;
                }
            },
            Event::Cut => {
                if ctx.is_focused {
                    clipboard = self.editor.cut(data);
                    requests.set_handled = true;
                }
            },
            Event::ResetBlink => {
                self.cursor_on = true;
                requests.request_timer = Some(CURSOR_BLINK_MILLIS);
            },
            Event::PerformEdit(edit) => {
                dispatched = true;
                self.editor.do_edit(edit, data);
            },
            Event::Paste(item) => {
                match item {
                    Some(string) => {
                        dispatched = true;
                        self.editor.paste(string, data);
                    },
                    None => {},
                }
            },
            Event::KeyDown(key_event) => {
                let tab: bool = match key_event.key {
                    KbKey::Tab => !key_event.command && !key_event.alt,
                    _ => false,
                };
                if tab {
                    if key_event.shift {
                        requests.focus_prev = true;
                    } else {
                        requests.focus_next = true;
                    }
                } else {
                    dispatched = BasicTextInput::new().handle_event(&key_event).is_some();
                    self.editor.key(&key_event, data);
                }
                self.cursor_on = true;
                requests.request_timer = Some(CURSOR_BLINK_MILLIS);
                requests.request_paint = true;
            },
            Event::Other => {},
        }
        Reaction { requests, clipboard, dropped: stale && dispatched }
    }

    /// Handles a life-cycle event: when the widget is added, `data` becomes
    /// the text that the editor has seen.
    pub fn lifecycle(&mut self, event: LifeCycle, data: &T) -> (r: LifeCycleRequests)
        ensures
            final(self).cursor_timer() == old(self).cursor_timer(),
            final(self).cursor_on() == old(self).cursor_on(),
            r.register_for_focus == (event == LifeCycle::WidgetAdded),
            r.rebuild == (event == LifeCycle::WidgetAdded),
            r.submit_reset_blink == (event == LifeCycle::FocusChanged(true)),
            event != LifeCycle::WidgetAdded ==> final(self).editor() == old(self).editor(),
            event == LifeCycle::WidgetAdded ==> final(self).editor().cached() == Some(data.bytes())
                && final(self).editor().spec_selection() == old(self).editor().spec_selection()
                && final(self).editor().layout_state() == LayoutState::Clean
                && final(self).editor().multi_line() == old(self).editor().multi_line()
                && final(self).editor().wrap_width() == old(self).editor().wrap_width(),
    {
        match event {
            LifeCycle::WidgetAdded => {
                self.editor.set_text(data.duplicate());
                let rebuild: bool = self.editor.rebuild_if_needed();
                LifeCycleRequests { register_for_focus: true, rebuild, submit_reset_blink: false }
            },
            LifeCycle::FocusChanged(gained) => LifeCycleRequests {
                register_for_focus: false,
                rebuild: false,
                submit_reset_blink: gained,
            },
            LifeCycle::Other => LifeCycleRequests {
                register_for_focus: false,
                rebuild: false,
                submit_reset_blink: false,
            },
        }
    }

    /// Tells the editor of the current data.
    pub fn update(&mut self, data: &T, style_changed: bool) -> (r: UpdateOutcome)
        ensures
            final(self).cursor_timer() == old(self).cursor_timer(),
            final(self).cursor_on() == old(self).cursor_on(),
            final(self).editor().cached() == Some(data.bytes()),
            final(self).editor().multi_line() == old(self).editor().multi_line(),
            final(self).editor().wrap_width() == old(self).editor().wrap_width(),
            final(self).editor().layout_state() == LayoutState::Clean,
            final(self).editor().spec_selection() == if old(self).editor().stale(data.bytes()) {
                old(self).editor().spec_selection().constrained::<T>(data.bytes())
            } else {
                old(self).editor().spec_selection()
            },
            r.repaint == (old(self).editor().stale(data.bytes()) || style_changed),
            r.rebuild == (old(self).editor().stale(data.bytes()) || style_changed || old(
                self,
            ).editor().layout_state() != LayoutState::Clean),
    {
        self.editor.update(data, style_changed)
    }

    /// Takes the width that the host allows as the wrap width. Returns
    /// whether the text has to be shaped now.
    pub fn layout(&mut self, max_width: u64) -> (r: bool)
        ensures
            final(self).cursor_timer() == old(self).cursor_timer(),
            final(self).cursor_on() == old(self).cursor_on(),
            final(self).editor().wrap_width() == max_width,
            final(self).editor().cached() == old(self).editor().cached(),
            final(self).editor().spec_selection() == old(self).editor().spec_selection(),
            final(self).editor().multi_line() == old(self).editor().multi_line(),
            r == (old(self).editor().cached().is_some() && (max_width != old(
                self,
            ).editor().wrap_width() || old(self).editor().layout_state() != LayoutState::Clean)),
            old(self).editor().cached().is_some() ==> final(self).editor().layout_state()
                == LayoutState::Clean,
    {
        self.editor.set_wrap_width(max_width);
        self.editor.rebuild_if_needed()
    }

    /// What to paint: the selected range, and the cursor where the widget is
    /// focused and the cursor is in the shown half of its blink.
    pub fn paint(&self, is_focused: bool) -> (r: PaintPlan)
        ensures
            r.selection == visible_range(self.editor().cached(), self.editor().spec_selection()),
            r.cursor == if is_focused && self.cursor_on() {
                visible_cursor(self.editor().cached(), self.editor().spec_selection())
            } else {
                None
            },
    {
        let selection: Option<(usize, usize)> = self.editor.selection_range();
        let cursor: Option<usize> = if is_focused && self.cursor_on {
            self.editor.cursor_position()
        } else {
            None
        };
        PaintPlan { selection, cursor }
    }
}

impl<T: EditableText> Default for TextBox2<T> {
    /// The same as `new`.
    fn default() -> (r: Self)
        ensures
            r.editor().multi_line(),
            r.editor().cached().is_none(),
            r.editor().spec_selection() == (Selection { anchor: 0, end: 0 }),
            r.editor().layout_state() == LayoutState::Clean,
            r.cursor_timer() == (TimerToken { id: 0 }),
            !r.cursor_on(),
    {
        TextBox2::new()
    }
}

} // verus!
