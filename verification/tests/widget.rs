use text_editor::action::{EditAction, MouseAction};
use text_editor::editor::Editor;
use text_editor::input::{BasicTextInput, KbKey, KeyEvent};
use text_editor::movement::Movement;
use text_editor::selection::Selection;
use text_editor::storage::{ByteText, EditableText};
use text_editor::textbox::{
    Context, Event, LifeCycle, LifeCycleRequests, Requests, TextBox2, TimerToken,
    CURSOR_BLINK_MILLIS,
};

fn press(key: KbKey, shift: bool, command: bool, alt: bool) -> KeyEvent {
    KeyEvent { key, shift, command, alt }
}

fn plain(key: KbKey) -> KeyEvent {
    press(key, false, false, false)
}

fn quiet() -> Requests {
    Requests {
        request_focus: false,
        set_active: None,
        request_paint: false,
        request_timer: None,
        set_cursor: false,
        set_handled: false,
        focus_next: false,
        focus_prev: false,
    }
}

fn focused() -> Context {
    Context { is_active: false, is_focused: true }
}

fn added(text: &str) -> (TextBox2<ByteText>, ByteText) {
    let data = ByteText::from_str(text);
    let mut widget = TextBox2::new();
    widget.lifecycle(LifeCycle::WidgetAdded, &data);
    (widget, data)
}

fn decoded(event: KeyEvent) -> String {
    format!("{:?}", BasicTextInput::new().handle_event(&event))
}

fn expected(action: Option<EditAction>) -> String {
    format!("{:?}", action)
}

#[test]
fn key_bindings_for_movement() {
    assert_eq!(decoded(plain(KbKey::ArrowLeft)), expected(Some(EditAction::Move(Movement::Left))));
    assert_eq!(decoded(plain(KbKey::ArrowRight)), expected(Some(EditAction::Move(Movement::Right))));
    assert_eq!(
        decoded(press(KbKey::ArrowLeft, true, false, false)),
        expected(Some(EditAction::ModifySelection(Movement::Left)))
    );
    assert_eq!(
        decoded(press(KbKey::ArrowRight, false, true, false)),
        expected(Some(EditAction::Move(Movement::RightWord)))
    );
    assert_eq!(
        decoded(press(KbKey::ArrowLeft, true, true, false)),
        expected(Some(EditAction::ModifySelection(Movement::LeftWord)))
    );
    assert_eq!(decoded(press(KbKey::ArrowLeft, false, false, true)), expected(None));
    assert_eq!(
        decoded(plain(KbKey::Home)),
        expected(Some(EditAction::Move(Movement::PrecedingLineBreak)))
    );
    assert_eq!(
        decoded(press(KbKey::End, true, false, false)),
        expected(Some(EditAction::ModifySelection(Movement::NextLineBreak)))
    );
    assert_eq!(decoded(press(KbKey::Home, false, true, false)), expected(None));
}

#[test]
fn key_bindings_for_deleting_and_typing() {
    assert_eq!(decoded(plain(KbKey::Backspace)), expected(Some(EditAction::Backspace)));
    assert_eq!(decoded(plain(KbKey::Delete)), expected(Some(EditAction::Delete)));
    assert_eq!(
        decoded(press(KbKey::Backspace, false, true, false)),
        expected(Some(EditAction::JumpBackspace(Movement::LeftWord)))
    );
    assert_eq!(
        decoded(press(KbKey::Delete, false, true, false)),
        expected(Some(EditAction::JumpDelete(Movement::RightWord)))
    );
    assert_eq!(decoded(press(KbKey::Delete, true, false, false)), expected(None));
    assert_eq!(
        decoded(plain(KbKey::Character("q".to_string()))),
        expected(Some(EditAction::Insert("q".to_string())))
    );
    assert_eq!(
        decoded(press(KbKey::Character("Q".to_string()), true, false, false)),
        expected(Some(EditAction::Insert("Q".to_string())))
    );
    assert_eq!(decoded(press(KbKey::Character("c".to_string()), false, true, false)), expected(None));
    assert_eq!(decoded(plain(KbKey::Tab)), expected(None));
    assert_eq!(decoded(plain(KbKey::Other)), expected(None));
}

#[test]
fn editor_key_applies_the_bound_action() {
    let mut data = ByteText::from_str("one two");
    let mut editor: Editor<ByteText> = Editor::new();
    editor.set_text(data.duplicate());
    editor.key(&plain(KbKey::End), &mut data);
    assert_eq!(*editor.selection(), Selection::caret(7));
    editor.key(&press(KbKey::Backspace, false, true, false), &mut data);
    assert_eq!(data.as_bytes(), b"one ");
    assert_eq!(*editor.selection(), Selection::caret(4));
    editor.update(&data, false);
    editor.key(&plain(KbKey::Character("x".to_string())), &mut data);
    assert_eq!(data.as_bytes(), b"one x");
    editor.key(&plain(KbKey::Character("y".to_string())), &mut data);
    assert_eq!(data.as_bytes(), b"one x");
    editor.update(&data, false);
    editor.key(&plain(KbKey::Other), &mut data);
    assert_eq!(data.as_bytes(), b"one x");
    assert_eq!(*editor.selection(), Selection::caret(5));
}

#[test]
fn new_text_box_is_multi_line_and_dark() {
    let widget: TextBox2<ByteText> = TextBox2::new();
    assert!(!widget.is_cursor_on());
    assert!(widget.get_editor().text().is_none());
    let (mut widget, mut data) = added("");
    widget.event(Event::PerformEdit(EditAction::Insert("a\nb".to_string())), focused(), &mut data);
    assert_eq!(data.as_bytes(), b"a\nb");
}

#[test]
fn lifecycle_requests() {
    let data = ByteText::from_str("abc");
    let mut widget: TextBox2<ByteText> = TextBox2::new();
    assert_eq!(
        widget.lifecycle(LifeCycle::WidgetAdded, &data),
        LifeCycleRequests { register_for_focus: true, rebuild: true, submit_reset_blink: false }
    );
    assert!(!widget.get_editor().data_is_stale(&data));
    assert_eq!(
        widget.lifecycle(LifeCycle::FocusChanged(true), &data),
        LifeCycleRequests { register_for_focus: false, rebuild: false, submit_reset_blink: true }
    );
    assert_eq!(
        widget.lifecycle(LifeCycle::FocusChanged(false), &data),
        LifeCycleRequests { register_for_focus: false, rebuild: false, submit_reset_blink: false }
    );
    assert_eq!(
        widget.lifecycle(LifeCycle::Other, &data),
        LifeCycleRequests { register_for_focus: false, rebuild: false, submit_reset_blink: false }
    );
}

#[test]
fn mouse_down_clicks_unless_it_only_focused_the_window() {
    let (mut widget, mut data) = added("hello");
    let mouse = MouseAction { row: 0, column: 3, shift: false };
    let reaction = widget.event(Event::MouseDown { mouse, focus: true }, focused(), &mut data);
    assert_eq!(
        reaction.requests,
        Requests { request_focus: true, set_active: Some(true), request_paint: true, ..quiet() }
    );
    assert_eq!(*widget.get_editor().selection(), Selection::caret(0));
    assert!(!widget.is_cursor_on());

    let reaction = widget.event(Event::MouseDown { mouse, focus: false }, focused(), &mut data);
    assert_eq!(
        reaction.requests,
        Requests {
            request_focus: true,
            set_active: Some(true),
            request_paint: true,
            request_timer: Some(500),
            ..quiet()
        }
    );
    assert_eq!(*widget.get_editor().selection(), Selection::caret(3));
    assert!(widget.is_cursor_on());
}

#[test]
fn mouse_move_drags_only_while_active() {
    let (mut widget, mut data) = added("hello");
    let mouse = MouseAction { row: 0, column: 3, shift: false };
    let reaction = widget.event(Event::MouseMove(mouse), focused(), &mut data);
    assert_eq!(reaction.requests, Requests { set_cursor: true, ..quiet() });
    assert_eq!(*widget.get_editor().selection(), Selection::caret(0));
    let active = Context { is_active: true, is_focused: true };
    let reaction = widget.event(Event::MouseMove(mouse), active, &mut data);
    assert_eq!(reaction.requests, Requests { set_cursor: true, request_paint: true, ..quiet() });
    assert_eq!(*widget.get_editor().selection(), Selection::new(0, 3));
    let reaction = widget.event(Event::MouseUp, active, &mut data);
    assert_eq!(
        reaction.requests,
        Requests { set_active: Some(false), request_paint: true, ..quiet() }
    );
    let reaction = widget.event(Event::MouseUp, focused(), &mut data);
    assert_eq!(reaction.requests, quiet());
}

#[test]
fn only_the_blink_timer_toggles_the_cursor() {
    let (mut widget, mut data) = added("hello");
    let reaction = widget.event(Event::ResetBlink, focused(), &mut data);
    assert_eq!(reaction.requests, Requests { request_timer: Some(500), ..quiet() });
    assert!(widget.is_cursor_on());
    widget.timer_started(TimerToken { id: 7 });

    let reaction = widget.event(Event::Timer(TimerToken { id: 8 }), focused(), &mut data);
    assert_eq!(reaction.requests, quiet());
    assert!(widget.is_cursor_on());

    let reaction = widget.event(Event::Timer(TimerToken { id: 7 }), focused(), &mut data);
    assert_eq!(
        reaction.requests,
        Requests { request_paint: true, request_timer: Some(500), ..quiet() }
    );
    assert!(!widget.is_cursor_on());
    let _ = widget.event(Event::Timer(TimerToken { id: 7 }), focused(), &mut data);
    assert!(widget.is_cursor_on());
}

#[test]
fn copy_and_cut_need_the_focus() {
    let (mut widget, mut data) = added("hello");
    let active = Context { is_active: true, is_focused: false };
    widget.event(
        Event::MouseDown { mouse: MouseAction { row: 0, column: 1, shift: false }, focus: false },
        active,
        &mut data,
    );
    widget.event(Event::MouseMove(MouseAction { row: 0, column: 4, shift: false }), active, &mut data);

    let reaction = widget.event(Event::Copy, active, &mut data);
    assert_eq!(reaction.requests, quiet());
    assert_eq!(reaction.clipboard, None);
    let reaction = widget.event(Event::Cut, active, &mut data);
    assert_eq!(reaction.clipboard, None);
    assert_eq!(data.as_bytes(), b"hello");

    let reaction = widget.event(Event::Copy, focused(), &mut data);
    assert_eq!(reaction.requests, Requests { set_handled: true, ..quiet() });
    assert_eq!(reaction.clipboard, Some(b"ell".to_vec()));
    let reaction = widget.event(Event::Cut, focused(), &mut data);
    assert_eq!(reaction.requests, Requests { set_handled: true, ..quiet() });
    assert_eq!(reaction.clipboard, Some(b"ell".to_vec()));
    assert_eq!(data.as_bytes(), b"ho");
}

#[test]
fn copy_and_cut_on_stale_data_put_nothing_on_the_clipboard() {
    let (mut widget, mut data) = added("hello");
    let active = Context { is_active: true, is_focused: true };
    widget.event(Event::MouseMove(MouseAction { row: 0, column: 4, shift: false }), active, &mut data);
    let mut changed = ByteText::from_str("help");
    let reaction = widget.event(Event::Copy, focused(), &mut changed);
    assert_eq!(reaction.clipboard, None);
    let reaction = widget.event(Event::Cut, focused(), &mut changed);
    assert_eq!(reaction.clipboard, None);
    assert_eq!(changed.as_bytes(), b"help");
    assert_eq!(*widget.get_editor().selection(), Selection::new(0, 4));
}

#[test]
fn paste_and_keys_edit_the_text() {
    let (mut widget, mut data) = added("");
    let reaction = widget.event(Event::Paste(Some("abc".to_string())), focused(), &mut data);
    assert_eq!(reaction.requests, quiet());
    assert_eq!(data.as_bytes(), b"abc");
    widget.update(&data, false);
    let reaction = widget.event(Event::Paste(None), focused(), &mut data);
    assert_eq!(reaction.requests, quiet());
    assert_eq!(data.as_bytes(), b"abc");

    let reaction = widget.event(Event::KeyDown(plain(KbKey::Backspace)), focused(), &mut data);
    assert_eq!(
        reaction.requests,
        Requests { request_paint: true, request_timer: Some(500), ..quiet() }
    );
    assert_eq!(data.as_bytes(), b"ab");
    assert!(widget.is_cursor_on());
}

#[test]
fn tab_moves_the_focus() {
    let (mut widget, mut data) = added("abc");
    let reaction = widget.event(Event::KeyDown(plain(KbKey::Tab)), focused(), &mut data);
    assert_eq!(
        reaction.requests,
        Requests { focus_next: true, request_paint: true, request_timer: Some(500), ..quiet() }
    );
    let reaction =
        widget.event(Event::KeyDown(press(KbKey::Tab, true, false, false)), focused(), &mut data);
    assert_eq!(
        reaction.requests,
        Requests { focus_prev: true, request_paint: true, request_timer: Some(500), ..quiet() }
    );
    let reaction =
        widget.event(Event::KeyDown(press(KbKey::Tab, false, true, false)), focused(), &mut data);
    assert_eq!(
        reaction.requests,
        Requests { request_paint: true, request_timer: Some(500), ..quiet() }
    );
    assert_eq!(data.as_bytes(), b"abc");
    let reaction = widget.event(Event::Other, focused(), &mut data);
    assert_eq!(reaction.requests, quiet());
}

#[test]
fn layout_and_update_report_when_to_shape() {
    let (mut widget, data) = added("abc");
    assert!(widget.layout(200));
    assert!(!widget.layout(200));
    assert!(widget.layout(100));
    let outcome = widget.update(&data, false);
    assert!(!outcome.repaint);
    assert!(!outcome.rebuild);
    let outcome = widget.update(&ByteText::from_str("abcd"), false);
    assert!(outcome.repaint);
    assert!(outcome.rebuild);
}

#[test]
fn paint_plan() {
    let widget: TextBox2<ByteText> = TextBox2::new();
    let plan = widget.paint(true);
    assert_eq!(plan.selection, None);
    assert_eq!(plan.cursor, None);

    let (mut widget, mut data) = added("hello");
    let active = Context { is_active: true, is_focused: true };
    widget.event(
        Event::MouseDown { mouse: MouseAction { row: 0, column: 1, shift: false }, focus: false },
        active,
        &mut data,
    );
    widget.event(Event::MouseMove(MouseAction { row: 0, column: 4, shift: false }), active, &mut data);
    let plan = widget.paint(true);
    assert_eq!(plan.selection, Some((1, 4)));
    assert_eq!(plan.cursor, Some(4));
    assert_eq!(widget.paint(false).cursor, None);
    assert_eq!(widget.get_editor().selection_range(), Some((1, 4)));
    assert_eq!(widget.get_editor().cursor_position(), Some(4));
}

#[test]
fn blink_period_is_half_a_second() {
    assert_eq!(CURSOR_BLINK_MILLIS, 500);
    let (mut widget, mut data) = added("hello");
    widget.timer_started(TimerToken { id: 3 });
    let reaction = widget.event(Event::Timer(TimerToken { id: 3 }), focused(), &mut data);
    assert_eq!(reaction.requests.request_timer, Some(500));
    assert!(reaction.requests.request_paint);
    assert!(widget.is_cursor_on());
    assert_eq!(data.as_bytes(), b"hello");
    assert_eq!(*widget.get_editor().selection(), Selection::caret(0));
}

#[test]
fn widget_added_leaves_the_selection_alone() {
    let (mut widget, mut data) = added("hello");
    let mouse = MouseAction { row: 0, column: 4, shift: false };
    widget.event(Event::MouseDown { mouse, focus: false }, focused(), &mut data);
    let shorter = ByteText::from_str("h");
    widget.lifecycle(LifeCycle::WidgetAdded, &shorter);
    assert_eq!(*widget.get_editor().selection(), Selection::caret(4));
    assert!(!widget.get_editor().data_is_stale(&shorter));
}

#[test]
fn only_dispatched_edits_are_reported_as_dropped() {
    let (mut widget, _) = added("hello");
    let mut changed = ByteText::from_str("help");
    let active = Context { is_active: true, is_focused: true };
    let mouse = MouseAction { row: 0, column: 1, shift: false };
    assert!(widget.event(Event::PerformEdit(EditAction::Backspace), active, &mut changed).dropped);
    assert!(widget.event(Event::Paste(Some("x".to_string())), active, &mut changed).dropped);
    assert!(widget.event(Event::MouseDown { mouse, focus: false }, active, &mut changed).dropped);
    assert!(widget.event(Event::MouseMove(mouse), active, &mut changed).dropped);
    assert!(widget.event(Event::KeyDown(plain(KbKey::Delete)), active, &mut changed).dropped);
    assert!(!widget.event(Event::KeyDown(plain(KbKey::Other)), active, &mut changed).dropped);
    assert!(!widget.event(Event::KeyDown(plain(KbKey::Tab)), active, &mut changed).dropped);
    assert!(!widget.event(Event::MouseDown { mouse, focus: true }, active, &mut changed).dropped);
    assert!(!widget.event(Event::MouseMove(mouse), focused(), &mut changed).dropped);
    assert!(!widget.event(Event::Paste(None), active, &mut changed).dropped);
    assert!(!widget.event(Event::MouseUp, active, &mut changed).dropped);
    assert!(!widget.event(Event::Timer(TimerToken { id: 0 }), active, &mut changed).dropped);
    assert!(!widget.event(Event::Copy, active, &mut changed).dropped);
    assert!(!widget.event(Event::Cut, active, &mut changed).dropped);
    assert_eq!(changed.as_bytes(), b"help");
    let mut same = ByteText::from_str("hello");
    assert!(!widget.event(Event::PerformEdit(EditAction::Backspace), active, &mut same).dropped);
}
