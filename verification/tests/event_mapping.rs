//! Tests for the pure window-event mapper and the text filter.

use winit_window::event::{
    filter_text, map_keyboard_input, map_window_event, Button, ButtonArgs, ButtonState, Event,
    FileDrag, Motion, RawKeyEvent, RawScroll, RawWindowEvent,
};
use winit_window::keys::{Key, KeyboardIgnoreModifiers, RawKey, RawNamedKey};
use winit_window::mouse::{MouseButton, RawMouseButton};

fn press(c: char) -> RawKeyEvent {
    RawKeyEvent {
        key: RawKey::Character(c),
        pressed: true,
        repeat: false,
        scancode: Some(30),
        text: None,
    }
}

fn release(c: char) -> RawKeyEvent {
    RawKeyEvent {
        key: RawKey::Character(c),
        pressed: false,
        repeat: false,
        scancode: Some(30),
        text: None,
    }
}

#[test]
fn resize_maps_structurally() {
    let kim = KeyboardIgnoreModifiers::Keep;
    let mut last = None;
    let r = map_window_event(RawWindowEvent::Resized { width: 800, height: 600 }, kim, &mut last);
    assert_eq!(r, Some(Event::Resize { width: 800, height: 600 }));
}

#[test]
fn focus_cursor_and_close_map_structurally() {
    let kim = KeyboardIgnoreModifiers::Keep;
    let mut last = None;
    assert_eq!(
        map_window_event(RawWindowEvent::Focused(true), kim, &mut last),
        Some(Event::Focus(true))
    );
    assert_eq!(
        map_window_event(RawWindowEvent::CursorEntered, kim, &mut last),
        Some(Event::Cursor(true))
    );
    assert_eq!(
        map_window_event(RawWindowEvent::CursorLeft, kim, &mut last),
        Some(Event::Cursor(false))
    );
    assert_eq!(
        map_window_event(RawWindowEvent::CloseRequested, kim, &mut last),
        Some(Event::Close)
    );
    assert_eq!(
        map_window_event(RawWindowEvent::Destroyed, kim, &mut last),
        Some(Event::Close)
    );
}

#[test]
fn scroll_representations_normalize_to_one_shape() {
    let kim = KeyboardIgnoreModifiers::Keep;
    let mut last = None;
    assert_eq!(
        map_window_event(
            RawWindowEvent::MouseWheel(RawScroll::Pixel { x: 3, y: -7 }),
            kim,
            &mut last
        ),
        Some(Event::Move(Motion::MouseScroll { x: 3, y: -7 }))
    );
    assert_eq!(
        map_window_event(
            RawWindowEvent::MouseWheel(RawScroll::Line { x: 0, y: 1 }),
            kim,
            &mut last
        ),
        Some(Event::Move(Motion::MouseScroll { x: 0, y: 1 }))
    );
}

#[test]
fn mouse_input_maps_to_button_event() {
    let kim = KeyboardIgnoreModifiers::Keep;
    let mut last = None;
    let r = map_window_event(
        RawWindowEvent::MouseInput { pressed: true, button: RawMouseButton::Left },
        kim,
        &mut last,
    );
    assert_eq!(
        r,
        Some(Event::Button(ButtonArgs {
            state: ButtonState::Press,
            button: Button::Mouse(MouseButton::Left),
            scancode: None,
        }))
    );
}

#[test]
fn file_drag_carries_the_path() {
    let kim = KeyboardIgnoreModifiers::Keep;
    let mut last = None;
    assert_eq!(
        map_window_event(RawWindowEvent::DroppedFile(String::from("/tmp/a.txt")), kim, &mut last),
        Some(Event::FileDrag(FileDrag::Drop(String::from("/tmp/a.txt"))))
    );
    assert_eq!(
        map_window_event(RawWindowEvent::HoveredFile(String::from("b")), kim, &mut last),
        Some(Event::FileDrag(FileDrag::Hover(String::from("b"))))
    );
    assert_eq!(
        map_window_event(RawWindowEvent::HoveredFileCancelled, kim, &mut last),
        Some(Event::FileDrag(FileDrag::Cancel))
    );
}

#[test]
fn unmapped_categories_produce_no_event() {
    let kim = KeyboardIgnoreModifiers::Keep;
    let mut last = None;
    assert_eq!(map_window_event(RawWindowEvent::Moved { x: 1, y: 2 }, kim, &mut last), None);
    assert_eq!(map_window_event(RawWindowEvent::Ignored, kim, &mut last), None);
    assert_eq!(map_window_event(RawWindowEvent::RedrawRequested, kim, &mut last), None);
}

#[test]
fn cursor_move_maps_to_absolute_motion() {
    let kim = KeyboardIgnoreModifiers::Keep;
    let mut last = None;
    assert_eq!(
        map_window_event(RawWindowEvent::CursorMoved { x: 12, y: -5 }, kim, &mut last),
        Some(Event::Move(Motion::MouseCursor { x: 12, y: -5 }))
    );
}

#[test]
fn repeated_press_is_suppressed_until_release() {
    let kim = KeyboardIgnoreModifiers::Keep;
    let mut last = None;
    let first = map_keyboard_input(&press('a'), kim, &mut last);
    assert_eq!(
        first,
        Some(Event::Button(ButtonArgs {
            state: ButtonState::Press,
            button: Button::Keyboard(Key::A),
            scancode: Some(30),
        }))
    );
    assert_eq!(last, Some(Key::A));
    let second = map_keyboard_input(&press('a'), kim, &mut last);
    assert_eq!(second, None);
    assert_eq!(last, Some(Key::A));
    let released = map_keyboard_input(&release('a'), kim, &mut last);
    assert_eq!(
        released,
        Some(Event::Button(ButtonArgs {
            state: ButtonState::Release,
            button: Button::Keyboard(Key::A),
            scancode: Some(30),
        }))
    );
    assert_eq!(last, None);
    let third = map_keyboard_input(&press('a'), kim, &mut last);
    assert!(third.is_some());
}

#[test]
fn release_of_another_key_keeps_the_marker() {
    let kim = KeyboardIgnoreModifiers::Keep;
    let mut last = None;
    let _ = map_keyboard_input(&press('a'), kim, &mut last);
    let _ = map_keyboard_input(&release('b'), kim, &mut last);
    assert_eq!(last, Some(Key::A));
}

#[test]
fn pressing_a_different_key_replaces_the_marker() {
    let kim = KeyboardIgnoreModifiers::Keep;
    let mut last = None;
    let _ = map_keyboard_input(&press('a'), kim, &mut last);
    let second = map_keyboard_input(&press('b'), kim, &mut last);
    assert!(second.is_some());
    assert_eq!(last, Some(Key::B));
}

#[test]
fn control_characters_are_filtered_from_text() {
    let text: Vec<char> = vec!['a', '\u{1b}', 'b', '\u{8}', '\u{7f}', '\t', '\r', '\n', 'c'];
    assert_eq!(filter_text(&text), vec!['a', 'b', 'c']);
}

#[test]
fn filtering_plain_text_keeps_it_unchanged() {
    let text: Vec<char> = vec!['h', 'i', '!'];
    assert_eq!(filter_text(&text), vec!['h', 'i', '!']);
}

#[test]
fn filtering_pure_control_text_leaves_nothing() {
    let text: Vec<char> = vec!['\u{1b}', '\r', '\n'];
    assert_eq!(filter_text(&text), Vec::<char>::new());
    assert_eq!(filter_text(&Vec::new()), Vec::<char>::new());
}
