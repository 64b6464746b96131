//! The engine-facing event vocabulary and the pure event mappers.
//!
//! A raw window event is the plain-value form of one platform event.  The
//! mappers translate it into zero or one logical [`Event`].  Contracts are
//! stated over [`EventView`], the mathematical model of an event, in which
//! text and paths are character sequences.

use vstd::prelude::*;

use crate::keys::{Key, KeyboardIgnoreModifiers, RawKey};
use crate::keys::{map_key, spec_map_key};
use crate::mouse::{map_mouse, spec_map_mouse, MouseButton, RawMouseButton};

verus! {

/// Whether a button was pressed or released.
#[derive(Copy, Clone, PartialEq, Eq, Structural, Debug)]
pub enum ButtonState {
    Press,
    Release,
}

/// A logical button: a keyboard key or a mouse button.
#[derive(Copy, Clone, PartialEq, Eq, Structural, Debug)]
pub enum Button {
    Keyboard(Key),
    Mouse(MouseButton),
}

/// One button press or release, with the hardware scancode when the platform
/// reported one.
#[derive(Copy, Clone, PartialEq, Eq, Debug)]
pub struct ButtonArgs {
    /// Pressed or released.
    pub state: ButtonState,
    /// Which logical button.
    pub button: Button,
    /// The platform scancode, when known.
    pub scancode: Option<i32>,
}

/// A motion event: absolute cursor position, accumulated relative movement,
/// or scroll.
#[derive(Copy, Clone, PartialEq, Eq, Debug)]
pub enum Motion {
    /// Absolute cursor position, in the embedding's coordinate units.
    MouseCursor { x: i32, y: i32 },
    /// Relative movement accumulated while the cursor is captured.
    MouseRelative { x: i64, y: i64 },
    /// Scroll delta.
    MouseScroll { x: i32, y: i32 },
}

/// A file being dragged over the window.
#[derive(Clone, PartialEq, Eq, Debug)]
pub enum FileDrag {
    /// A file was dropped; the payload is its path.
    Drop(String),
    /// A file hovers over the window; the payload is its path.
    Hover(String),
    /// The hover was cancelled.
    Cancel,
}

/// A normalized, engine-facing event.
#[derive(Clone, PartialEq, Eq, Debug)]
pub enum Event {
    /// A button press or release.
    Button(ButtonArgs),
    /// Printable text input, decoupled from the button event of the same
    /// keystroke.
    Text(Vec<char>),
    /// Cursor, relative or scroll motion.
    Move(Motion),
    /// The window was resized.
    Resize { width: u32, height: u32 },
    /// The window gained or lost focus.
    Focus(bool),
    /// The cursor entered (`true`) or left (`false`) the window.
    Cursor(bool),
    /// A file drag event.
    FileDrag(FileDrag),
    /// The window was asked to close or was destroyed.
    Close,
    /// Nothing happened before an unbounded wait gave up.
    Idle,
}

/// The mathematical model of a [`FileDrag`]: paths as character sequences.
pub enum FileDragView {
    Drop(Seq<char>),
    Hover(Seq<char>),
    Cancel,
}

/// The mathematical model of an [`Event`]: text and paths as character
/// sequences, every other payload a plain value.
pub enum EventView {
    Button(ButtonArgs),
    Text(Seq<char>),
    Move(Motion),
    Resize { width: u32, height: u32 },
    Focus(bool),
    Cursor(bool),
    FileDrag(FileDragView),
    Close,
    Idle,
}

impl View for FileDrag {
    type V = FileDragView;

    open spec fn view(&self) -> FileDragView {
        match self {
            FileDrag::Drop(path) => FileDragView::Drop(path@),
            FileDrag::Hover(path) => FileDragView::Hover(path@),
            FileDrag::Cancel => FileDragView::Cancel,
        }
    }
}

impl View for Event {
    type V = EventView;

    open spec fn view(&self) -> EventView {
        match self {
            Event::Button(args) => EventView::Button(*args),
            Event::Text(t) => EventView::Text(t@),
            Event::Move(m) => EventView::Move(*m),
            Event::Resize { width, height } => EventView::Resize {
                width: *width,
                height: *height,
            },
            Event::Focus(f) => EventView::Focus(*f),
            Event::Cursor(c) => EventView::Cursor(*c),
            Event::FileDrag(fd) => EventView::FileDrag(fd@),
            Event::Close => EventView::Close,
            Event::Idle => EventView::Idle,
        }
    }
}

/// The models of a sequence of events.
pub open spec fn views_of(q: Seq<Event>) -> Seq<EventView> {
    q.map_values(|e: Event| e@)
}

/// Appending an event appends its model.
pub proof fn lemma_views_of_push(q: Seq<Event>, e: Event)
    ensures
        views_of(q.push(e)) == views_of(q).push(e@),
{
    assert(views_of(q.push(e)) =~= views_of(q).push(e@));
}

/// Dropping the first event drops the first model.
pub proof fn lemma_views_of_drop_first(q: Seq<Event>)
    requires
        q.len() > 0,
    ensures
        views_of(q.subrange(1, q.len() as int)) == views_of(q).drop_first(),
{
    assert(views_of(q.subrange(1, q.len() as int)) =~= views_of(q).drop_first());
}

/// The model sequence of zero-or-one mapped events.
pub open spec fn opt_event_seq(o: Option<EventView>) -> Seq<EventView> {
    match o {
        Some(e) => seq![e],
        None => Seq::empty(),
    }
}

/// A custom event for the platform event loop: a no-op signal used to wake a
/// blocking wait so that a pump cycle always terminates.
#[derive(Debug, PartialEq, Eq)]
pub enum UserEvent {
    /// Do nothing, just spin the event loop.
    WakeUp,
}

/// A raw keyboard event, as delivered by the platform: the raw key, whether
/// it was pressed, whether the press is an auto-repeat, the hardware
/// scancode when known, and the text the keystroke produced, if any.
#[derive(Clone, PartialEq, Eq, Debug)]
pub struct RawKeyEvent {
    /// The raw key identifier.
    pub key: RawKey,
    /// `true` for a press, `false` for a release.
    pub pressed: bool,
    /// `true` when the event is a key-repeat of a held key.
    pub repeat: bool,
    /// The hardware scancode, when the platform reported one.
    pub scancode: Option<i32>,
    /// The text this keystroke produced, already decoded to characters.
    pub text: Option<Vec<char>>,
}

/// A raw scroll delta: in pixel units (already window-scaled) or in lines.
#[derive(Copy, Clone, PartialEq, Eq, Debug)]
pub enum RawScroll {
    /// A pixel delta, in the embedding's coordinate units.
    Pixel { x: i32, y: i32 },
    /// A line delta.
    Line { x: i32, y: i32 },
}

/// One platform window event, as plain values.
///
/// Categories the backend intentionally does not surface (IME, gestures,
/// touch, axis motion, theme and occlusion changes, scale-factor changes,
/// modifier changes) arrive as [`RawWindowEvent::Ignored`], keeping the list
/// of exclusions visible in one place.
#[derive(Clone, PartialEq, Eq, Debug)]
pub enum RawWindowEvent {
    /// A keyboard event.
    Keyboard(RawKeyEvent),
    /// The cursor moved to an absolute position.
    CursorMoved { x: i32, y: i32 },
    /// The cursor entered the window.
    CursorEntered,
    /// The cursor left the window.
    CursorLeft,
    /// The scroll wheel moved.
    MouseWheel(RawScroll),
    /// A mouse button was pressed or released.
    MouseInput { pressed: bool, button: RawMouseButton },
    /// The window's inner size changed.
    Resized { width: u32, height: u32 },
    /// The window moved; not surfaced.
    Moved { x: i32, y: i32 },
    /// The user asked to close the window.
    CloseRequested,
    /// The window was destroyed.
    Destroyed,
    /// The window gained or lost focus.
    Focused(bool),
    /// A file was dropped on the window; the payload is its path.
    DroppedFile(String),
    /// A file hovers over the window; the payload is its path.
    HoveredFile(String),
    /// A file hover was cancelled.
    HoveredFileCancelled,
    /// The platform asked for a redraw.
    RedrawRequested,
    /// Any intentionally unmapped event category.
    Ignored,
}

/// Characters that are filtered from text output because they are already
/// represented as button events: escape, backspace, delete, tab, carriage
/// return and line feed.
pub open spec fn is_text_control_char(c: char) -> bool {
    c == '\u{1b}' || c == '\u{8}' || c == '\u{7f}' || c == '\t' || c == '\r' || c == '\n'
}

/// The text of a keystroke with control characters removed.
pub open spec fn spec_filter_text(s: Seq<char>) -> Seq<char>
    decreases s.len(),
{
    if s.len() == 0 {
        Seq::empty()
    } else {
        let rest = spec_filter_text(s.drop_last());
        if is_text_control_char(s.last()) {
            rest
        } else {
            rest.push(s.last())
        }
    }
}

/// Removes control characters from keystroke text.
pub fn filter_text(s: &Vec<char>) -> (r: Vec<char>)
    ensures
        r@ == spec_filter_text(s@),
{
    let mut out: Vec<char> = Vec::new();
    let mut i: usize = 0;
    while i < s.len()
        invariant
            i <= s.len(),
            out@ == spec_filter_text(s@.take(i as int)),
        decreases s.len() - i,
    {
        let c = s[i];
        if !(c == '\u{1b}' || c == '\u{8}' || c == '\u{7f}' || c == '\t' || c == '\r' || c == '\n')
        {
            out.push(c);
        }
        proof {
            assert(s@.take(i as int + 1).drop_last() =~= s@.take(i as int));
            assert(s@.take(i as int + 1).last() == s@[i as int]);
        }
        i = i + 1;
    }
    proof {
        assert(s@.take(s@.len() as int) =~= s@);
    }
    out
}

/// The button event that one raw keyboard event maps to, given the pressed
/// markers: a redundant press of the key already marked pressed is
/// suppressed, every other press and every release maps to a button event.
pub open spec fn spec_keyboard_button_event(
    ev: RawKeyEvent,
    kim: KeyboardIgnoreModifiers,
    last: Option<Key>,
) -> Option<EventView> {
    let k = spec_map_key(ev.key, kim);
    if ev.pressed {
        if last == Some(k) {
            None
        } else {
            Some(
                EventView::Button(
                    ButtonArgs {
                        state: ButtonState::Press,
                        button: Button::Keyboard(k),
                        scancode: ev.scancode,
                    },
                ),
            )
        }
    } else {
        Some(
            EventView::Button(
                ButtonArgs {
                    state: ButtonState::Release,
                    button: Button::Keyboard(k),
                    scancode: ev.scancode,
                },
            ),
        )
    }
}

/// The pressed marker after one raw keyboard event: a fresh press records
/// its key, a release of the recorded key clears it, everything else leaves
/// it alone.
pub open spec fn spec_keyboard_next_last(
    ev: RawKeyEvent,
    kim: KeyboardIgnoreModifiers,
    last: Option<Key>,
) -> Option<Key> {
    let k = spec_map_key(ev.key, kim);
    if ev.pressed {
        if last == Some(k) {
            last
        } else {
            Some(k)
        }
    } else {
        if last == Some(k) {
            None
        } else {
            last
        }
    }
}

/// Maps one raw keyboard event to zero or one button event, updating the
/// pressed marker used to suppress repeated presses of a held key.  Text
/// produced by the keystroke is handled separately and is not affected.
pub fn map_keyboard_input(
    ev: &RawKeyEvent,
    kim: KeyboardIgnoreModifiers,
    last_key_pressed: &mut Option<Key>,
) -> (r: Option<Event>)
    ensures
        opt_event_view(r) == spec_keyboard_button_event(*ev, kim, *old(last_key_pressed)),
        *final(last_key_pressed) == spec_keyboard_next_last(*ev, kim, *old(last_key_pressed)),
{
    let key = map_key(&ev.key, kim);
    if ev.pressed {
        if let Some(last_key) = *last_key_pressed {
            if last_key == key {
                return None;
            }
        }
        *last_key_pressed = Some(key);
        Some(
            Event::Button(
                ButtonArgs {
                    state: ButtonState::Press,
                    button: Button::Keyboard(key),
                    scancode: ev.scancode,
                },
            ),
        )
    } else {
        if let Some(last_key) = *last_key_pressed {
            if last_key == key {
                *last_key_pressed = None;
            }
        }
        Some(
            Event::Button(
                ButtonArgs {
                    state: ButtonState::Release,
                    button: Button::Keyboard(key),
                    scancode: ev.scancode,
                },
            ),
        )
    }
}

/// The model of zero-or-one mapped events.
pub open spec fn opt_event_view(o: Option<Event>) -> Option<EventView> {
    match o {
        Some(e) => Some(e@),
        None => None,
    }
}

/// The logical event that one raw window event maps to, given the layout
/// mode and the pressed marker.  Intentionally unmapped categories and
/// window moves map to nothing.
pub open spec fn spec_map_window_event(
    event: RawWindowEvent,
    kim: KeyboardIgnoreModifiers,
    last: Option<Key>,
) -> Option<EventView> {
    match event {
        RawWindowEvent::Keyboard(ev) => spec_keyboard_button_event(ev, kim, last),
        RawWindowEvent::CursorMoved { x, y } => Some(
            EventView::Move(Motion::MouseCursor { x, y }),
        ),
        RawWindowEvent::CursorEntered => Some(EventView::Cursor(true)),
        RawWindowEvent::CursorLeft => Some(EventView::Cursor(false)),
        RawWindowEvent::MouseWheel(delta) => match delta {
            RawScroll::Pixel { x, y } => Some(EventView::Move(Motion::MouseScroll { x, y })),
            RawScroll::Line { x, y } => Some(EventView::Move(Motion::MouseScroll { x, y })),
        },
        RawWindowEvent::MouseInput { pressed, button } => Some(
            EventView::Button(
                ButtonArgs {
                    state: if pressed {
                        ButtonState::Press
                    } else {
                        ButtonState::Release
                    },
                    button: Button::Mouse(spec_map_mouse(button)),
                    scancode: None,
                },
            ),
        ),
        RawWindowEvent::Resized { width, height } => Some(EventView::Resize { width, height }),
        RawWindowEvent::Moved { .. } => None,
        RawWindowEvent::CloseRequested => Some(EventView::Close),
        RawWindowEvent::Destroyed => Some(EventView::Close),
        RawWindowEvent::Focused(focused) => Some(EventView::Focus(focused)),
        RawWindowEvent::DroppedFile(path) => Some(
            EventView::FileDrag(FileDragView::Drop(path@)),
        ),
        RawWindowEvent::HoveredFile(path) => Some(
            EventView::FileDrag(FileDragView::Hover(path@)),
        ),
        RawWindowEvent::HoveredFileCancelled => Some(EventView::FileDrag(FileDragView::Cancel)),
        RawWindowEvent::RedrawRequested => None,
        RawWindowEvent::Ignored => None,
    }
}

/// The pressed marker after one raw window event: only keyboard events
/// change it.
pub open spec fn spec_window_event_next_last(
    event: RawWindowEvent,
    kim: KeyboardIgnoreModifiers,
    last: Option<Key>,
) -> Option<Key> {
    match event {
        RawWindowEvent::Keyboard(ev) => spec_keyboard_next_last(ev, kim, last),
        _ => last,
    }
}

/// Converts one raw window event into zero or one logical event.
///
/// Events the backend does not surface map to nothing; this is the pure
/// mapper, without the interception (escape-to-close, capture-mode cursor
/// filtering) that the window state machine applies first.
pub fn map_window_event(
    event: RawWindowEvent,
    kim: KeyboardIgnoreModifiers,
    last_key_pressed: &mut Option<Key>,
) -> (r: Option<Event>)
    ensures
        opt_event_view(r) == spec_map_window_event(event, kim, *old(last_key_pressed)),
        *final(last_key_pressed) == spec_window_event_next_last(
            event,
            kim,
            *old(last_key_pressed),
        ),
{
    match event {
        RawWindowEvent::Keyboard(ev) => map_keyboard_input(&ev, kim, last_key_pressed),
        RawWindowEvent::CursorMoved { x, y } => Some(Event::Move(Motion::MouseCursor { x, y })),
        RawWindowEvent::CursorEntered => Some(Event::Cursor(true)),
        RawWindowEvent::CursorLeft => Some(Event::Cursor(false)),
        RawWindowEvent::MouseWheel(delta) => match delta {
            RawScroll::Pixel { x, y } => Some(Event::Move(Motion::MouseScroll { x, y })),
            RawScroll::Line { x, y } => Some(Event::Move(Motion::MouseScroll { x, y })),
        },
        RawWindowEvent::MouseInput { pressed, button } => {
            let state = if pressed {
                ButtonState::Press
            } else {
                ButtonState::Release
            };
            Some(
                Event::Button(
                    ButtonArgs { state, button: Button::Mouse(map_mouse(button)), scancode: None },
                ),
            )
        },
        RawWindowEvent::Resized { width, height } => Some(Event::Resize { width, height }),
        RawWindowEvent::Moved { .. } => None,
        RawWindowEvent::CloseRequested => Some(Event::Close),
        RawWindowEvent::Destroyed => Some(Event::Close),
        RawWindowEvent::Focused(focused) => Some(Event::Focus(focused)),
        RawWindowEvent::DroppedFile(path) => Some(Event::FileDrag(FileDrag::Drop(path))),
        RawWindowEvent::HoveredFile(path) => Some(Event::FileDrag(FileDrag::Hover(path))),
        RawWindowEvent::HoveredFileCancelled => Some(Event::FileDrag(FileDrag::Cancel)),
        RawWindowEvent::RedrawRequested => None,
        RawWindowEvent::Ignored => None,
    }
}

} // verus!
