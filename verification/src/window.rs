//! The window state machine: the pending-event queue, the should-close flag,
//! and the relative-mouse capture accumulator.
//!
//! The machine owns no platform resource.  The embedding pumps the platform
//! loop, feeds every raw event through [`WindowCore::handle_event`], pops
//! normalized events for the caller, and performs the cursor actions
//! ([`CaptureAction`], re-centering) that the methods hand back.

use vstd::prelude::*;

use crate::event::{
    lemma_views_of_drop_first, lemma_views_of_push, opt_event_seq, spec_filter_text,
    spec_keyboard_button_event, spec_keyboard_next_last, spec_map_window_event, Event, EventView,
    Motion, RawKeyEvent, RawWindowEvent,
};
use crate::event::{filter_text, map_keyboard_input, map_window_event};
use crate::keys::{Key, KeyboardIgnoreModifiers, RawKey, RawNamedKey};
use crate::{sat_add_i64, saturating_add_i64};
use std::collections::VecDeque;

verus! {

/// The cursor action the embedding must perform after a capture toggle.
#[derive(Copy, Clone, PartialEq, Eq, Structural, Debug)]
pub enum CaptureAction {
    /// The toggle was a no-op; do nothing.
    Unchanged,
    /// Capture was entered: lock the cursor to the window and hide it.
    Lock,
    /// Capture was left: release the cursor and restore its visibility.
    Unlock,
}

/// The engine-facing window state.
///
/// Coordinates are plain integer values in whatever unit the embedding
/// chooses; the tracked inner size is updated by resize events and is the
/// reference for the capture center.
pub struct WindowCore {
    /// Sets the keyboard layout mode for key mapping.
    pub keyboard_ignore_modifiers: KeyboardIgnoreModifiers,
    /// The window title, as last set.
    pub title: String,
    /// When set, a keyboard event for the escape key is swallowed and turns
    /// into the should-close flag instead of reaching the queue.
    pub exit_on_esc: bool,
    /// When set, popping a close event from the queue raises the
    /// should-close flag.
    pub automatic_close: bool,
    /// Whether the caller's run loop should stop.
    pub should_close: bool,
    /// Whether relative-mouse capture is active.
    pub capture_cursor: bool,
    /// The window's inner width, as last reported by a resize event.
    pub inner_width: u32,
    /// The window's inner height, as last reported by a resize event.
    pub inner_height: u32,
    /// The most recent raw cursor position.
    pub last_cursor_x: i32,
    /// The most recent raw cursor position.
    pub last_cursor_y: i32,
    /// Cursor movement accumulated since the last frame boundary.
    pub acc_x: i64,
    /// Cursor movement accumulated since the last frame boundary.
    pub acc_y: i64,
    /// The key currently marked pressed, used to suppress repeated press
    /// events for a held key.
    pub last_key_pressed: Option<Key>,
    /// Normalized events awaiting delivery, oldest first.
    pub events: VecDeque<Event>,
}

impl WindowCore {
    /// The model of the pending-event queue, oldest first.
    pub open spec fn queue_view(self) -> Seq<EventView> {
        crate::event::views_of(self.events@)
    }

    /// The horizontal midpoint of the inner size, rounded down: the
    /// center-lock sentinel position.
    pub open spec fn spec_center_x(self) -> int {
        self.inner_width as int / 2
    }

    /// The vertical midpoint of the inner size, rounded down.
    pub open spec fn spec_center_y(self) -> int {
        self.inner_height as int / 2
    }

    /// Creates the state for a freshly opened window of the given inner
    /// size: queue empty, nothing pressed, capture off, accumulator zero.
    pub fn new(
        title: String,
        width: u32,
        height: u32,
        exit_on_esc: bool,
        automatic_close: bool,
    ) -> (w: WindowCore)
        ensures
            w.keyboard_ignore_modifiers == KeyboardIgnoreModifiers::Keep,
            w.title == title,
            w.exit_on_esc == exit_on_esc,
            w.automatic_close == automatic_close,
            !w.should_close,
            !w.capture_cursor,
            w.inner_width == width,
            w.inner_height == height,
            w.last_cursor_x == 0 && w.last_cursor_y == 0,
            w.acc_x == 0 && w.acc_y == 0,
            w.last_key_pressed is None,
            w.queue_view() == Seq::<EventView>::empty(),
    {
        let w = WindowCore {
            keyboard_ignore_modifiers: KeyboardIgnoreModifiers::Keep,
            title,
            exit_on_esc,
            automatic_close,
            should_close: false,
            capture_cursor: false,
            inner_width: width,
            inner_height: height,
            last_cursor_x: 0,
            last_cursor_y: 0,
            acc_x: 0,
            acc_y: 0,
            last_key_pressed: None,
            events: VecDeque::new(),
        };
        proof {
            assert(w.queue_view() =~= Seq::<EventView>::empty());
        }
        w
    }

    /// The current capture center, the midpoint of the tracked inner size.
    pub fn center(&self) -> (c: (i32, i32))
        ensures
            c.0 as int == self.spec_center_x(),
            c.1 as int == self.spec_center_y(),
    {
        ((self.inner_width / 2) as i32, (self.inner_height / 2) as i32)
    }

    /// Processes one raw platform event.
    ///
    /// The relation between the state before and after is
    /// [`handle_event_spec`]; the result says whether the embedding must ask
    /// the platform for a redraw.
    pub fn handle_event(&mut self, event: RawWindowEvent) -> (redraw: bool)
        ensures
            handle_event_spec(*old(self), *final(self), event),
            redraw <==> event is RedrawRequested,
    {
        match event {
            RawWindowEvent::Keyboard(ev) => {
                let ghost gev = ev;
                if self.exit_on_esc && matches!(ev.key, RawKey::Named(RawNamedKey::Escape)) {
                    self.should_close = true;
                    return false;
                }
                let do_button = if ev.text.is_some() {
                    !ev.repeat
                } else {
                    true
                };
                let ghost pre = *self;
                if do_button {
                    let mapped = map_keyboard_input(
                        &ev,
                        self.keyboard_ignore_modifiers,
                        &mut self.last_key_pressed,
                    );
                    if let Some(button_event) = mapped {
                        proof {
                            lemma_views_of_push(self.events@, button_event);
                        }
                        self.events.push_back(button_event);
                    }
                }
                if let Some(t) = ev.text {
                    let filtered = filter_text(&t);
                    if filtered.len() > 0 {
                        let text_event = Event::Text(filtered);
                        proof {
                            lemma_views_of_push(self.events@, text_event);
                        }
                        self.events.push_back(text_event);
                    }
                }
                proof {
                    assert((*self).queue_view() =~= pre.queue_view() + spec_keyboard_pushed(
                        gev,
                        pre.keyboard_ignore_modifiers,
                        pre.last_key_pressed,
                    ));
                }
                false
            },
            RawWindowEvent::CursorMoved { x, y } => {
                if self.capture_cursor {
                    let prev_x = self.last_cursor_x;
                    let prev_y = self.last_cursor_y;
                    self.last_cursor_x = x;
                    self.last_cursor_y = y;
                    let c = self.center();
                    // A move exactly at the center is feedback from the
                    // programmatic center lock, not user input.
                    if x == c.0 && y == c.1 {
                        return false;
                    }
                    self.acc_x = saturating_add_i64(self.acc_x, (x as i64) - (prev_x as i64));
                    self.acc_y = saturating_add_i64(self.acc_y, (y as i64) - (prev_y as i64));
                    false
                } else {
                    let moved = Event::Move(Motion::MouseCursor { x, y });
                    proof {
                        lemma_views_of_push(self.events@, moved);
                    }
                    self.events.push_back(moved);
                    false
                }
            },
            RawWindowEvent::Resized { width, height } => {
                self.inner_width = width;
                self.inner_height = height;
                let resized = Event::Resize { width, height };
                proof {
                    lemma_views_of_push(self.events@, resized);
                }
                self.events.push_back(resized);
                false
            },
            RawWindowEvent::RedrawRequested => true,
            other => {
                let ghost gother = other;
                let ghost pre = *self;
                let mapped = map_window_event(
                    other,
                    self.keyboard_ignore_modifiers,
                    &mut self.last_key_pressed,
                );
                if let Some(e) = mapped {
                    proof {
                        lemma_views_of_push(self.events@, e);
                    }
                    self.events.push_back(e);
                }
                proof {
                    assert((*self).queue_view() =~= pre.queue_view() + opt_event_seq(
                        spec_map_window_event(
                            gother,
                            pre.keyboard_ignore_modifiers,
                            pre.last_key_pressed,
                        ),
                    ));
                }
                false
            },
        }
    }

    /// Marks the end of a caller-visible frame.
    ///
    /// While captured, this flushes the accumulated cursor movement as one
    /// relative-motion event, resets the accumulator, and hands back the
    /// center position the embedding must move the platform cursor to.
    pub fn swap_buffers(&mut self) -> (recenter: Option<(i32, i32)>)
        ensures
            old(self).capture_cursor ==> {
                &&& *final(self) == (WindowCore {
                    acc_x: 0,
                    acc_y: 0,
                    events: final(self).events,
                    ..*old(self)
                })
                &&& final(self).queue_view() == old(self).queue_view().push(
                    EventView::Move(
                        Motion::MouseRelative { x: old(self).acc_x, y: old(self).acc_y },
                    ),
                )
                &&& (recenter matches Some(c) && c.0 as int == old(self).spec_center_x()
                    && c.1 as int == old(self).spec_center_y())
            },
            !old(self).capture_cursor ==> *final(self) == *old(self) && recenter is None,
    {
        if self.capture_cursor {
            let c = self.center();
            let flushed = Event::Move(Motion::MouseRelative { x: self.acc_x, y: self.acc_y });
            proof {
                lemma_views_of_push(self.events@, flushed);
            }
            self.events.push_back(flushed);
            self.acc_x = 0;
            self.acc_y = 0;
            Some(c)
        } else {
            None
        }
    }

    /// Turns relative-mouse capture on or off.
    ///
    /// Asking for the state the machine is already in is a no-op and demands
    /// no platform call.  Entering capture resets the accumulator and takes
    /// the window center as the reference point; leaving capture drops any
    /// accumulated movement without flushing it.
    pub fn set_capture_cursor(&mut self, value: bool) -> (action: CaptureAction)
        ensures
            set_capture_cursor_spec(*old(self), *final(self), value, action),
    {
        if value == self.capture_cursor {
            return CaptureAction::Unchanged;
        }
        if value {
            self.acc_x = 0;
            self.acc_y = 0;
            let c = self.center();
            self.last_cursor_x = c.0;
            self.last_cursor_y = c.1;
            self.capture_cursor = true;
            CaptureAction::Lock
        } else {
            self.capture_cursor = false;
            CaptureAction::Unlock
        }
    }

    /// Pops the oldest pending event, if any.
    ///
    /// Popping a close event raises the should-close flag when automatic
    /// close is enabled; with automatic close disabled the flag is left
    /// alone.
    pub fn pop_event(&mut self) -> (r: Option<Event>)
        ensures
            old(self).queue_view().len() == 0 ==> {
                &&& *final(self) == (WindowCore { events: final(self).events, ..*old(self) })
                &&& final(self).queue_view() == old(self).queue_view()
                &&& r is None
            },
            old(self).queue_view().len() > 0 ==> {
                &&& (r matches Some(e) && e@ == old(self).queue_view()[0])
                &&& final(self).queue_view() == old(self).queue_view().drop_first()
                &&& *final(self) == (WindowCore {
                    events: final(self).events,
                    should_close: final(self).should_close,
                    ..*old(self)
                })
                &&& final(self).should_close == (old(self).should_close || (old(
                    self,
                ).queue_view()[0] is Close && old(self).automatic_close))
            },
    {
        let popped = self.events.pop_front();
        match popped {
            Some(e) => {
                proof {
                    lemma_views_of_drop_first(old(self).events@);
                }
                if self.automatic_close && matches!(e, Event::Close) {
                    self.should_close = true;
                }
                Some(e)
            },
            None => None,
        }
    }

    /// Pops the oldest pending event, or reports an idle cycle when the
    /// queue is empty.  The close-flag rule is that of [`WindowCore::pop_event`].
    pub fn pop_event_or_idle(&mut self) -> (r: Event)
        ensures
            old(self).queue_view().len() == 0 ==> {
                &&& *final(self) == (WindowCore { events: final(self).events, ..*old(self) })
                &&& final(self).queue_view() == old(self).queue_view()
                &&& r is Idle
            },
            old(self).queue_view().len() > 0 ==> {
                &&& r@ == old(self).queue_view()[0]
                &&& final(self).queue_view() == old(self).queue_view().drop_first()
                &&& *final(self) == (WindowCore {
                    events: final(self).events,
                    should_close: final(self).should_close,
                    ..*old(self)
                })
                &&& final(self).should_close == (old(self).should_close || (old(
                    self,
                ).queue_view()[0] is Close && old(self).automatic_close))
            },
    {
        match self.pop_event() {
            Some(e) => e,
            None => Event::Idle,
        }
    }

    /// Whether the caller's run loop should stop.
    pub fn should_close(&self) -> (r: bool)
        ensures
            r == self.should_close,
    {
        self.should_close
    }

    /// Sets the should-close flag directly.
    pub fn set_should_close(&mut self, value: bool)
        ensures
            *final(self) == (WindowCore { should_close: value, ..*old(self) }),
    {
        self.should_close = value;
    }

    /// The tracked inner size.  The embedding divides by its scale factor
    /// where logical units are wanted.
    pub fn size(&self) -> (s: (u32, u32))
        ensures
            s == (self.inner_width, self.inner_height),
    {
        (self.inner_width, self.inner_height)
    }

    /// The tracked inner size in raw (drawable) units; equal to
    /// [`WindowCore::size`], which the embedding scales.
    pub fn draw_size(&self) -> (s: (u32, u32))
        ensures
            s == (self.inner_width, self.inner_height),
    {
        (self.inner_width, self.inner_height)
    }

    /// The window title, as last set.
    pub fn get_title(&self) -> (t: String)
        ensures
            t@ == self.title@,
    {
        self.title.clone()
    }

    /// Records a new window title; the embedding applies it to the platform
    /// window.
    pub fn set_title(&mut self, value: String)
        ensures
            *final(self) == (WindowCore { title: value, ..*old(self) }),
    {
        self.title = value;
    }

    /// Whether the escape key is intercepted and turned into should-close.
    pub fn get_exit_on_esc(&self) -> (r: bool)
        ensures
            r == self.exit_on_esc,
    {
        self.exit_on_esc
    }

    /// Switches escape interception on or off.
    pub fn set_exit_on_esc(&mut self, value: bool)
        ensures
            *final(self) == (WindowCore { exit_on_esc: value, ..*old(self) }),
    {
        self.exit_on_esc = value;
    }

    /// Whether popping a close event raises the should-close flag.
    pub fn get_automatic_close(&self) -> (r: bool)
        ensures
            r == self.automatic_close,
    {
        self.automatic_close
    }

    /// Switches automatic close on or off.
    pub fn set_automatic_close(&mut self, value: bool)
        ensures
            *final(self) == (WindowCore { automatic_close: value, ..*old(self) }),
    {
        self.automatic_close = value;
    }
}

/// How [`WindowCore::set_capture_cursor`] relates the state before (`pre`)
/// and after (`post`) a toggle to `value`.
///
/// Asking for the state the machine is already in changes nothing and
/// demands no platform call, so toggling twice to the same value is a no-op
/// the second time.
pub open spec fn set_capture_cursor_spec(
    pre: WindowCore,
    post: WindowCore,
    value: bool,
    action: CaptureAction,
) -> bool {
    &&& value == pre.capture_cursor ==> post == pre && action == CaptureAction::Unchanged
    &&& value && !pre.capture_cursor ==> {
        &&& post == (WindowCore {
            capture_cursor: true,
            acc_x: 0,
            acc_y: 0,
            last_cursor_x: post.last_cursor_x,
            last_cursor_y: post.last_cursor_y,
            ..pre
        })
        &&& post.last_cursor_x as int == pre.spec_center_x()
        &&& post.last_cursor_y as int == pre.spec_center_y()
        &&& action == CaptureAction::Lock
    }
    &&& !value && pre.capture_cursor ==> post == (WindowCore { capture_cursor: false, ..pre })
        && action == CaptureAction::Unlock
}

/// The text event that one raw keyboard event adds to the queue: the
/// keystroke's text with control characters removed, when any text is left.
pub open spec fn spec_text_pushed(ev: RawKeyEvent) -> Seq<EventView> {
    match ev.text {
        Some(t) => {
            let f = spec_filter_text(t@);
            if f.len() > 0 {
                seq![EventView::Text(f)]
            } else {
                Seq::<EventView>::empty()
            }
        },
        None => Seq::<EventView>::empty(),
    }
}

/// The events that one raw keyboard event adds to the queue: the button
/// event (suppressed for a repeat when the keystroke also produced text, and
/// for a redundant press of the held key), followed by the keystroke's text.
pub open spec fn spec_keyboard_pushed(
    ev: RawKeyEvent,
    kim: KeyboardIgnoreModifiers,
    last: Option<Key>,
) -> Seq<EventView> {
    let button = if ev.text is Some && ev.repeat {
        Seq::<EventView>::empty()
    } else {
        opt_event_seq(spec_keyboard_button_event(ev, kim, last))
    };
    button + spec_text_pushed(ev)
}

/// The pressed marker after one raw keyboard event; a repeat that produced
/// text bypasses the button mapping and leaves the marker alone.
pub open spec fn spec_keyboard_next_marker(
    ev: RawKeyEvent,
    kim: KeyboardIgnoreModifiers,
    last: Option<Key>,
) -> Option<Key> {
    if ev.text is Some && ev.repeat {
        last
    } else {
        spec_keyboard_next_last(ev, kim, last)
    }
}

/// How [`WindowCore::handle_event`] relates the state before (`pre`) and
/// after (`post`) processing one raw event.
///
/// A keyboard event for the escape key, with escape interception enabled, is
/// swallowed and raises should-close.  While captured, a cursor move updates
/// the last position and accumulates the delta, except that a move exactly
/// at the center changes no accumulator and queues nothing.  A resize
/// updates the tracked inner size and queues a resize event.  Every other
/// event appends its mapped logical event, if it has one.
pub open spec fn handle_event_spec(
    pre: WindowCore,
    post: WindowCore,
    event: RawWindowEvent,
) -> bool {
    match event {
        RawWindowEvent::Keyboard(ev) => {
            if pre.exit_on_esc && ev.key == RawKey::Named(RawNamedKey::Escape) {
                post == (WindowCore { should_close: true, ..pre })
            } else {
                &&& post == (WindowCore {
                    events: post.events,
                    last_key_pressed: post.last_key_pressed,
                    ..pre
                })
                &&& post.queue_view() == pre.queue_view() + spec_keyboard_pushed(
                    ev,
                    pre.keyboard_ignore_modifiers,
                    pre.last_key_pressed,
                )
                &&& post.last_key_pressed == spec_keyboard_next_marker(
                    ev,
                    pre.keyboard_ignore_modifiers,
                    pre.last_key_pressed,
                )
            }
        },
        RawWindowEvent::CursorMoved { x, y } => {
            if pre.capture_cursor {
                if x as int == pre.spec_center_x() && y as int == pre.spec_center_y() {
                    post == (WindowCore { last_cursor_x: x, last_cursor_y: y, ..pre })
                } else {
                    &&& post == (WindowCore {
                        last_cursor_x: x,
                        last_cursor_y: y,
                        acc_x: post.acc_x,
                        acc_y: post.acc_y,
                        ..pre
                    })
                    &&& post.acc_x as int == sat_add_i64(
                        pre.acc_x as int,
                        x - pre.last_cursor_x,
                    )
                    &&& post.acc_y as int == sat_add_i64(
                        pre.acc_y as int,
                        y - pre.last_cursor_y,
                    )
                }
            } else {
                &&& post == (WindowCore { events: post.events, ..pre })
                &&& post.queue_view() == pre.queue_view().push(
                    EventView::Move(Motion::MouseCursor { x, y }),
                )
            }
        },
        RawWindowEvent::Resized { width, height } => {
            &&& post == (WindowCore {
                inner_width: width,
                inner_height: height,
                events: post.events,
                ..pre
            })
            &&& post.queue_view() == pre.queue_view().push(EventView::Resize { width, height })
        },
        _ => {
            &&& post == (WindowCore { events: post.events, ..pre })
            &&& post.queue_view() == pre.queue_view() + opt_event_seq(
                spec_map_window_event(event, pre.keyboard_ignore_modifiers, pre.last_key_pressed),
            )
        },
    }
}

} // verus!
