//! The laws the library states of itself: properties that relate several
//! operations, proved once and for all inputs.

use vstd::prelude::*;

use crate::event::{
    spec_keyboard_button_event, Button, ButtonArgs, ButtonState, EventView, RawKeyEvent,
    RawWindowEvent,
};
use crate::keys::{spec_map_key, KeyboardIgnoreModifiers, RawKey, RawNamedKey};
use crate::window::{
    handle_event_spec, set_capture_cursor_spec, spec_text_pushed, CaptureAction, WindowCore,
};

verus! {

/// Key mapping is a pure deterministic function: the same raw identifier
/// under the same layout mode always resolves to the same logical key.
pub proof fn lemma_key_mapping_deterministic(
    a: RawKey,
    b: RawKey,
    kim_a: KeyboardIgnoreModifiers,
    kim_b: KeyboardIgnoreModifiers,
)
    requires
        a == b,
        kim_a == kim_b,
    ensures
        spec_map_key(a, kim_a) == spec_map_key(b, kim_b),
{
}

/// Toggling capture twice to the same target value is a no-op the second
/// time: the state does not change and no platform call is demanded.
pub proof fn lemma_capture_toggle_idempotent(
    pre: WindowCore,
    mid: WindowCore,
    post: WindowCore,
    value: bool,
    first: CaptureAction,
    second: CaptureAction,
)
    requires
        set_capture_cursor_spec(pre, mid, value, first),
        set_capture_cursor_spec(mid, post, value, second),
    ensures
        post == mid,
        second == CaptureAction::Unchanged,
{
}

/// A raw move exactly at the window center, while captured, changes no
/// accumulator and queues no event; it is read as feedback from the
/// programmatic center lock, not as user input.
pub proof fn lemma_center_move_filtered(pre: WindowCore, post: WindowCore, x: i32, y: i32)
    requires
        pre.capture_cursor,
        x as int == pre.spec_center_x(),
        y as int == pre.spec_center_y(),
        handle_event_spec(pre, post, RawWindowEvent::CursorMoved { x, y }),
    ensures
        post.acc_x == pre.acc_x,
        post.acc_y == pre.acc_y,
        post.queue_view() == pre.queue_view(),
        post.should_close == pre.should_close,
{
}

/// With escape interception enabled, a keyboard event for the escape key
/// never reaches the queue: the pending events are untouched and the
/// should-close flag is raised instead.
pub proof fn lemma_escape_intercepted(pre: WindowCore, post: WindowCore, ev: RawKeyEvent)
    requires
        pre.exit_on_esc,
        ev.key == RawKey::Named(RawNamedKey::Escape),
        handle_event_spec(pre, post, RawWindowEvent::Keyboard(ev)),
    ensures
        post.queue_view() == pre.queue_view(),
        post.should_close,
{
}

/// Two consecutive press events for the same key with no release in between
/// yield only one button-press event: the first press queues it, the second
/// press queues none, while the text of each keystroke passes unaffected.
pub proof fn lemma_key_repeat_suppressed(
    pre: WindowCore,
    mid: WindowCore,
    post: WindowCore,
    first: RawKeyEvent,
    second: RawKeyEvent,
)
    requires
        handle_event_spec(pre, mid, RawWindowEvent::Keyboard(first)),
        handle_event_spec(mid, post, RawWindowEvent::Keyboard(second)),
        first.pressed && second.pressed,
        !first.repeat && !second.repeat,
        pre.last_key_pressed != Some(
            spec_map_key(first.key, pre.keyboard_ignore_modifiers),
        ),
        spec_map_key(second.key, mid.keyboard_ignore_modifiers) == spec_map_key(
            first.key,
            pre.keyboard_ignore_modifiers,
        ),
        !(pre.exit_on_esc && first.key == RawKey::Named(RawNamedKey::Escape)),
        !(mid.exit_on_esc && second.key == RawKey::Named(RawNamedKey::Escape)),
    ensures
        mid.queue_view() == pre.queue_view() + seq![
            EventView::Button(
                ButtonArgs {
                    state: ButtonState::Press,
                    button: Button::Keyboard(
                        spec_map_key(first.key, pre.keyboard_ignore_modifiers),
                    ),
                    scancode: first.scancode,
                },
            ),
        ] + spec_text_pushed(first),
        spec_keyboard_button_event(
            second,
            mid.keyboard_ignore_modifiers,
            mid.last_key_pressed,
        ) is None,
        post.queue_view() == mid.queue_view() + spec_text_pushed(second),
{
    let k = spec_map_key(first.key, pre.keyboard_ignore_modifiers);
    assert(mid.queue_view() =~= pre.queue_view() + seq![
        EventView::Button(
            ButtonArgs {
                state: ButtonState::Press,
                button: Button::Keyboard(k),
                scancode: first.scancode,
            },
        ),
    ] + spec_text_pushed(first));
    assert(post.queue_view() =~= mid.queue_view() + spec_text_pushed(second));
}

/// One step of a captured run of cursor moves: the machine processed move
/// `i` of `moves` between state `i` and state `i + 1` of `states`, the move
/// was not at the window center, and it did not saturate the accumulator.
pub open spec fn captured_move_step(
    states: Seq<WindowCore>,
    moves: Seq<(i32, i32)>,
    i: int,
) -> bool {
    &&& handle_event_spec(
        states[i],
        states[i + 1],
        RawWindowEvent::CursorMoved { x: moves[i].0, y: moves[i].1 },
    )
    &&& !(moves[i].0 as int == states[i].spec_center_x() && moves[i].1 as int
        == states[i].spec_center_y())
    &&& i64::MIN <= states[i].acc_x + moves[i].0 - states[i].last_cursor_x <= i64::MAX
    &&& i64::MIN <= states[i].acc_y + moves[i].1 - states[i].last_cursor_y <= i64::MAX
}

/// Over any run of captured cursor moves, none at the window center and none
/// saturating the accumulator, the accumulator gains exactly the difference
/// between the last position and the starting reference point, and the
/// queue, flags and tracked size are untouched.
pub proof fn lemma_accumulator_telescopes(states: Seq<WindowCore>, moves: Seq<(i32, i32)>)
    requires
        moves.len() >= 1,
        states.len() == moves.len() + 1,
        states[0].capture_cursor,
        forall|i: int| 0 <= i < moves.len() ==> #[trigger] captured_move_step(states, moves, i),
    ensures
        states.last().acc_x == states[0].acc_x + moves.last().0 - states[0].last_cursor_x,
        states.last().acc_y == states[0].acc_y + moves.last().1 - states[0].last_cursor_y,
        states.last().last_cursor_x == moves.last().0,
        states.last().last_cursor_y == moves.last().1,
        states.last() == (WindowCore {
            last_cursor_x: states.last().last_cursor_x,
            last_cursor_y: states.last().last_cursor_y,
            acc_x: states.last().acc_x,
            acc_y: states.last().acc_y,
            ..states[0]
        }),
    decreases moves.len(),
{
    if moves.len() == 1 {
        assert(captured_move_step(states, moves, 0));
    } else {
        let n = moves.len() as int;
        let pstates = states.take(n);
        let pmoves = moves.take(n - 1);
        assert forall|i: int| 0 <= i < pmoves.len() implies #[trigger] captured_move_step(
            pstates,
            pmoves,
            i,
        ) by {
            assert(captured_move_step(states, moves, i));
            assert(pstates[i] == states[i]);
            assert(pstates[i + 1] == states[i + 1]);
            assert(pmoves[i] == moves[i]);
        }
        lemma_accumulator_telescopes(pstates, pmoves);
        assert(captured_move_step(states, moves, n - 1));
        assert(pstates.last() == states[n - 1]);
    }
}

} // verus!
