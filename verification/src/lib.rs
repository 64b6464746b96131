//! Event normalization and cursor-capture logic for a platform window backend.
//!
//! The crate translates raw platform window events (keyboard, mouse, resize,
//! focus, file drag) into a stable, engine-facing event vocabulary, and keeps
//! the window's bookkeeping state: a FIFO of pending events, the should-close
//! flag, and the relative-mouse capture accumulator.  Everything that talks to
//! the operating system (the event loop, cursor grabbing, DPI queries) lives
//! outside this crate; the functions here work on plain values and say in
//! their contracts exactly what they compute.

pub mod event;
pub mod keys;
pub mod laws;
pub mod mouse;
pub mod window;

use vstd::prelude::*;

verus! {

/// Adds two accumulator components, clamping at the representable range
/// instead of overflowing.
pub open spec fn sat_add_i64(a: int, b: int) -> int {
    if a + b > i64::MAX {
        i64::MAX as int
    } else if a + b < i64::MIN {
        i64::MIN as int
    } else {
        a + b
    }
}

/// Executable saturating addition, proved against [`sat_add_i64`].
pub fn saturating_add_i64(a: i64, b: i64) -> (r: i64)
    ensures
        r as int == sat_add_i64(a as int, b as int),
{
    match a.checked_add(b) {
        Some(s) => s,
        None => {
            if b > 0 {
                i64::MAX
            } else {
                i64::MIN
            }
        },
    }
}

} // verus!
