//! Pointer interaction state, as the host input system reports it.

use vstd::prelude::*;

verus! {

/// The three-valued interaction state of a widget: not under the
/// pointer, hovered, or pressed. The host input system owns and updates
/// this value; the decision functions of this crate only read it.
#[derive(Clone, Copy, PartialEq, Eq, Debug)]
pub enum Interaction {
    /// The pointer is elsewhere.
    Idle,
    /// The pointer is over the widget but not pressed.
    Hovered,
    /// The widget is being pressed.
    Pressed,
}

} // verus!
