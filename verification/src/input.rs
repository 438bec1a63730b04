//! Input as the engine reports it: widget interactions and pointer buttons.

use vstd::prelude::*;

verus! {

/// What the pointer is doing to a widget.  `Idle` is the resting state the
/// engine reports when the pointer neither hovers nor presses the widget.
#[derive(Debug, Clone, Copy, PartialEq, Eq, Structural)]
pub enum Interaction {
    Pressed,
    Hovered,
    Idle,
}

/// The pointer button a click came from.
#[derive(Debug, Clone, Copy, PartialEq, Eq, Structural)]
pub enum PointerButton {
    Primary,
    Secondary,
    Middle,
}

} // verus!
