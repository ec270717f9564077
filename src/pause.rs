//! The decision inside the wait for a key press.
use vstd::prelude::*;

verus! {

/// A terminal input event, as far as the wait cares.
#[derive(Debug, Clone, Copy, PartialEq, Eq, Structural)]
pub enum InputEvent {
    Key,
    Mouse,
    Resize,
    Focus,
    Paste,
}

/// Whether an input event ends the wait: only a key press does.
pub fn ends_pause(e: InputEvent) -> (r: bool)
    ensures
        r == (e == InputEvent::Key),
{
    match e {
        InputEvent::Key => true,
        _ => false,
    }
}

} // verus!
