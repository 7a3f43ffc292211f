//! Decisions of the input handlers. The window toolkit delivers raw key
//! codes and click coordinates; which transform a key asks for is the
//! engine's own rule, the transforms themselves live in [`crate::viewport`].

use vstd::prelude::*;

verus! {

/// Key code that asks to zoom in.
pub const KEY_ZOOM_IN: u32 = 86;

/// Key code that asks to zoom out.
pub const KEY_ZOOM_OUT: u32 = 82;

/// What a released key asks of the viewport.
#[derive(Clone, Copy, PartialEq, Eq, Debug, Structural)]
pub enum KeyAction {
    ZoomIn,
    ZoomOut,
    Ignore,
}

/// Maps a hardware key code to the transform it asks for: [`KEY_ZOOM_IN`]
/// zooms in, [`KEY_ZOOM_OUT`] zooms out, every other key does nothing.
pub fn key_action(keycode: u32) -> (r: KeyAction)
    ensures
        keycode == KEY_ZOOM_IN ==> r == KeyAction::ZoomIn,
        keycode == KEY_ZOOM_OUT ==> r == KeyAction::ZoomOut,
        keycode != KEY_ZOOM_IN && keycode != KEY_ZOOM_OUT ==> r == KeyAction::Ignore,
{
    if keycode == KEY_ZOOM_IN {
        KeyAction::ZoomIn
    } else if keycode == KEY_ZOOM_OUT {
        KeyAction::ZoomOut
    } else {
        KeyAction::Ignore
    }
}

} // verus!
