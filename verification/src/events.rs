//! Hardware events and the sound categories they can trigger.

use vstd::prelude::*;

verus! {

/// Identifier of a physical keyboard key. The input collaborator
/// assigns each key a fixed number; the engine only uses it as a map
/// key and never interprets it.
pub type KeyId = u64;

/// Identifier of a mouse button, assigned by the input collaborator.
pub type ButtonId = u64;

/// A hardware transition event as delivered by the global input hook.
/// Kinds outside the four tracked categories (mouse motion, wheel, ...)
/// arrive as `Other` and are ignored.
#[derive(Clone, Copy, Debug, PartialEq, Eq, Structural)]
pub enum InputEvent {
    KeyPress(KeyId),
    KeyRelease(KeyId),
    ButtonPress(ButtonId),
    ButtonRelease(ButtonId),
    Other,
}

/// The four categories of sound that an event can trigger, each backed
/// by its own pool of samples.
#[derive(Clone, Copy, Debug, PartialEq, Eq, Structural)]
pub enum SoundCategory {
    KeyDown,
    KeyUp,
    MouseDown,
    MouseUp,
}

} // verus!
