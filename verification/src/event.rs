use crate::commandbuffer::Command;
use crate::surface::SurfaceFault;
use vstd::prelude::*;

verus! {

/// The keys that the demo knows, and one value for all the others.
#[derive(Clone, Copy, Debug, PartialEq, Eq, Structural)]
pub enum Key {
    Escape,
    J,
    K,
    L,
    Space,
    Grave,
    Other,
}

#[derive(Clone, Copy, Debug, PartialEq, Eq, Structural)]
pub enum KeyState {
    Pressed,
    Released,
}

/// What the window system reports to the control loop, reduced to plain values.
#[derive(Clone, Copy, Debug)]
pub enum Event {
    /// The user asked to close the window.
    CloseRequested,
    /// A key went down or came up.
    Keyboard { key: Key, state: KeyState },
    /// The drawable area has a new size, in pixels.
    Resized { width: u32, height: u32 },
    /// The window wants a frame. `now_ms` is the time since the loop started, in
    /// milliseconds; `surface` says whether the presentable image could be acquired;
    /// `window_width` and `window_height` are the size of the drawable area at this
    /// moment, in pixels.
    RedrawRequested {
        now_ms: u64,
        surface: Result<(), SurfaceFault>,
        window_width: u32,
        window_height: u32,
    },
    /// All events of this iteration have been handed out.
    RedrawEventsCleared,
    /// Anything else.
    Other,
}

/// The fixed table from keys to commands. Only the release of a key gives a
/// command; a press, or a key outside the table, gives none.
pub open spec fn command_for(key: Key, state: KeyState) -> Option<Command> {
    match state {
        KeyState::Pressed => None,
        KeyState::Released => match key {
            Key::Escape => Some(Command::Quit),
            Key::J => Some(Command::PlayReverse),
            Key::K => Some(Command::Pause),
            Key::L => Some(Command::PlayForward),
            Key::Space => Some(Command::Play),
            Key::Grave => Some(Command::DebugDraw),
            Key::Other => None,
        },
    }
}

/// Translates one key event into the command it stands for, if any.
pub fn translate_key(key: Key, state: KeyState) -> (command: Option<Command>)
    ensures
        command == command_for(key, state),
{
    match state {
        KeyState::Pressed => None,
        KeyState::Released => match key {
            Key::Escape => Some(Command::Quit),
            Key::J => Some(Command::PlayReverse),
            Key::K => Some(Command::Pause),
            Key::L => Some(Command::PlayForward),
            Key::Space => Some(Command::Play),
            Key::Grave => Some(Command::DebugDraw),
            Key::Other => None,
        },
    }
}

} // verus!
