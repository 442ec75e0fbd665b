//! The event model of the application shell. The window layer outside this
//! library polls the operating system and hands back plain events; the one
//! decision the shell's loop takes on them — whether the application keeps
//! running — is made here.

use vstd::prelude::*;

verus! {

/// An event delivered by the window, generic over the coordinate type of the
/// cursor position.
pub enum Event<T> {
    /// The user asked to close the window.
    Close,
    /// A mouse click at the given window position.
    Click { x: T, y: T },
}

/// The shell's per-event decision: the application keeps running exactly when
/// it was running before and the event is not a request to close.
pub fn running_after<T>(running: bool, event: &Event<T>) -> (r: bool)
    ensures
        r == (running && !(event is Close)),
{
    match event {
        Event::Close => false,
        Event::Click { .. } => running,
    }
}

} // verus!
