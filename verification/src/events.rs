//! Window events, reduced to what the presentation loop reads in them.

use vstd::prelude::*;

verus! {

/// A key, as far as the loop tells keys apart.
#[derive(Clone, Copy, Debug, PartialEq, Eq)]
pub enum Keycode {
    Escape,
    Other,
}

/// A window event, as far as the loop tells events apart.
#[derive(Clone, Copy, Debug, PartialEq, Eq)]
pub enum Event {
    /// The window was closed or the application was asked to quit.
    Quit,
    /// A key went down; some keys have no code.
    KeyDown { keycode: Option<Keycode> },
    /// Anything else.
    Other,
}

impl Event {
    /// The two signals that end the loop: a quit event and the Escape key
    /// going down.
    pub open spec fn is_quit_signal(self) -> bool {
        self == Event::Quit || self == (Event::KeyDown { keycode: Some(Keycode::Escape) })
    }

    /// Computes [`Event::is_quit_signal`].
    pub fn asks_to_quit(&self) -> (quit: bool)
        ensures
            quit == self.is_quit_signal(),
    {
        match self {
            Event::Quit => true,
            Event::KeyDown { keycode: Some(Keycode::Escape) } => true,
            _ => false,
        }
    }
}

/// Whether a batch of pending events holds a quit signal.
pub open spec fn quit_requested(events: Seq<Event>) -> bool {
    exists|i: int| 0 <= i < events.len() && (#[trigger] events[i]).is_quit_signal()
}

/// Drains one batch of pending events. Every event that is no quit signal is
/// dropped; the scan ends at the first quit signal.
pub fn drain(events: &Vec<Event>) -> (quit: bool)
    ensures
        quit == quit_requested(events@),
{
    let mut i: usize = 0;
    while i < events.len()
        invariant
            i <= events.len(),
            forall|j: int| 0 <= j < i ==> !(#[trigger] events@[j]).is_quit_signal(),
        decreases events.len() - i,
    {
        if events[i].asks_to_quit() {
            return true;
        }
        i = i + 1;
    }
    false
}

} // verus!
