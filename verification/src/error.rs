//! The three ways a run can fail, and the line each one puts on standard
//! error.

use vstd::prelude::*;

verus! {

/// A failure of the open → fetch → decode chain.  Every failure is terminal:
/// the program prints the message and stops.
#[derive(Clone, Copy, PartialEq, Eq, Structural, Debug)]
pub enum Error {
    /// The connection to the display server could not be established.
    DisplayOpenFailed,
    /// The keyboard control query failed at the platform layer.
    KeyboardError,
    /// The decoder received a null record even though the fetcher reported
    /// success.  A defensive guard: through the full chain it is unreachable.
    KeyboardNull,
}

/// The exact text reported for each failure.
pub open spec fn message_spec(e: Error) -> Seq<char> {
    match e {
        Error::DisplayOpenFailed => "Failed to open display"@,
        Error::KeyboardError => "Failed to grab the keyboard from X11 (xlib::XGetKeyboardControl)"@,
        Error::KeyboardNull => "Diligence: Keyboard pointer was null, should never happen"@,
    }
}

impl Error {
    /// The single line written to standard error for this failure.
    pub fn message(&self) -> (r: String)
        ensures
            r@ == message_spec(*self),
    {
        match self {
            Error::DisplayOpenFailed => "Failed to open display".to_owned(),
            Error::KeyboardError => "Failed to grab the keyboard from X11 (xlib::XGetKeyboardControl)"
                .to_owned(),
            Error::KeyboardNull => "Diligence: Keyboard pointer was null, should never happen"
                .to_owned(),
        }
    }
}

} // verus!
