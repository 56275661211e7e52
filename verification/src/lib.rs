//! Keyboard LED indicator reporter.
//!
//! The program asks the display server for the keyboard control state,
//! extracts the Caps Lock and Num Lock indicator bits from the LED bitmask,
//! and prints one line describing them.  Everything that decides or formats
//! lives here and is verified; the two platform calls (opening the display
//! connection and issuing the keyboard query) live in the unverified binary,
//! which hands their results to [`run::run`] as plain values.

pub mod error;
pub mod run;
pub mod state;
