//! The linear chain: open → fetch → decode → report.
//!
//! The unverified binary performs the two platform calls and summarises what
//! they yielded in a [`Session`] value; [`run`] then makes every decision the
//! program makes afterwards and hands back the one line to print and the
//! stream it belongs on.

use vstd::prelude::*;

use crate::error::Error;
use crate::error::message_spec;
use crate::state::KeyboardState;
use crate::state::RawKeyboardRecord;
use crate::state::render_spec;
use crate::state::try_from_record_spec;

verus! {

/// What the platform interaction yielded, as the decision logic sees it.
#[derive(Clone, Copy, PartialEq, Eq, Debug)]
pub enum Session {
    /// The connection to the display server could not be opened (the open
    /// call produced a null handle).
    OpenFailed,
    /// The connection opened and the keyboard query ran; `None` means the
    /// query produced a null record.
    Fetched(Option<RawKeyboardRecord>),
}

/// One line of output and the stream it belongs on.
pub struct Report {
    /// The line to print, without a trailing newline.
    pub line: String,
    /// True when the line belongs on standard error; false when it is the
    /// success line for standard output.
    pub to_error_stream: bool,
}

/// The fetcher gate: a null record from the keyboard query is a platform
/// failure; any other record passes through unchanged.
pub open spec fn fetch_step_spec(rec: Option<RawKeyboardRecord>) -> Result<
    Option<RawKeyboardRecord>,
    Error,
> {
    match rec {
        None => Err(Error::KeyboardError),
        Some(_) => Ok(rec),
    }
}

/// The outcome of the whole chain for a session: each step's gate applied in
/// order, any failure short-circuiting the rest.
pub open spec fn outcome_spec(s: Session) -> Result<KeyboardState, Error> {
    match s {
        Session::OpenFailed => Err(Error::DisplayOpenFailed),
        Session::Fetched(rec) => match fetch_step_spec(rec) {
            Err(e) => Err(e),
            Ok(passed) => try_from_record_spec(passed),
        },
    }
}

/// The line printed for an outcome: the rendered state on success, the
/// error's message on failure.
pub open spec fn report_line_spec(res: Result<KeyboardState, Error>) -> Seq<char> {
    match res {
        Ok(state) => render_spec(state.caps, state.num),
        Err(e) => message_spec(e),
    }
}

/// Whether an outcome's line goes to standard error.
pub open spec fn report_is_error_spec(res: Result<KeyboardState, Error>) -> bool {
    res is Err
}

/// The fetcher gate as executable code.
pub fn fetch_step(rec: Option<RawKeyboardRecord>) -> (r: Result<Option<RawKeyboardRecord>, Error>)
    ensures
        r == fetch_step_spec(rec),
{
    match rec {
        None => Err(Error::KeyboardError),
        Some(_) => Ok(rec),
    }
}

/// Turns the chain's outcome into the line the program prints.
pub fn report_of(res: Result<KeyboardState, Error>) -> (r: Report)
    ensures
        r.line@ == report_line_spec(res),
        r.to_error_stream == report_is_error_spec(res),
{
    match res {
        Ok(state) => Report { line: state.render(), to_error_stream: false },
        Err(e) => Report { line: e.message(), to_error_stream: true },
    }
}

/// Everything the program decides after the platform calls: gate each step
/// in order and produce the one line to print.
pub fn run(s: Session) -> (r: Report)
    ensures
        r.line@ == report_line_spec(outcome_spec(s)),
        r.to_error_stream == report_is_error_spec(outcome_spec(s)),
{
    match s {
        Session::OpenFailed => report_of(Err(Error::DisplayOpenFailed)),
        Session::Fetched(rec) => match fetch_step(rec) {
            Err(e) => report_of(Err(e)),
            Ok(passed) => report_of(KeyboardState::try_from_record(passed)),
        },
    }
}

/// Law: through the full chain the defensive decoder error never arises,
/// because the fetcher gate already refused every null record.
pub proof fn lemma_keyboard_null_unreachable(s: Session)
    ensures
        outcome_spec(s) != Err::<KeyboardState, Error>(Error::KeyboardNull),
{
}

} // verus!
