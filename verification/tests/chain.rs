use kbled::error::Error;
use kbled::run::Session;
use kbled::run::fetch_step;
use kbled::run::run;
use kbled::state::RawKeyboardRecord;

fn fetched(mask: u64) -> Session {
    Session::Fetched(Some(RawKeyboardRecord { led_mask: mask }))
}

#[test]
fn open_failure_reports_exactly_that() {
    let r = run(Session::OpenFailed);
    assert!(r.to_error_stream);
    assert_eq!(r.line, "Failed to open display");
}

#[test]
fn query_failure_reports_exactly_that() {
    let r = run(Session::Fetched(None));
    assert!(r.to_error_stream);
    assert_eq!(
        r.line,
        "Failed to grab the keyboard from X11 (xlib::XGetKeyboardControl)"
    );
}

#[test]
fn mask_three_reports_both_on() {
    let r = run(fetched(0b11));
    assert!(!r.to_error_stream);
    assert_eq!(r.line, "capslock=true;numlock=true");
}

#[test]
fn mask_zero_reports_both_off() {
    let r = run(fetched(0b00));
    assert!(!r.to_error_stream);
    assert_eq!(r.line, "capslock=false;numlock=false");
}

#[test]
fn mask_two_reports_num_only() {
    let r = run(fetched(0b10));
    assert!(!r.to_error_stream);
    assert_eq!(r.line, "capslock=false;numlock=true");
}

#[test]
fn fetch_gate_refuses_null_record() {
    assert_eq!(fetch_step(None), Err(Error::KeyboardError));
    let rec = Some(RawKeyboardRecord { led_mask: 7 });
    assert_eq!(fetch_step(rec), Ok(rec));
}
