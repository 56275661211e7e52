use kbled::error::Error;
use kbled::state::KeyboardState;
use kbled::state::RawKeyboardRecord;

#[test]
fn decode_all_four_low_bit_patterns() {
    let s = KeyboardState::from_mask(0);
    assert!(!s.caps && !s.num);
    let s = KeyboardState::from_mask(1);
    assert!(s.caps && !s.num);
    let s = KeyboardState::from_mask(2);
    assert!(!s.caps && s.num);
    let s = KeyboardState::from_mask(3);
    assert!(s.caps && s.num);
}

#[test]
fn decode_ignores_high_bits() {
    // Other indicator bits set must not change the two reported flags.
    let s = KeyboardState::from_mask(0xFFFF_FFFF_FFFF_FFFC);
    assert!(!s.caps && !s.num);
    let s = KeyboardState::from_mask(0xFFFF_FFFF_FFFF_FFFF);
    assert!(s.caps && s.num);
    let s = KeyboardState::from_mask(0b101);
    assert!(s.caps && !s.num);
    let s = KeyboardState::from_mask(0b110);
    assert!(!s.caps && s.num);
}

#[test]
fn decode_same_record_twice_is_identical() {
    let rec = Some(RawKeyboardRecord { led_mask: 0b10 });
    let first = KeyboardState::try_from_record(rec);
    let second = KeyboardState::try_from_record(rec);
    assert_eq!(first, second);
    assert_eq!(
        first.unwrap().render(),
        second.unwrap().render()
    );
}

#[test]
fn decode_null_record_is_refused() {
    let r = KeyboardState::try_from_record(None);
    assert_eq!(r, Err(Error::KeyboardNull));
}

#[test]
fn decode_present_record_succeeds() {
    let r = KeyboardState::try_from_record(Some(RawKeyboardRecord { led_mask: 1 }));
    assert_eq!(r, Ok(KeyboardState { caps: true, num: false }));
}
