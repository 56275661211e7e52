//! Decoding the indicator bitmask and rendering the result.
//!
//! The platform's raw keyboard-state record is modelled by
//! [`RawKeyboardRecord`], which holds the one field the decoder reads: the
//! LED indicator bitmask.  Bit 0 means Caps Lock is engaged, bit 1 means Num
//! Lock is engaged; no other bit is interpreted.

use vstd::prelude::*;

use crate::error::Error;

verus! {

/// What the decoder reads from the platform's raw keyboard-state record.
#[derive(Clone, Copy, PartialEq, Eq, Structural, Debug)]
pub struct RawKeyboardRecord {
    /// The LED indicator bitmask reported by the keyboard query.
    pub led_mask: u64,
}

/// The two keyboard indicators this program reports.
#[derive(Clone, Copy, PartialEq, Eq, Structural, Debug)]
pub struct KeyboardState {
    /// Caps Lock is engaged (bit 0 of the mask).
    pub caps: bool,
    /// Num Lock is engaged (bit 1 of the mask).
    pub num: bool,
}

/// Bit 0 of the mask: Caps Lock.
pub open spec fn caps_of(mask: u64) -> bool {
    mask & 1 == 1
}

/// Bit 1 of the mask: Num Lock.
pub open spec fn num_of(mask: u64) -> bool {
    mask & 2 == 2
}

/// Both indicators, as decoded from a mask.
pub open spec fn decode_spec(mask: u64) -> KeyboardState {
    KeyboardState { caps: caps_of(mask), num: num_of(mask) }
}

/// What decoding a possibly-null record yields: a null record is refused
/// with [`Error::KeyboardNull`], any other record is decoded from its mask.
pub open spec fn try_from_record_spec(rec: Option<RawKeyboardRecord>) -> Result<
    KeyboardState,
    Error,
> {
    match rec {
        None => Err(Error::KeyboardNull),
        Some(r) => Ok(decode_spec(r.led_mask)),
    }
}

/// The rendered success line for a pair of indicator flags: one of the four
/// strings `capslock=<bool>;numlock=<bool>` with lowercase boolean literals.
pub open spec fn render_spec(caps: bool, num: bool) -> Seq<char> {
    if caps {
        if num {
            "capslock=true;numlock=true"@
        } else {
            "capslock=true;numlock=false"@
        }
    } else {
        if num {
            "capslock=false;numlock=true"@
        } else {
            "capslock=false;numlock=false"@
        }
    }
}

impl KeyboardState {
    /// Extracts the two indicator bits from a mask.
    pub fn from_mask(mask: u64) -> (r: Self)
        ensures
            r == decode_spec(mask),
            r.caps == (mask & 1 == 1),
            r.num == (mask & 2 == 2),
    {
        KeyboardState { caps: mask & 1 == 1, num: mask & 2 == 2 }
    }

    /// The decoder: refuses a null record, otherwise extracts the two
    /// indicator bits from its mask.
    pub fn try_from_record(rec: Option<RawKeyboardRecord>) -> (r: Result<Self, Error>)
        ensures
            r == try_from_record_spec(rec),
    {
        match rec {
            None => Err(Error::KeyboardNull),
            Some(record) => Ok(Self::from_mask(record.led_mask)),
        }
    }

    /// The success line for this state.
    pub fn render(&self) -> (r: String)
        ensures
            r@ == render_spec(self.caps, self.num),
    {
        if self.caps {
            if self.num {
                "capslock=true;numlock=true".to_owned()
            } else {
                "capslock=true;numlock=false".to_owned()
            }
        } else {
            if self.num {
                "capslock=false;numlock=true".to_owned()
            } else {
                "capslock=false;numlock=false".to_owned()
            }
        }
    }
}

/// Law: the decoded indicators depend on the two low bits of the mask alone;
/// any other bits set in the mask leave the result unchanged.
pub proof fn lemma_decode_low_bits_only(m1: u64, m2: u64)
    requires
        m1 & 3 == m2 & 3,
    ensures
        decode_spec(m1) == decode_spec(m2),
{
    assert(m1 & 3 == m2 & 3 ==> ((m1 & 1 == 1) == (m2 & 1 == 1))) by (bit_vector);
    assert(m1 & 3 == m2 & 3 ==> ((m1 & 2 == 2) == (m2 & 2 == 2))) by (bit_vector);
}

/// Law: decoding is pure.  Any two results that satisfy the decoder's
/// contract on the same record are identical, so decoding a record twice
/// yields the same output both times.
pub proof fn lemma_decode_deterministic(
    rec: Option<RawKeyboardRecord>,
    r1: Result<KeyboardState, Error>,
    r2: Result<KeyboardState, Error>,
)
    requires
        r1 == try_from_record_spec(rec),
        r2 == try_from_record_spec(rec),
    ensures
        r1 == r2,
{
}

/// Law: the rendered line is always one of the four expected strings.
pub proof fn lemma_render_one_of_four(caps: bool, num: bool)
    ensures
        render_spec(caps, num) == "capslock=false;numlock=false"@ || render_spec(caps, num)
            == "capslock=true;numlock=false"@ || render_spec(caps, num)
            == "capslock=false;numlock=true"@ || render_spec(caps, num)
            == "capslock=true;numlock=true"@,
{
}

/// Law: rendering round-trips.  Two flag pairs render to the same line only
/// when they are the same pair, so the line determines both indicators.
pub proof fn lemma_render_injective(c1: bool, n1: bool, c2: bool, n2: bool)
    ensures
        render_spec(c1, n1) == render_spec(c2, n2) <==> (c1 == c2 && n1 == n2),
{
    reveal_strlit("capslock=true;numlock=true");
    reveal_strlit("capslock=true;numlock=false");
    reveal_strlit("capslock=false;numlock=true");
    reveal_strlit("capslock=false;numlock=false");
    assert(("capslock=true;numlock=true"@).len() == 26);
    assert(("capslock=true;numlock=false"@).len() == 27);
    assert(("capslock=false;numlock=true"@).len() == 27);
    assert(("capslock=false;numlock=false"@).len() == 28);
    assert(("capslock=true;numlock=false"@)[9] == 't');
    assert(("capslock=false;numlock=true"@)[9] == 'f');
}

} // verus!
