//! The button bitmask of an Xbox-360-style pad.
//!
//! The bit assignment is fixed by the wire protocol shared with remote
//! clients and by the driver's report layout, so it must stay bit-exact.

use vstd::prelude::*;

verus! {

pub const DPAD_UP: u16 = 0x0001;
pub const DPAD_DOWN: u16 = 0x0002;
pub const DPAD_LEFT: u16 = 0x0004;
pub const DPAD_RIGHT: u16 = 0x0008;
pub const START: u16 = 0x0010;
pub const BACK: u16 = 0x0020;
pub const LEFT_THUMB: u16 = 0x0040;
pub const RIGHT_THUMB: u16 = 0x0080;
pub const LEFT_SHOULDER: u16 = 0x0100;
pub const RIGHT_SHOULDER: u16 = 0x0200;
pub const A: u16 = 0x1000;
pub const B: u16 = 0x2000;
pub const X: u16 = 0x4000;
pub const Y: u16 = 0x8000;

/// Every bit that names a button; the remaining bits of a `u16` are invalid.
pub const ALL_BUTTONS: u16 = DPAD_UP | DPAD_DOWN | DPAD_LEFT | DPAD_RIGHT | START | BACK
    | LEFT_THUMB | RIGHT_THUMB | LEFT_SHOULDER | RIGHT_SHOULDER | A | B | X | Y;

/// A set of pressed buttons, one bit per button.
#[derive(Clone, Copy, Debug, PartialEq, Eq, Structural)]
pub struct X360Buttons {
    bits: u16,
}

/// A `u16` is a valid button mask exactly when it sets no bit outside
/// the named buttons.
pub open spec fn valid_button_bits(bits: u16) -> bool {
    bits & !ALL_BUTTONS == 0
}

impl X360Buttons {
    pub closed spec fn spec_bits(&self) -> u16 {
        self.bits
    }

    /// No buttons pressed.
    pub fn empty() -> (r: X360Buttons)
        ensures
            r.spec_bits() == 0,
    {
        X360Buttons { bits: 0 }
    }

    /// The raw mask, as it travels on the wire and into the driver report.
    pub fn bits(&self) -> (r: u16)
        ensures
            r == self.spec_bits(),
    {
        self.bits
    }

    /// Accept a raw mask exactly when every set bit names a button;
    /// a mask with unknown bits is rejected.
    pub fn from_bits(bits: u16) -> (r: Option<X360Buttons>)
        ensures
            r is Some <==> valid_button_bits(bits),
            r matches Some(b) ==> b.spec_bits() == bits,
    {
        if bits & !ALL_BUTTONS == 0 {
            Some(X360Buttons { bits })
        } else {
            None
        }
    }

    /// True when every button of `mask` is pressed.
    pub fn contains(&self, mask: u16) -> (r: bool)
        ensures
            r == (self.spec_bits() & mask == mask),
    {
        self.bits & mask == mask
    }
}

impl Default for X360Buttons {
    /// The default is no buttons pressed.
    fn default() -> (r: Self)
        ensures
            r.spec_bits() == 0,
    {
        X360Buttons { bits: 0 }
    }
}

} // verus!
