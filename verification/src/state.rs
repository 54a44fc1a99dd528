//! The value types that cross the broker's boundary: the pad state a
//! remote sends, the fixed-layout report the driver consumes, and the
//! notification event the driver emits.

use vstd::prelude::*;

use crate::buttons::X360Buttons;

verus! {

/// The fixed-layout input report of an Xbox-360 pad, exactly as the
/// driver consumes it. Field order and widths are part of the driver's
/// interface and must stay bit-exact.
#[derive(Clone, Copy, Debug, PartialEq, Eq, Structural)]
pub struct XusbReport {
    pub w_buttons: u16,
    pub b_left_trigger: u8,
    pub b_right_trigger: u8,
    pub s_thumb_lx: i16,
    pub s_thumb_ly: i16,
    pub s_thumb_rx: i16,
    pub s_thumb_ry: i16,
}

/// The neutral report: no button pressed, triggers released, both
/// thumbsticks centered. A freshly attached pad reports this.
pub open spec fn neutral_report() -> XusbReport {
    XusbReport {
        w_buttons: 0,
        b_left_trigger: 0,
        b_right_trigger: 0,
        s_thumb_lx: 0,
        s_thumb_ly: 0,
        s_thumb_rx: 0,
        s_thumb_ry: 0,
    }
}

/// An immutable snapshot of an Xbox-360 pad's state.
#[derive(Clone, Copy, Debug)]
pub struct X360State {
    /// The pressed buttons.
    pub buttons: X360Buttons,
    /// The left analog trigger, 0 to 255.
    pub left_trigger: u8,
    /// The right analog trigger, 0 to 255.
    pub right_trigger: u8,
    /// The left thumbstick axes, X then Y.
    pub left_thumbstick: (i16, i16),
    /// The right thumbstick axes, X then Y.
    pub right_thumbstick: (i16, i16),
}

impl X360State {
    /// The driver report that this state translates to.
    pub open spec fn spec_report(self) -> XusbReport {
        XusbReport {
            w_buttons: self.buttons.spec_bits(),
            b_left_trigger: self.left_trigger,
            b_right_trigger: self.right_trigger,
            s_thumb_lx: self.left_thumbstick.0,
            s_thumb_ly: self.left_thumbstick.1,
            s_thumb_rx: self.right_thumbstick.0,
            s_thumb_ry: self.right_thumbstick.1,
        }
    }

    /// Translate this state into the driver's fixed-layout report,
    /// field for field.
    pub fn to_xusb_report(self) -> (r: XusbReport)
        ensures
            r == self.spec_report(),
    {
        XusbReport {
            w_buttons: self.buttons.bits(),
            b_left_trigger: self.left_trigger,
            b_right_trigger: self.right_trigger,
            s_thumb_lx: self.left_thumbstick.0,
            s_thumb_ly: self.left_thumbstick.1,
            s_thumb_rx: self.right_thumbstick.0,
            s_thumb_ry: self.right_thumbstick.1,
        }
    }

    /// Build a state from the plain wire fields of a remote frame,
    /// rejecting a button mask with unknown bits as the decoder must.
    pub fn from_wire(
        buttons: u16,
        left_trigger: u8,
        right_trigger: u8,
        left_thumbstick: (i16, i16),
        right_thumbstick: (i16, i16),
    ) -> (r: Option<X360State>)
        ensures
            r is Some <==> crate::buttons::valid_button_bits(buttons),
            r matches Some(s) ==> {
                &&& s.buttons.spec_bits() == buttons
                &&& s.left_trigger == left_trigger
                &&& s.right_trigger == right_trigger
                &&& s.left_thumbstick == left_thumbstick
                &&& s.right_thumbstick == right_thumbstick
            },
    {
        match X360Buttons::from_bits(buttons) {
            Some(b) => Some(
                X360State {
                    buttons: b,
                    left_trigger,
                    right_trigger,
                    left_thumbstick,
                    right_thumbstick,
                },
            ),
            None => None,
        }
    }
}

impl Default for X360State {
    /// The default state translates to the neutral report.
    fn default() -> (r: Self)
        ensures
            r.spec_report() == neutral_report(),
    {
        X360State {
            buttons: X360Buttons::empty(),
            left_trigger: 0,
            right_trigger: 0,
            left_thumbstick: (0, 0),
            right_thumbstick: (0, 0),
        }
    }
}

/// A notification from an Xbox-360 pad, emitted asynchronously by the
/// driver: vibration magnitudes for both motors and the player LED index.
#[derive(Clone, Copy, Debug, PartialEq, Eq, Structural)]
pub struct X360NotificationData {
    /// How much the large motor should be vibrating.
    pub large_motor: u8,
    /// How much the small motor should be vibrating.
    pub small_motor: u8,
    /// Which player this pad is.
    pub led_number: u8,
}

impl X360NotificationData {
    /// Decode the raw byte fields the driver hands its callback into a
    /// typed event.
    pub fn from_raw(large_motor: u8, small_motor: u8, led_number: u8) -> (r: X360NotificationData)
        ensures
            r.large_motor == large_motor,
            r.small_motor == small_motor,
            r.led_number == led_number,
    {
        X360NotificationData { large_motor, small_motor, led_number }
    }
}

} // verus!
