//! USB HID key usage codes and the bit masks used for the modifier byte.
//!
//! The device understands standard HID usage IDs. Codes `0xE0..=0xE7` are the
//! eight modifier keys; they are reported as bits of the modifier byte rather
//! than as key slots.

use vstd::prelude::*;

verus! {

pub const BIT0: u8 = 0x01;
pub const BIT1: u8 = 0x02;
pub const BIT2: u8 = 0x04;
pub const BIT3: u8 = 0x08;
pub const BIT4: u8 = 0x10;
pub const BIT5: u8 = 0x20;
pub const BIT6: u8 = 0x40;
pub const BIT7: u8 = 0x80;

pub const KEY_A: u8 = 0x04;
pub const KEY_B: u8 = 0x05;
pub const KEY_C: u8 = 0x06;
pub const KEY_D: u8 = 0x07;
pub const KEY_E: u8 = 0x08;
pub const KEY_F: u8 = 0x09;
pub const KEY_G: u8 = 0x0A;
pub const KEY_H: u8 = 0x0B;
pub const KEY_I: u8 = 0x0C;
pub const KEY_J: u8 = 0x0D;
pub const KEY_K: u8 = 0x0E;
pub const KEY_L: u8 = 0x0F;
pub const KEY_M: u8 = 0x10;
pub const KEY_N: u8 = 0x11;
pub const KEY_O: u8 = 0x12;
pub const KEY_P: u8 = 0x13;
pub const KEY_Q: u8 = 0x14;
pub const KEY_R: u8 = 0x15;
pub const KEY_S: u8 = 0x16;
pub const KEY_T: u8 = 0x17;
pub const KEY_U: u8 = 0x18;
pub const KEY_V: u8 = 0x19;
pub const KEY_W: u8 = 0x1A;
pub const KEY_X: u8 = 0x1B;
pub const KEY_Y: u8 = 0x1C;
pub const KEY_Z: u8 = 0x1D;

pub const KEY_1_EXCLAMATION_MARK: u8 = 0x1E;
pub const KEY_2_AT: u8 = 0x1F;
pub const KEY_3_NUMBER_SIGN: u8 = 0x20;
pub const KEY_4_DOLLAR: u8 = 0x21;
pub const KEY_5_PERCENT: u8 = 0x22;
pub const KEY_6_CARET: u8 = 0x23;
pub const KEY_7_AMPERSAND: u8 = 0x24;
pub const KEY_8_ASTERISK: u8 = 0x25;
pub const KEY_9_OPARENTHESIS: u8 = 0x26;
pub const KEY_0_CPARENTHESIS: u8 = 0x27;

pub const KEY_ENTER: u8 = 0x28;
pub const KEY_ESCAPE: u8 = 0x29;
pub const KEY_BACKSPACE: u8 = 0x2A;
pub const KEY_TAB: u8 = 0x2B;
pub const KEY_SPACEBAR: u8 = 0x2C;
pub const KEY_CAPS_LOCK: u8 = 0x39;

pub const KEY_F1: u8 = 0x3A;
pub const KEY_F2: u8 = 0x3B;
pub const KEY_F3: u8 = 0x3C;
pub const KEY_F4: u8 = 0x3D;
pub const KEY_F5: u8 = 0x3E;
pub const KEY_F6: u8 = 0x3F;
pub const KEY_F7: u8 = 0x40;
pub const KEY_F8: u8 = 0x41;
pub const KEY_F9: u8 = 0x42;
pub const KEY_F10: u8 = 0x43;
pub const KEY_F11: u8 = 0x44;
pub const KEY_F12: u8 = 0x45;

pub const KEY_LEFTCONTROL: u8 = 0xE0;
pub const KEY_LEFTSHIFT: u8 = 0xE1;
pub const KEY_LEFTALT: u8 = 0xE2;
pub const KEY_LEFT_GUI: u8 = 0xE3;
pub const KEY_RIGHTCONTROL: u8 = 0xE4;
pub const KEY_RIGHTSHIFT: u8 = 0xE5;
pub const KEY_RIGHTALT: u8 = 0xE6;
pub const KEY_RIGHT_GUI: u8 = 0xE7;

/// True exactly for the eight modifier usage codes.
pub open spec fn is_modifier(code: u8) -> bool {
    KEY_LEFTCONTROL <= code <= KEY_RIGHT_GUI
}

} // verus!
