//! Telemetry decoding.
//!
//! The device streams raw HID reports as UDP datagrams. A well-formed
//! datagram is at least 20 bytes: byte 1 is the mouse button mask, bytes
//! 2..8 are three little-endian signed 16-bit words (x, y, wheel), byte 9 is
//! the keyboard modifier mask and bytes 10..20 are up to ten raw key codes.
//! Shorter datagrams carry no report and are dropped.

use vstd::prelude::*;
use crate::protocol::{i16_of_le, HardKeyboard, HardMouse};

verus! {

/// The mouse report encoded in a well-formed telemetry datagram.
pub open spec fn spec_decode_mouse(d: Seq<u8>) -> HardMouse {
    HardMouse {
        buttons: d[1],
        x: i16_of_le(d[2], d[3]),
        y: i16_of_le(d[4], d[5]),
        wheel: i16_of_le(d[6], d[7]),
    }
}

/// The modifier mask and key codes encoded in a well-formed telemetry
/// datagram.
pub open spec fn spec_decode_keyboard_buttons(d: Seq<u8>) -> u8 {
    d[9]
}

pub open spec fn spec_decode_keyboard_data(d: Seq<u8>) -> Seq<u8> {
    d.subrange(10, 20)
}

/// The signed 16-bit value of two little-endian bytes.
pub fn i16_from_le(lo: u8, hi: u8) -> (r: i16)
    ensures
        r == i16_of_le(lo, hi),
{
    let v: u32 = lo as u32 + hi as u32 * 0x100;
    if v < 0x8000 {
        v as i16
    } else {
        ((v as i64) - 0x1_0000i64) as i16
    }
}

/// Decodes one telemetry datagram. Datagrams shorter than 20 bytes carry no
/// report and decode to nothing; otherwise the mouse and keyboard reports
/// are read field by field from their fixed offsets.
pub fn decode_datagram(buf: &Vec<u8>) -> (r: Option<(HardMouse, HardKeyboard)>)
    ensures
        buf@.len() < 20 ==> r is None,
        buf@.len() >= 20 ==> (r matches Some(p) && p.0 == spec_decode_mouse(buf@) && p.1.buttons
            == spec_decode_keyboard_buttons(buf@) && p.1.data@ == spec_decode_keyboard_data(buf@)),
{
    if buf.len() < 20 {
        return None;
    }
    let mouse = HardMouse {
        buttons: buf[1],
        x: i16_from_le(buf[2], buf[3]),
        y: i16_from_le(buf[4], buf[5]),
        wheel: i16_from_le(buf[6], buf[7]),
    };
    let mut data: Vec<u8> = Vec::new();
    let mut i: usize = 10;
    while i < 20
        invariant
            10 <= i <= 20,
            buf@.len() >= 20,
            data@ == buf@.subrange(10, i as int),
        decreases 20 - i,
    {
        data.push(buf[i]);
        assert(data@ =~= buf@.subrange(10, (i + 1) as int));
        i = i + 1;
    }
    let keyboard = HardKeyboard { buttons: buf[9], data };
    Some((mouse, keyboard))
}

} // verus!
