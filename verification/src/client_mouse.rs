//! Mouse command surface.
//!
//! Every method is a read-modify-write of the session's single authoritative
//! mouse report followed by one full-report frame. Relative axes (`x`, `y`,
//! `wheel`) are deltas: the methods that set them clear them again as soon as
//! the frame is built, before the caller can even attempt the send, so no
//! delta ever leaks into a later command.

use vstd::prelude::*;
use crate::client::{
    enc_frame, is_cmd_frame, is_enc_cmd_frame, next_seq, plain_frame, KmBoxNetClient,
};
use crate::protocol::{
    i32_le, kb_eq, mouse_bytes, mouse_bytes_rec, mouse_payload, zero_points, SoftMouse, CMD_BAZER_MOVE,
    CMD_MOUSE_AUTOMOVE, CMD_MOUSE_LEFT, CMD_MOUSE_MIDDLE, CMD_MOUSE_MOVE, CMD_MOUSE_RIGHT,
    CMD_MOUSE_WHEEL,
};

verus! {

/// The button mask with one bit asserted or deasserted.
pub open spec fn button_set(b: i32, mask: i32, down: bool) -> i32 {
    if down {
        b | mask
    } else {
        b & !mask
    }
}

/// Everything a mouse command leaves alone: identity, key, keyboard report
/// and mask state.
pub open spec fn mouse_cmd_frame_ok(pre: KmBoxNetClient, post: KmBoxNetClient) -> bool {
    post.mac == pre.mac && post.key@ == pre.key@ && kb_eq(post.soft_keyboard, pre.soft_keyboard)
        && post.mask_keyboard_mouse_flag == pre.mask_keyboard_mouse_flag && post.indexpts
        == next_seq(pre.indexpts)
}

impl KmBoxNetClient {
    /// Relative move: the report is sent with the given deltas and the
    /// tracked deltas are zero again when the call returns, whatever the
    /// transport later reports.
    pub fn mouse_move(&mut self, x: i32, y: i32) -> (frame: Vec<u8>)
        requires
            old(self).wf(),
        ensures
            final(self).wf(),
            mouse_cmd_frame_ok(*old(self), *final(self)),
            final(self).soft_mouse.x == 0 && final(self).soft_mouse.y == 0,
            final(self).soft_mouse.button == old(self).soft_mouse.button,
            final(self).soft_mouse.wheel == old(self).soft_mouse.wheel,
            final(self).soft_mouse.point@ == old(self).soft_mouse.point@,
            is_cmd_frame(
                frame@,
                old(self).mac,
                next_seq(old(self).indexpts),
                CMD_MOUSE_MOVE,
                mouse_bytes(SoftMouse { x, y, ..old(self).soft_mouse }),
            ),
    {
        self.soft_mouse.x = x;
        self.soft_mouse.y = y;
        let payload = mouse_payload(&self.soft_mouse);
        let frame = self.command_frame_random(CMD_MOUSE_MOVE, &payload);
        self.soft_mouse.x = 0;
        self.soft_mouse.y = 0;
        frame
    }

    /// Left button: asserts or deasserts bit 0 and sends the report.
    pub fn mouse_left(&mut self, is_down: bool) -> (frame: Vec<u8>)
        requires
            old(self).wf(),
        ensures
            final(self).wf(),
            mouse_cmd_frame_ok(*old(self), *final(self)),
            final(self).soft_mouse.button == button_set(old(self).soft_mouse.button, 0x01, is_down),
            final(self).soft_mouse.x == old(self).soft_mouse.x,
            final(self).soft_mouse.y == old(self).soft_mouse.y,
            final(self).soft_mouse.wheel == old(self).soft_mouse.wheel,
            final(self).soft_mouse.point@ == old(self).soft_mouse.point@,
            is_cmd_frame(
                frame@,
                old(self).mac,
                next_seq(old(self).indexpts),
                CMD_MOUSE_LEFT,
                mouse_bytes(final(self).soft_mouse),
            ),
    {
        self.soft_mouse.button = if is_down {
            self.soft_mouse.button | 0x01
        } else {
            self.soft_mouse.button & !0x01
        };
        let payload = mouse_payload(&self.soft_mouse);
        self.command_frame_random(CMD_MOUSE_LEFT, &payload)
    }

    /// Right button: asserts or deasserts bit 1 and sends the report.
    pub fn mouse_right(&mut self, is_down: bool) -> (frame: Vec<u8>)
        requires
            old(self).wf(),
        ensures
            final(self).wf(),
            mouse_cmd_frame_ok(*old(self), *final(self)),
            final(self).soft_mouse.button == button_set(old(self).soft_mouse.button, 0x02, is_down),
            final(self).soft_mouse.x == old(self).soft_mouse.x,
            final(self).soft_mouse.y == old(self).soft_mouse.y,
            final(self).soft_mouse.wheel == old(self).soft_mouse.wheel,
            final(self).soft_mouse.point@ == old(self).soft_mouse.point@,
            is_cmd_frame(
                frame@,
                old(self).mac,
                next_seq(old(self).indexpts),
                CMD_MOUSE_RIGHT,
                mouse_bytes(final(self).soft_mouse),
            ),
    {
        self.soft_mouse.button = if is_down {
            self.soft_mouse.button | 0x02
        } else {
            self.soft_mouse.button & !0x02
        };
        let payload = mouse_payload(&self.soft_mouse);
        self.command_frame_random(CMD_MOUSE_RIGHT, &payload)
    }

    /// Middle button: asserts or deasserts bit 2 and sends the report.
    pub fn mouse_middle(&mut self, is_down: bool) -> (frame: Vec<u8>)
        requires
            old(self).wf(),
        ensures
            final(self).wf(),
            mouse_cmd_frame_ok(*old(self), *final(self)),
            final(self).soft_mouse.button == button_set(old(self).soft_mouse.button, 0x04, is_down),
            final(self).soft_mouse.x == old(self).soft_mouse.x,
            final(self).soft_mouse.y == old(self).soft_mouse.y,
            final(self).soft_mouse.wheel == old(self).soft_mouse.wheel,
            final(self).soft_mouse.point@ == old(self).soft_mouse.point@,
            is_cmd_frame(
                frame@,
                old(self).mac,
                next_seq(old(self).indexpts),
                CMD_MOUSE_MIDDLE,
                mouse_bytes(final(self).soft_mouse),
            ),
    {
        self.soft_mouse.button = if is_down {
            self.soft_mouse.button | 0x04
        } else {
            self.soft_mouse.button & !0x04
        };
        let payload = mouse_payload(&self.soft_mouse);
        self.command_frame_random(CMD_MOUSE_MIDDLE, &payload)
    }

    /// Side button 1 (back): asserts or deasserts bit 3; the device takes
    /// side-button reports on the left-button command code.
    pub fn mouse_side1(&mut self, is_down: bool) -> (frame: Vec<u8>)
        requires
            old(self).wf(),
        ensures
            final(self).wf(),
            mouse_cmd_frame_ok(*old(self), *final(self)),
            final(self).soft_mouse.button == button_set(old(self).soft_mouse.button, 0x08, is_down),
            final(self).soft_mouse.x == old(self).soft_mouse.x,
            final(self).soft_mouse.y == old(self).soft_mouse.y,
            final(self).soft_mouse.wheel == old(self).soft_mouse.wheel,
            final(self).soft_mouse.point@ == old(self).soft_mouse.point@,
            is_cmd_frame(
                frame@,
                old(self).mac,
                next_seq(old(self).indexpts),
                CMD_MOUSE_LEFT,
                mouse_bytes(final(self).soft_mouse),
            ),
    {
        self.soft_mouse.button = if is_down {
            self.soft_mouse.button | 0x08
        } else {
            self.soft_mouse.button & !0x08
        };
        let payload = mouse_payload(&self.soft_mouse);
        self.command_frame_random(CMD_MOUSE_LEFT, &payload)
    }

    /// Side button 2 (forward): asserts or deasserts bit 4; reported on the
    /// left-button command code.
    pub fn mouse_side2(&mut self, is_down: bool) -> (frame: Vec<u8>)
        requires
            old(self).wf(),
        ensures
            final(self).wf(),
            mouse_cmd_frame_ok(*old(self), *final(self)),
            final(self).soft_mouse.button == button_set(old(self).soft_mouse.button, 0x10, is_down),
            final(self).soft_mouse.x == old(self).soft_mouse.x,
            final(self).soft_mouse.y == old(self).soft_mouse.y,
            final(self).soft_mouse.wheel == old(self).soft_mouse.wheel,
            final(self).soft_mouse.point@ == old(self).soft_mouse.point@,
            is_cmd_frame(
                frame@,
                old(self).mac,
                next_seq(old(self).indexpts),
                CMD_MOUSE_LEFT,
                mouse_bytes(final(self).soft_mouse),
            ),
    {
        self.soft_mouse.button = if is_down {
            self.soft_mouse.button | 0x10
        } else {
            self.soft_mouse.button & !0x10
        };
        let payload = mouse_payload(&self.soft_mouse);
        self.command_frame_random(CMD_MOUSE_LEFT, &payload)
    }

    /// Wheel scroll: the report is sent with the given wheel delta and the
    /// tracked delta is zero again when the call returns.
    pub fn mouse_wheel(&mut self, wheel: i32) -> (frame: Vec<u8>)
        requires
            old(self).wf(),
        ensures
            final(self).wf(),
            mouse_cmd_frame_ok(*old(self), *final(self)),
            final(self).soft_mouse.wheel == 0,
            final(self).soft_mouse.button == old(self).soft_mouse.button,
            final(self).soft_mouse.x == old(self).soft_mouse.x,
            final(self).soft_mouse.y == old(self).soft_mouse.y,
            final(self).soft_mouse.point@ == old(self).soft_mouse.point@,
            is_cmd_frame(
                frame@,
                old(self).mac,
                next_seq(old(self).indexpts),
                CMD_MOUSE_WHEEL,
                mouse_bytes(SoftMouse { wheel, ..old(self).soft_mouse }),
            ),
    {
        self.soft_mouse.wheel = wheel;
        let payload = mouse_payload(&self.soft_mouse);
        let frame = self.command_frame_random(CMD_MOUSE_WHEEL, &payload);
        self.soft_mouse.wheel = 0;
        frame
    }

    /// Full report: sets button mask and all three deltas at once (sent on
    /// the wheel command code, as the device expects); the deltas are zero
    /// again when the call returns.
    pub fn mouse_all(&mut self, button: i32, x: i32, y: i32, wheel: i32) -> (frame: Vec<u8>)
        requires
            old(self).wf(),
        ensures
            final(self).wf(),
            mouse_cmd_frame_ok(*old(self), *final(self)),
            final(self).soft_mouse.button == button,
            final(self).soft_mouse.x == 0 && final(self).soft_mouse.y == 0,
            final(self).soft_mouse.wheel == 0,
            final(self).soft_mouse.point@ == old(self).soft_mouse.point@,
            is_cmd_frame(
                frame@,
                old(self).mac,
                next_seq(old(self).indexpts),
                CMD_MOUSE_WHEEL,
                mouse_bytes(SoftMouse { button, x, y, wheel, ..old(self).soft_mouse }),
            ),
    {
        self.soft_mouse.button = button;
        self.soft_mouse.x = x;
        self.soft_mouse.y = y;
        self.soft_mouse.wheel = wheel;
        let payload = mouse_payload(&self.soft_mouse);
        let frame = self.command_frame_random(CMD_MOUSE_WHEEL, &payload);
        self.soft_mouse.x = 0;
        self.soft_mouse.y = 0;
        self.soft_mouse.wheel = 0;
        frame
    }

    /// Firmware-timed move: the duration in milliseconds rides in the nonce
    /// field, so the frame is fully determined; deltas are zero again when
    /// the call returns.
    pub fn mouse_move_auto(&mut self, x: i32, y: i32, ms: u32) -> (frame: Vec<u8>)
        requires
            old(self).wf(),
        ensures
            final(self).wf(),
            mouse_cmd_frame_ok(*old(self), *final(self)),
            final(self).soft_mouse.x == 0 && final(self).soft_mouse.y == 0,
            final(self).soft_mouse.button == old(self).soft_mouse.button,
            final(self).soft_mouse.wheel == old(self).soft_mouse.wheel,
            final(self).soft_mouse.point@ == old(self).soft_mouse.point@,
            frame@ == plain_frame(
                old(self).mac,
                ms,
                next_seq(old(self).indexpts),
                CMD_MOUSE_AUTOMOVE,
                mouse_bytes(SoftMouse { x, y, ..old(self).soft_mouse }),
            ),
    {
        self.soft_mouse.x = x;
        self.soft_mouse.y = y;
        let payload = mouse_payload(&self.soft_mouse);
        let frame = self.command_frame(CMD_MOUSE_AUTOMOVE, &payload, ms);
        self.soft_mouse.x = 0;
        self.soft_mouse.y = 0;
        frame
    }

    /// Bezier curve move: target in the axes, the two control points in the
    /// first four curve words, duration in the nonce field. Deltas and curve
    /// words are zero again when the call returns.
    #[verifier::rlimit(60)]
    pub fn mouse_move_beizer(
        &mut self,
        x: i32,
        y: i32,
        ms: u32,
        x1: i32,
        y1: i32,
        x2: i32,
        y2: i32,
    ) -> (frame: Vec<u8>)
        requires
            old(self).wf(),
        ensures
            final(self).wf(),
            mouse_cmd_frame_ok(*old(self), *final(self)),
            final(self).soft_mouse.x == 0 && final(self).soft_mouse.y == 0,
            final(self).soft_mouse.button == old(self).soft_mouse.button,
            final(self).soft_mouse.wheel == old(self).soft_mouse.wheel,
            forall|i: int| 0 <= i < 10 ==> final(self).soft_mouse.point@[i] == 0,
            frame@ == plain_frame(
                old(self).mac,
                ms,
                next_seq(old(self).indexpts),
                CMD_BAZER_MOVE,
                curve_payload(old(self).soft_mouse, x, y, x1, y1, x2, y2),
            ),
    {
        self.soft_mouse.x = x;
        self.soft_mouse.y = y;
        self.soft_mouse.point.set(0, x1);
        self.soft_mouse.point.set(1, y1);
        self.soft_mouse.point.set(2, x2);
        self.soft_mouse.point.set(3, y2);
        let payload = mouse_payload(&self.soft_mouse);
        let frame = self.command_frame(CMD_BAZER_MOVE, &payload, ms);
        self.soft_mouse.x = 0;
        self.soft_mouse.y = 0;
        self.soft_mouse.point = zero_points();
        frame
    }
    /// As [`KmBoxNetClient::mouse_move`], sent as a ciphered 128-byte block
    /// so identical moves produce different wire bytes.
    pub fn enc_mouse_move(&mut self, x: i32, y: i32) -> (frame: Vec<u8>)
        requires
            old(self).wf(),
        ensures
            final(self).wf(),
            mouse_cmd_frame_ok(*old(self), *final(self)),
            final(self).soft_mouse.x == 0 && final(self).soft_mouse.y == 0,
            final(self).soft_mouse.button == old(self).soft_mouse.button,
            final(self).soft_mouse.wheel == old(self).soft_mouse.wheel,
            final(self).soft_mouse.point@ == old(self).soft_mouse.point@,
            is_enc_cmd_frame(
                frame@,
                old(self).key@,
                old(self).mac,
                next_seq(old(self).indexpts),
                CMD_MOUSE_MOVE,
                mouse_bytes(SoftMouse { x, y, ..old(self).soft_mouse }),
            ),
            frame@.len() == 128,
    {
        self.soft_mouse.x = x;
        self.soft_mouse.y = y;
        let payload = mouse_payload(&self.soft_mouse);
        let frame = self.enc_command_frame_random(CMD_MOUSE_MOVE, &payload);
        self.soft_mouse.x = 0;
        self.soft_mouse.y = 0;
        frame
    }

    /// As [`KmBoxNetClient::mouse_left`], ciphered.
    pub fn enc_mouse_left(&mut self, is_down: bool) -> (frame: Vec<u8>)
        requires
            old(self).wf(),
        ensures
            final(self).wf(),
            mouse_cmd_frame_ok(*old(self), *final(self)),
            final(self).soft_mouse.button == button_set(old(self).soft_mouse.button, 0x01, is_down),
            final(self).soft_mouse.x == old(self).soft_mouse.x,
            final(self).soft_mouse.y == old(self).soft_mouse.y,
            final(self).soft_mouse.wheel == old(self).soft_mouse.wheel,
            final(self).soft_mouse.point@ == old(self).soft_mouse.point@,
            is_enc_cmd_frame(
                frame@,
                old(self).key@,
                old(self).mac,
                next_seq(old(self).indexpts),
                CMD_MOUSE_LEFT,
                mouse_bytes(final(self).soft_mouse),
            ),
            frame@.len() == 128,
    {
        self.soft_mouse.button = if is_down {
            self.soft_mouse.button | 0x01
        } else {
            self.soft_mouse.button & !0x01
        };
        let payload = mouse_payload(&self.soft_mouse);
        self.enc_command_frame_random(CMD_MOUSE_LEFT, &payload)
    }

    /// As [`KmBoxNetClient::mouse_right`], ciphered.
    pub fn enc_mouse_right(&mut self, is_down: bool) -> (frame: Vec<u8>)
        requires
            old(self).wf(),
        ensures
            final(self).wf(),
            mouse_cmd_frame_ok(*old(self), *final(self)),
            final(self).soft_mouse.button == button_set(old(self).soft_mouse.button, 0x02, is_down),
            final(self).soft_mouse.x == old(self).soft_mouse.x,
            final(self).soft_mouse.y == old(self).soft_mouse.y,
            final(self).soft_mouse.wheel == old(self).soft_mouse.wheel,
            final(self).soft_mouse.point@ == old(self).soft_mouse.point@,
            is_enc_cmd_frame(
                frame@,
                old(self).key@,
                old(self).mac,
                next_seq(old(self).indexpts),
                CMD_MOUSE_RIGHT,
                mouse_bytes(final(self).soft_mouse),
            ),
            frame@.len() == 128,
    {
        self.soft_mouse.button = if is_down {
            self.soft_mouse.button | 0x02
        } else {
            self.soft_mouse.button & !0x02
        };
        let payload = mouse_payload(&self.soft_mouse);
        self.enc_command_frame_random(CMD_MOUSE_RIGHT, &payload)
    }

    /// As [`KmBoxNetClient::mouse_middle`], ciphered.
    pub fn enc_mouse_middle(&mut self, is_down: bool) -> (frame: Vec<u8>)
        requires
            old(self).wf(),
        ensures
            final(self).wf(),
            mouse_cmd_frame_ok(*old(self), *final(self)),
            final(self).soft_mouse.button == button_set(old(self).soft_mouse.button, 0x04, is_down),
            final(self).soft_mouse.x == old(self).soft_mouse.x,
            final(self).soft_mouse.y == old(self).soft_mouse.y,
            final(self).soft_mouse.wheel == old(self).soft_mouse.wheel,
            final(self).soft_mouse.point@ == old(self).soft_mouse.point@,
            is_enc_cmd_frame(
                frame@,
                old(self).key@,
                old(self).mac,
                next_seq(old(self).indexpts),
                CMD_MOUSE_MIDDLE,
                mouse_bytes(final(self).soft_mouse),
            ),
            frame@.len() == 128,
    {
        self.soft_mouse.button = if is_down {
            self.soft_mouse.button | 0x04
        } else {
            self.soft_mouse.button & !0x04
        };
        let payload = mouse_payload(&self.soft_mouse);
        self.enc_command_frame_random(CMD_MOUSE_MIDDLE, &payload)
    }

    /// As [`KmBoxNetClient::mouse_side1`], ciphered.
    pub fn enc_mouse_side1(&mut self, is_down: bool) -> (frame: Vec<u8>)
        requires
            old(self).wf(),
        ensures
            final(self).wf(),
            mouse_cmd_frame_ok(*old(self), *final(self)),
            final(self).soft_mouse.button == button_set(old(self).soft_mouse.button, 0x08, is_down),
            final(self).soft_mouse.x == old(self).soft_mouse.x,
            final(self).soft_mouse.y == old(self).soft_mouse.y,
            final(self).soft_mouse.wheel == old(self).soft_mouse.wheel,
            final(self).soft_mouse.point@ == old(self).soft_mouse.point@,
            is_enc_cmd_frame(
                frame@,
                old(self).key@,
                old(self).mac,
                next_seq(old(self).indexpts),
                CMD_MOUSE_LEFT,
                mouse_bytes(final(self).soft_mouse),
            ),
            frame@.len() == 128,
    {
        self.soft_mouse.button = if is_down {
            self.soft_mouse.button | 0x08
        } else {
            self.soft_mouse.button & !0x08
        };
        let payload = mouse_payload(&self.soft_mouse);
        self.enc_command_frame_random(CMD_MOUSE_LEFT, &payload)
    }

    /// As [`KmBoxNetClient::mouse_side2`], ciphered.
    pub fn enc_mouse_side2(&mut self, is_down: bool) -> (frame: Vec<u8>)
        requires
            old(self).wf(),
        ensures
            final(self).wf(),
            mouse_cmd_frame_ok(*old(self), *final(self)),
            final(self).soft_mouse.button == button_set(old(self).soft_mouse.button, 0x10, is_down),
            final(self).soft_mouse.x == old(self).soft_mouse.x,
            final(self).soft_mouse.y == old(self).soft_mouse.y,
            final(self).soft_mouse.wheel == old(self).soft_mouse.wheel,
            final(self).soft_mouse.point@ == old(self).soft_mouse.point@,
            is_enc_cmd_frame(
                frame@,
                old(self).key@,
                old(self).mac,
                next_seq(old(self).indexpts),
                CMD_MOUSE_LEFT,
                mouse_bytes(final(self).soft_mouse),
            ),
            frame@.len() == 128,
    {
        self.soft_mouse.button = if is_down {
            self.soft_mouse.button | 0x10
        } else {
            self.soft_mouse.button & !0x10
        };
        let payload = mouse_payload(&self.soft_mouse);
        self.enc_command_frame_random(CMD_MOUSE_LEFT, &payload)
    }

    /// As [`KmBoxNetClient::mouse_wheel`], ciphered.
    pub fn enc_mouse_wheel(&mut self, wheel: i32) -> (frame: Vec<u8>)
        requires
            old(self).wf(),
        ensures
            final(self).wf(),
            mouse_cmd_frame_ok(*old(self), *final(self)),
            final(self).soft_mouse.wheel == 0,
            final(self).soft_mouse.button == old(self).soft_mouse.button,
            final(self).soft_mouse.x == old(self).soft_mouse.x,
            final(self).soft_mouse.y == old(self).soft_mouse.y,
            final(self).soft_mouse.point@ == old(self).soft_mouse.point@,
            is_enc_cmd_frame(
                frame@,
                old(self).key@,
                old(self).mac,
                next_seq(old(self).indexpts),
                CMD_MOUSE_WHEEL,
                mouse_bytes(SoftMouse { wheel, ..old(self).soft_mouse }),
            ),
            frame@.len() == 128,
    {
        self.soft_mouse.wheel = wheel;
        let payload = mouse_payload(&self.soft_mouse);
        let frame = self.enc_command_frame_random(CMD_MOUSE_WHEEL, &payload);
        self.soft_mouse.wheel = 0;
        frame
    }

    /// As [`KmBoxNetClient::mouse_all`], ciphered.
    pub fn enc_mouse_all(&mut self, button: i32, x: i32, y: i32, wheel: i32) -> (frame: Vec<u8>)
        requires
            old(self).wf(),
        ensures
            final(self).wf(),
            mouse_cmd_frame_ok(*old(self), *final(self)),
            final(self).soft_mouse.button == button,
            final(self).soft_mouse.x == 0 && final(self).soft_mouse.y == 0,
            final(self).soft_mouse.wheel == 0,
            final(self).soft_mouse.point@ == old(self).soft_mouse.point@,
            is_enc_cmd_frame(
                frame@,
                old(self).key@,
                old(self).mac,
                next_seq(old(self).indexpts),
                CMD_MOUSE_WHEEL,
                mouse_bytes(SoftMouse { button, x, y, wheel, ..old(self).soft_mouse }),
            ),
            frame@.len() == 128,
    {
        self.soft_mouse.button = button;
        self.soft_mouse.x = x;
        self.soft_mouse.y = y;
        self.soft_mouse.wheel = wheel;
        let payload = mouse_payload(&self.soft_mouse);
        let frame = self.enc_command_frame_random(CMD_MOUSE_WHEEL, &payload);
        self.soft_mouse.x = 0;
        self.soft_mouse.y = 0;
        self.soft_mouse.wheel = 0;
        frame
    }

    /// As [`KmBoxNetClient::mouse_move_auto`], ciphered; the duration still
    /// rides in the nonce field, so the frame is fully determined.
    pub fn enc_mouse_move_auto(&mut self, x: i32, y: i32, ms: u32) -> (frame: Vec<u8>)
        requires
            old(self).wf(),
        ensures
            final(self).wf(),
            mouse_cmd_frame_ok(*old(self), *final(self)),
            final(self).soft_mouse.x == 0 && final(self).soft_mouse.y == 0,
            final(self).soft_mouse.button == old(self).soft_mouse.button,
            final(self).soft_mouse.wheel == old(self).soft_mouse.wheel,
            final(self).soft_mouse.point@ == old(self).soft_mouse.point@,
            frame@ == enc_frame(
                old(self).key@,
                old(self).mac,
                ms,
                next_seq(old(self).indexpts),
                CMD_MOUSE_AUTOMOVE,
                mouse_bytes(SoftMouse { x, y, ..old(self).soft_mouse }),
            ),
            frame@.len() == 128,
    {
        self.soft_mouse.x = x;
        self.soft_mouse.y = y;
        let payload = mouse_payload(&self.soft_mouse);
        let frame = self.enc_command_frame(CMD_MOUSE_AUTOMOVE, &payload, ms);
        self.soft_mouse.x = 0;
        self.soft_mouse.y = 0;
        frame
    }

    /// As [`KmBoxNetClient::mouse_move_beizer`], ciphered.
    #[verifier::rlimit(60)]
    pub fn enc_mouse_move_beizer(
        &mut self,
        x: i32,
        y: i32,
        ms: u32,
        x1: i32,
        y1: i32,
        x2: i32,
        y2: i32,
    ) -> (frame: Vec<u8>)
        requires
            old(self).wf(),
        ensures
            final(self).wf(),
            mouse_cmd_frame_ok(*old(self), *final(self)),
            final(self).soft_mouse.x == 0 && final(self).soft_mouse.y == 0,
            final(self).soft_mouse.button == old(self).soft_mouse.button,
            final(self).soft_mouse.wheel == old(self).soft_mouse.wheel,
            forall|i: int| 0 <= i < 10 ==> final(self).soft_mouse.point@[i] == 0,
            frame@ == enc_frame(
                old(self).key@,
                old(self).mac,
                ms,
                next_seq(old(self).indexpts),
                CMD_BAZER_MOVE,
                curve_payload(old(self).soft_mouse, x, y, x1, y1, x2, y2),
            ),
            frame@.len() == 128,
    {
        self.soft_mouse.x = x;
        self.soft_mouse.y = y;
        self.soft_mouse.point.set(0, x1);
        self.soft_mouse.point.set(1, y1);
        self.soft_mouse.point.set(2, x2);
        self.soft_mouse.point.set(3, y2);
        let payload = mouse_payload(&self.soft_mouse);
        let frame = self.enc_command_frame(CMD_BAZER_MOVE, &payload, ms);
        self.soft_mouse.x = 0;
        self.soft_mouse.y = 0;
        self.soft_mouse.point = zero_points();
        frame
    }
}

/// The payload of a curve-move command: the report with the given deltas
/// and the two control points written over the first four curve words.
pub open spec fn curve_payload(
    m: SoftMouse,
    x: i32,
    y: i32,
    x1: i32,
    y1: i32,
    x2: i32,
    y2: i32,
) -> Seq<u8> {
    i32_le(m.button) + i32_le(x) + i32_le(y) + i32_le(m.wheel) + mouse_bytes_rec(
        m.point@.update(0, x1).update(1, y1).update(2, x2).update(3, y2),
        10,
    )
}

} // verus!
