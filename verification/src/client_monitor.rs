//! Telemetry control and input-masking commands.
//!
//! `monitor` tells the device where to stream telemetry (or to stop);
//! the masking commands suppress physical mouse axes/buttons or a physical
//! key on the device side. All of these are header-only frames whose nonce
//! field carries the parameter, so every frame is fully determined.

use vstd::prelude::*;
use crate::client::{next_seq, plain_frame, KmBoxNetClient};
use crate::protocol::{u8_from_i32, u8_of_i32, CMD_MASK_MOUSE, CMD_MONITOR, CMD_UNMASK_ALL};

verus! {

/// The nonce of a monitor command: a fixed marker pattern over the
/// destination port, or zero to disable streaming.
pub open spec fn monitor_nonce(port: u16) -> u32 {
    if port > 0 {
        (port as u32) | 0xaa55_0000u32
    } else {
        0u32
    }
}

/// The mask flag with one bit asserted or deasserted.
pub open spec fn mask_set(f: u8, mask: u8, enable: bool) -> u8 {
    if enable {
        f | mask
    } else {
        f & !mask
    }
}

/// The nonce of a keyboard-mask command: the mask flag in the low byte and
/// the key code in the second byte.
pub open spec fn mask_kb_nonce(f: u8, vkey: i32) -> u32 {
    (f + u8_of_i32(vkey) * 256) as u32
}

/// Everything a masking or monitor command leaves alone.
pub open spec fn mask_cmd_frame_ok(pre: KmBoxNetClient, post: KmBoxNetClient) -> bool {
    post.mac == pre.mac && post.key@ == pre.key@ && crate::protocol::mouse_eq(
        post.soft_mouse,
        pre.soft_mouse,
    ) && crate::protocol::kb_eq(post.soft_keyboard, pre.soft_keyboard) && post.indexpts
        == next_seq(pre.indexpts)
}

impl KmBoxNetClient {
    /// Enables or disables the device's telemetry stream: a nonzero port
    /// asks the device to stream physical input reports to that UDP port,
    /// zero disables streaming.
    pub fn monitor(&mut self, port: u16) -> (frame: Vec<u8>)
        requires
            old(self).wf(),
        ensures
            final(self).wf(),
            mask_cmd_frame_ok(*old(self), *final(self)),
            final(self).mask_keyboard_mouse_flag == old(self).mask_keyboard_mouse_flag,
            frame@ == plain_frame(
                old(self).mac,
                monitor_nonce(port),
                next_seq(old(self).indexpts),
                CMD_MONITOR,
                Seq::empty(),
            ),
    {
        let nonce: u32 = if port > 0 {
            (port as u32) | 0xaa55_0000u32
        } else {
            0u32
        };
        let payload: Vec<u8> = Vec::new();
        let frame = self.command_frame(CMD_MONITOR, &payload, nonce);
        proof {
            assert(payload@ =~= Seq::<u8>::empty());
        }
        frame
    }

    /// One masking frame carrying the current flag (or a composed value) in
    /// the nonce field.
    fn send_mask_command(&mut self, rand_val: u32) -> (frame: Vec<u8>)
        requires
            old(self).wf(),
        ensures
            final(self).wf(),
            mask_cmd_frame_ok(*old(self), *final(self)),
            final(self).mask_keyboard_mouse_flag == old(self).mask_keyboard_mouse_flag,
            frame@ == plain_frame(
                old(self).mac,
                rand_val,
                next_seq(old(self).indexpts),
                CMD_MASK_MOUSE,
                Seq::empty(),
            ),
    {
        let payload: Vec<u8> = Vec::new();
        let frame = self.command_frame(CMD_MASK_MOUSE, &payload, rand_val);
        proof {
            assert(payload@ =~= Seq::<u8>::empty());
        }
        frame
    }

    /// Masks or unmasks the physical left mouse button.
    pub fn mask_mouse_left(&mut self, enable: bool) -> (frame: Vec<u8>)
        requires
            old(self).wf(),
        ensures
            final(self).wf(),
            mask_cmd_frame_ok(*old(self), *final(self)),
            final(self).mask_keyboard_mouse_flag == mask_set(
                old(self).mask_keyboard_mouse_flag,
                0x01,
                enable,
            ),
            frame@ == plain_frame(
                old(self).mac,
                final(self).mask_keyboard_mouse_flag as u32,
                next_seq(old(self).indexpts),
                CMD_MASK_MOUSE,
                Seq::empty(),
            ),
    {
        self.mask_keyboard_mouse_flag = if enable {
            self.mask_keyboard_mouse_flag | 0x01
        } else {
            self.mask_keyboard_mouse_flag & !0x01
        };
        let flag = self.mask_keyboard_mouse_flag;
        self.send_mask_command(flag as u32)
    }

    /// Masks or unmasks the physical right mouse button.
    pub fn mask_mouse_right(&mut self, enable: bool) -> (frame: Vec<u8>)
        requires
            old(self).wf(),
        ensures
            final(self).wf(),
            mask_cmd_frame_ok(*old(self), *final(self)),
            final(self).mask_keyboard_mouse_flag == mask_set(
                old(self).mask_keyboard_mouse_flag,
                0x02,
                enable,
            ),
            frame@ == plain_frame(
                old(self).mac,
                final(self).mask_keyboard_mouse_flag as u32,
                next_seq(old(self).indexpts),
                CMD_MASK_MOUSE,
                Seq::empty(),
            ),
    {
        self.mask_keyboard_mouse_flag = if enable {
            self.mask_keyboard_mouse_flag | 0x02
        } else {
            self.mask_keyboard_mouse_flag & !0x02
        };
        let flag = self.mask_keyboard_mouse_flag;
        self.send_mask_command(flag as u32)
    }

    /// Masks or unmasks the physical middle mouse button.
    pub fn mask_mouse_middle(&mut self, enable: bool) -> (frame: Vec<u8>)
        requires
            old(self).wf(),
        ensures
            final(self).wf(),
            mask_cmd_frame_ok(*old(self), *final(self)),
            final(self).mask_keyboard_mouse_flag == mask_set(
                old(self).mask_keyboard_mouse_flag,
                0x04,
                enable,
            ),
            frame@ == plain_frame(
                old(self).mac,
                final(self).mask_keyboard_mouse_flag as u32,
                next_seq(old(self).indexpts),
                CMD_MASK_MOUSE,
                Seq::empty(),
            ),
    {
        self.mask_keyboard_mouse_flag = if enable {
            self.mask_keyboard_mouse_flag | 0x04
        } else {
            self.mask_keyboard_mouse_flag & !0x04
        };
        let flag = self.mask_keyboard_mouse_flag;
        self.send_mask_command(flag as u32)
    }

    /// Masks or unmasks physical side button 1.
    pub fn mask_mouse_side1(&mut self, enable: bool) -> (frame: Vec<u8>)
        requires
            old(self).wf(),
        ensures
            final(self).wf(),
            mask_cmd_frame_ok(*old(self), *final(self)),
            final(self).mask_keyboard_mouse_flag == mask_set(
                old(self).mask_keyboard_mouse_flag,
                0x08,
                enable,
            ),
            frame@ == plain_frame(
                old(self).mac,
                final(self).mask_keyboard_mouse_flag as u32,
                next_seq(old(self).indexpts),
                CMD_MASK_MOUSE,
                Seq::empty(),
            ),
    {
        self.mask_keyboard_mouse_flag = if enable {
            self.mask_keyboard_mouse_flag | 0x08
        } else {
            self.mask_keyboard_mouse_flag & !0x08
        };
        let flag = self.mask_keyboard_mouse_flag;
        self.send_mask_command(flag as u32)
    }

    /// Masks or unmasks physical side button 2.
    pub fn mask_mouse_side2(&mut self, enable: bool) -> (frame: Vec<u8>)
        requires
            old(self).wf(),
        ensures
            final(self).wf(),
            mask_cmd_frame_ok(*old(self), *final(self)),
            final(self).mask_keyboard_mouse_flag == mask_set(
                old(self).mask_keyboard_mouse_flag,
                0x10,
                enable,
            ),
            frame@ == plain_frame(
                old(self).mac,
                final(self).mask_keyboard_mouse_flag as u32,
                next_seq(old(self).indexpts),
                CMD_MASK_MOUSE,
                Seq::empty(),
            ),
    {
        self.mask_keyboard_mouse_flag = if enable {
            self.mask_keyboard_mouse_flag | 0x10
        } else {
            self.mask_keyboard_mouse_flag & !0x10
        };
        let flag = self.mask_keyboard_mouse_flag;
        self.send_mask_command(flag as u32)
    }

    /// Masks or unmasks the physical X axis.
    pub fn mask_mouse_x(&mut self, enable: bool) -> (frame: Vec<u8>)
        requires
            old(self).wf(),
        ensures
            final(self).wf(),
            mask_cmd_frame_ok(*old(self), *final(self)),
            final(self).mask_keyboard_mouse_flag == mask_set(
                old(self).mask_keyboard_mouse_flag,
                0x20,
                enable,
            ),
            frame@ == plain_frame(
                old(self).mac,
                final(self).mask_keyboard_mouse_flag as u32,
                next_seq(old(self).indexpts),
                CMD_MASK_MOUSE,
                Seq::empty(),
            ),
    {
        self.mask_keyboard_mouse_flag = if enable {
            self.mask_keyboard_mouse_flag | 0x20
        } else {
            self.mask_keyboard_mouse_flag & !0x20
        };
        let flag = self.mask_keyboard_mouse_flag;
        self.send_mask_command(flag as u32)
    }

    /// Masks or unmasks the physical Y axis.
    pub fn mask_mouse_y(&mut self, enable: bool) -> (frame: Vec<u8>)
        requires
            old(self).wf(),
        ensures
            final(self).wf(),
            mask_cmd_frame_ok(*old(self), *final(self)),
            final(self).mask_keyboard_mouse_flag == mask_set(
                old(self).mask_keyboard_mouse_flag,
                0x40,
                enable,
            ),
            frame@ == plain_frame(
                old(self).mac,
                final(self).mask_keyboard_mouse_flag as u32,
                next_seq(old(self).indexpts),
                CMD_MASK_MOUSE,
                Seq::empty(),
            ),
    {
        self.mask_keyboard_mouse_flag = if enable {
            self.mask_keyboard_mouse_flag | 0x40
        } else {
            self.mask_keyboard_mouse_flag & !0x40
        };
        let flag = self.mask_keyboard_mouse_flag;
        self.send_mask_command(flag as u32)
    }

    /// Masks or unmasks the physical wheel.
    pub fn mask_mouse_wheel(&mut self, enable: bool) -> (frame: Vec<u8>)
        requires
            old(self).wf(),
        ensures
            final(self).wf(),
            mask_cmd_frame_ok(*old(self), *final(self)),
            final(self).mask_keyboard_mouse_flag == mask_set(
                old(self).mask_keyboard_mouse_flag,
                0x80,
                enable,
            ),
            frame@ == plain_frame(
                old(self).mac,
                final(self).mask_keyboard_mouse_flag as u32,
                next_seq(old(self).indexpts),
                CMD_MASK_MOUSE,
                Seq::empty(),
            ),
    {
        self.mask_keyboard_mouse_flag = if enable {
            self.mask_keyboard_mouse_flag | 0x80
        } else {
            self.mask_keyboard_mouse_flag & !0x80
        };
        let flag = self.mask_keyboard_mouse_flag;
        self.send_mask_command(flag as u32)
    }

    /// Masks one physical key: the key code rides in the nonce's second
    /// byte; the stored mask flag is not changed.
    pub fn mask_keyboard(&mut self, vkey: i32) -> (frame: Vec<u8>)
        requires
            old(self).wf(),
        ensures
            final(self).wf(),
            mask_cmd_frame_ok(*old(self), *final(self)),
            final(self).mask_keyboard_mouse_flag == old(self).mask_keyboard_mouse_flag,
            frame@ == plain_frame(
                old(self).mac,
                mask_kb_nonce(old(self).mask_keyboard_mouse_flag, vkey),
                next_seq(old(self).indexpts),
                CMD_MASK_MOUSE,
                Seq::empty(),
            ),
    {
        let vk = u8_from_i32(vkey);
        let val: u32 = self.mask_keyboard_mouse_flag as u32 + (vk as u32) * 256;
        self.send_mask_command(val)
    }

    /// Unmasks one physical key, leaving the stored mask flag unchanged.
    pub fn unmask_keyboard(&mut self, vkey: i32) -> (frame: Vec<u8>)
        requires
            old(self).wf(),
        ensures
            final(self).wf(),
            mask_cmd_frame_ok(*old(self), *final(self)),
            final(self).mask_keyboard_mouse_flag == old(self).mask_keyboard_mouse_flag,
            frame@ == plain_frame(
                old(self).mac,
                mask_kb_nonce(old(self).mask_keyboard_mouse_flag, vkey),
                next_seq(old(self).indexpts),
                CMD_UNMASK_ALL,
                Seq::empty(),
            ),
    {
        let vk = u8_from_i32(vkey);
        let val: u32 = self.mask_keyboard_mouse_flag as u32 + (vk as u32) * 256;
        let payload: Vec<u8> = Vec::new();
        let frame = self.command_frame(CMD_UNMASK_ALL, &payload, val);
        proof {
            assert(payload@ =~= Seq::<u8>::empty());
        }
        frame
    }

    /// Clears every mask on the device and zeroes the stored mask flag.
    pub fn unmask_all(&mut self) -> (frame: Vec<u8>)
        requires
            old(self).wf(),
        ensures
            final(self).wf(),
            mask_cmd_frame_ok(*old(self), *final(self)),
            final(self).mask_keyboard_mouse_flag == 0,
            frame@ == plain_frame(
                old(self).mac,
                0,
                next_seq(old(self).indexpts),
                CMD_UNMASK_ALL,
                Seq::empty(),
            ),
    {
        self.mask_keyboard_mouse_flag = 0;
        let payload: Vec<u8> = Vec::new();
        let frame = self.command_frame(CMD_UNMASK_ALL, &payload, 0);
        proof {
            assert(payload@ =~= Seq::<u8>::empty());
        }
        frame
    }
}

} // verus!
