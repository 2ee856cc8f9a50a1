//! Keyboard command surface.
//!
//! Key-down and key-up update the session's authoritative keyboard report
//! (modifier bits or key slots) and emit one full-report frame: the protocol
//! has no batching primitive, so every change retransmits the whole report.
//! Key codes arrive as wider integers from callers; the device reads their
//! low byte. A timed key-press is key-down, a delay, key-up, a delay; the
//! delays are outside work and belong to the caller, which issues the two
//! frames these methods return.

use vstd::prelude::*;
use crate::client::{
    enc_frame, is_cmd_frame, is_enc_cmd_frame, next_seq, plain_frame, KmBoxNetClient,
};
use crate::keyboard::{
    lemma_key_down_preserves_ok, lemma_key_up_preserves_ok, modifier_bit, spec_key_down,
    spec_key_up,
};
use crate::keys::is_modifier;
use crate::protocol::{
    keyboard_bytes, keyboard_payload, mouse_eq, u8_from_i32, u8_of_i32, CMD_KEYBOARD_ALL,
};

verus! {

/// Everything a keyboard command leaves alone: identity, key, mouse report
/// and mask state.
pub open spec fn kb_cmd_frame_ok(pre: KmBoxNetClient, post: KmBoxNetClient) -> bool {
    post.mac == pre.mac && post.key@ == pre.key@ && mouse_eq(post.soft_mouse, pre.soft_mouse)
        && post.mask_keyboard_mouse_flag == pre.mask_keyboard_mouse_flag && post.indexpts
        == next_seq(pre.indexpts)
}

/// The keyboard report transition of a key-down of `vk`.
pub open spec fn kb_down_ok(pre: KmBoxNetClient, post: KmBoxNetClient, vk: u8) -> bool {
    &&& post.soft_keyboard.resvel == pre.soft_keyboard.resvel
    &&& is_modifier(vk) ==> post.soft_keyboard.ctrl == (pre.soft_keyboard.ctrl | modifier_bit(vk))
        && post.soft_keyboard.button@ == pre.soft_keyboard.button@
    &&& !is_modifier(vk) ==> post.soft_keyboard.ctrl == pre.soft_keyboard.ctrl
        && post.soft_keyboard.button@ == spec_key_down(pre.soft_keyboard.button@, vk)
}

/// The keyboard report transition of a key-up of `vk`.
pub open spec fn kb_up_ok(pre: KmBoxNetClient, post: KmBoxNetClient, vk: u8) -> bool {
    &&& post.soft_keyboard.resvel == pre.soft_keyboard.resvel
    &&& is_modifier(vk) ==> post.soft_keyboard.ctrl == (pre.soft_keyboard.ctrl & !modifier_bit(vk))
        && post.soft_keyboard.button@ == pre.soft_keyboard.button@
    &&& !is_modifier(vk) ==> post.soft_keyboard.ctrl == pre.soft_keyboard.ctrl
        && post.soft_keyboard.button@ == spec_key_up(pre.soft_keyboard.button@, vk)
}

impl KmBoxNetClient {
    /// Key-down: a modifier sets its bit, an ordinary code occupies a slot
    /// (idempotently, with FIFO eviction on a full report), and the whole
    /// report is framed for transmission.
    pub fn keydown(&mut self, vkey: i32) -> (frame: Vec<u8>)
        requires
            old(self).wf(),
        ensures
            final(self).wf(),
            kb_cmd_frame_ok(*old(self), *final(self)),
            kb_down_ok(*old(self), *final(self), u8_of_i32(vkey)),
            is_cmd_frame(
                frame@,
                old(self).mac,
                next_seq(old(self).indexpts),
                CMD_KEYBOARD_ALL,
                keyboard_bytes(final(self).soft_keyboard),
            ),
    {
        let vk = u8_from_i32(vkey);
        proof {
            lemma_key_down_preserves_ok(self.soft_keyboard.button@, vk);
        }
        self.soft_keyboard.key_down(vk);
        let payload = keyboard_payload(&self.soft_keyboard);
        self.command_frame_random(CMD_KEYBOARD_ALL, &payload)
    }

    /// Key-up: a modifier clears its bit, an ordinary code leaves its slot
    /// with later slots closing the gap, and the whole report is framed for
    /// transmission.
    pub fn keyup(&mut self, vkey: i32) -> (frame: Vec<u8>)
        requires
            old(self).wf(),
        ensures
            final(self).wf(),
            kb_cmd_frame_ok(*old(self), *final(self)),
            kb_up_ok(*old(self), *final(self), u8_of_i32(vkey)),
            is_cmd_frame(
                frame@,
                old(self).mac,
                next_seq(old(self).indexpts),
                CMD_KEYBOARD_ALL,
                keyboard_bytes(final(self).soft_keyboard),
            ),
    {
        let vk = u8_from_i32(vkey);
        proof {
            lemma_key_up_preserves_ok(self.soft_keyboard.button@, vk);
        }
        self.soft_keyboard.key_up(vk);
        let payload = keyboard_payload(&self.soft_keyboard);
        self.command_frame_random(CMD_KEYBOARD_ALL, &payload)
    }

    /// As [`KmBoxNetClient::keydown`], sent as a ciphered 128-byte block.
    pub fn enc_keydown(&mut self, vkey: i32) -> (frame: Vec<u8>)
        requires
            old(self).wf(),
        ensures
            final(self).wf(),
            kb_cmd_frame_ok(*old(self), *final(self)),
            kb_down_ok(*old(self), *final(self), u8_of_i32(vkey)),
            is_enc_cmd_frame(
                frame@,
                old(self).key@,
                old(self).mac,
                next_seq(old(self).indexpts),
                CMD_KEYBOARD_ALL,
                keyboard_bytes(final(self).soft_keyboard),
            ),
            frame@.len() == 128,
    {
        let vk = u8_from_i32(vkey);
        proof {
            lemma_key_down_preserves_ok(self.soft_keyboard.button@, vk);
        }
        self.soft_keyboard.key_down(vk);
        let payload = keyboard_payload(&self.soft_keyboard);
        self.enc_command_frame_random(CMD_KEYBOARD_ALL, &payload)
    }

    /// As [`KmBoxNetClient::keyup`], sent as a ciphered 128-byte block.
    pub fn enc_keyup(&mut self, vkey: i32) -> (frame: Vec<u8>)
        requires
            old(self).wf(),
        ensures
            final(self).wf(),
            kb_cmd_frame_ok(*old(self), *final(self)),
            kb_up_ok(*old(self), *final(self), u8_of_i32(vkey)),
            is_enc_cmd_frame(
                frame@,
                old(self).key@,
                old(self).mac,
                next_seq(old(self).indexpts),
                CMD_KEYBOARD_ALL,
                keyboard_bytes(final(self).soft_keyboard),
            ),
            frame@.len() == 128,
    {
        let vk = u8_from_i32(vkey);
        proof {
            lemma_key_up_preserves_ok(self.soft_keyboard.button@, vk);
        }
        self.soft_keyboard.key_up(vk);
        let payload = keyboard_payload(&self.soft_keyboard);
        self.enc_command_frame_random(CMD_KEYBOARD_ALL, &payload)
    }
}

} // verus!
