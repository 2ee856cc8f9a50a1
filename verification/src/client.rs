//! The session: device identity, cipher key, sequence counter and the
//! authoritative input reports, together with the command-frame builders.
//!
//! A session never touches a socket. Every command method updates the
//! session state and returns the exact datagram bytes to transmit; the
//! caller owns the UDP socket, sends the frame and blocks for the device's
//! acknowledgment.

use vstd::prelude::*;
use vstd::string::StrSliceExecFns;
use crate::cipher::{cipher_output, xxtea_encrypt};
use crate::protocol::{
    head_bytes, kb_eq, mouse_eq, zero_keyboard, zero_mouse, push_head, CmdHead, SoftKeyboard,
    SoftMouse, CMD_CONNECT,
};

verus! {

/// The sequence number following `s`: one wraparound increment.
pub open spec fn next_seq(s: u32) -> u32 {
    s.wrapping_add(1)
}

/// The sequence number `k` wraparound increments after `s`.
pub open spec fn seq_plus(s: u32, k: int) -> u32
    decreases k,
{
    if k <= 0 {
        s
    } else {
        next_seq(seq_plus(s, k - 1))
    }
}

/// Sequence numbers issued by one session strictly increase from call to
/// call and wrap at the 32-bit boundary instead of failing: below the
/// boundary the next number is exactly one greater, at the boundary it
/// returns to zero.
pub proof fn lemma_sequence_numbers(s: u32)
    ensures
        s < u32::MAX ==> next_seq(s) == s + 1 && next_seq(s) > s,
        s == u32::MAX ==> next_seq(s) == 0,
{
}

/// A complete plaintext frame: 16-byte header followed by the payload.
pub open spec fn plain_frame(mac: u32, nonce: u32, seq: u32, cmd: u32, payload: Seq<u8>) -> Seq<
    u8,
> {
    head_bytes(CmdHead { mac, rand: nonce, indexpts: seq, cmd }) + payload
}

/// A frame truncated or zero-padded to exactly one 128-byte cipher block.
pub open spec fn pad128(s: Seq<u8>) -> Seq<u8> {
    if s.len() >= 128 {
        s.subrange(0, 128)
    } else {
        s + Seq::new((128 - s.len()) as nat, |i: int| 0u8)
    }
}

/// A complete ciphered frame: the plaintext frame padded to one block and
/// transformed under the session key.
pub open spec fn enc_frame(key: Seq<u8>, mac: u32, nonce: u32, seq: u32, cmd: u32, payload: Seq<
    u8,
>) -> Seq<u8> {
    cipher_output(pad128(plain_frame(mac, nonce, seq, cmd, payload)), key)
}

/// `frame` is a plaintext frame with the given fields and some nonce.
pub open spec fn is_cmd_frame(frame: Seq<u8>, mac: u32, seq: u32, cmd: u32, payload: Seq<u8>) -> bool {
    exists|nonce: u32| frame == plain_frame(mac, nonce, seq, cmd, payload)
}

/// `frame` is a ciphered frame with the given fields and some nonce.
pub open spec fn is_enc_cmd_frame(
    frame: Seq<u8>,
    key: Seq<u8>,
    mac: u32,
    seq: u32,
    cmd: u32,
    payload: Seq<u8>,
) -> bool {
    exists|nonce: u32| frame == enc_frame(key, mac, nonce, seq, cmd, payload)
}

/// The 16-byte cipher key derived from a device id: its four bytes, most
/// significant first, in the low four key bytes, the rest zero. The
/// effective entropy is deliberately small; the derivation is kept for wire
/// compatibility with the device.
pub open spec fn key_of_mac(mac: u32) -> Seq<u8> {
    seq![
        (mac / 0x1000000) as u8,
        ((mac / 0x10000) % 256) as u8,
        ((mac / 256) % 256) as u8,
        (mac % 256) as u8,
    ] + Seq::new(12, |i: int| 0u8)
}

/// Colon or dash, the accepted group separators of a device id string.
pub open spec fn is_sep(c: char) -> bool {
    c == ':' || c == '-'
}

/// The id string with every separator removed.
pub open spec fn strip_seps(s: Seq<char>) -> Seq<char>
    decreases s.len(),
{
    if s.len() == 0 {
        Seq::empty()
    } else if is_sep(s.last()) {
        strip_seps(s.drop_last())
    } else {
        strip_seps(s.drop_last()) + seq![s.last()]
    }
}

/// ASCII hexadecimal digit, either case.
pub open spec fn is_hex_digit(c: char) -> bool {
    (48 <= c as u32 && c as u32 <= 57) || (97 <= c as u32 && c as u32 <= 102) || (65 <= c as u32
        && c as u32 <= 70)
}

/// Value of one hexadecimal digit.
pub open spec fn hex_digit_val(c: char) -> nat {
    if 48 <= c as u32 && c as u32 <= 57 {
        (c as u32 - 48) as nat
    } else if 97 <= c as u32 && c as u32 <= 102 {
        (c as u32 - 87) as nat
    } else if 65 <= c as u32 && c as u32 <= 70 {
        (c as u32 - 55) as nat
    } else {
        0
    }
}

pub open spec fn all_hex(s: Seq<char>) -> bool {
    forall|i: int| 0 <= i < s.len() ==> is_hex_digit(s[i])
}

/// Value of a big-endian hexadecimal digit string.
pub open spec fn hex_value(s: Seq<char>) -> nat
    decreases s.len(),
{
    if s.len() == 0 {
        0
    } else {
        hex_value(s.drop_last()) * 16 + hex_digit_val(s.last())
    }
}

/// The device id parsed from a separator-delimited hexadecimal string.
/// Parse failures (empty digits, a non-hexadecimal character, a value over
/// 32 bits) degrade to zero, never to an error: the id is advisory for the
/// device and not validated locally.
pub open spec fn spec_str_to_hex(s: Seq<char>) -> u32 {
    let t = strip_seps(s);
    if t.len() == 0 || !all_hex(t) || hex_value(t) > u32::MAX {
        0u32
    } else {
        hex_value(t) as u32
    }
}

/// A digit string's value never falls below the value of any prefix.
proof fn lemma_hex_value_prefix(s: Seq<char>, k: int)
    requires
        0 <= k <= s.len(),
    ensures
        hex_value(s.subrange(0, k)) <= hex_value(s),
    decreases s.len() - k,
{
    if k == s.len() {
        assert(s.subrange(0, k) =~= s);
    } else {
        lemma_hex_value_prefix(s, k + 1);
        assert(s.subrange(0, k + 1).drop_last() =~= s.subrange(0, k));
        assert(hex_value(s.subrange(0, k + 1)) == hex_value(s.subrange(0, k)) * 16
            + hex_digit_val(s.subrange(0, k + 1).last()));
    }
}

/// Parses a colon/dash-delimited hexadecimal device id string, degrading to
/// zero on any malformed input.
pub fn str_to_hex(s: &str) -> (r: u32)
    ensures
        r == spec_str_to_hex(s@),
{
    let n = s.unicode_len();
    let mut t: Vec<char> = Vec::new();
    let mut i: usize = 0;
    while i < n
        invariant
            i <= n,
            n == s@.len(),
            t@ == strip_seps(s@.subrange(0, i as int)),
        decreases n - i,
    {
        let c = s.get_char(i);
        proof {
            assert(s@.subrange(0, (i + 1) as int).drop_last() =~= s@.subrange(0, i as int));
            assert(s@.subrange(0, (i + 1) as int).last() == s@[i as int]);
        }
        if !(c == ':' || c == '-') {
            t.push(c);
        }
        i = i + 1;
    }
    assert(s@.subrange(0, n as int) =~= s@);
    let ghost ts = t@;
    if t.len() == 0 {
        return 0;
    }
    let mut v: u64 = 0;
    let mut j: usize = 0;
    while j < t.len()
        invariant
            j <= ts.len(),
            t@ == ts,
            ts == strip_seps(s@),
            ts.len() > 0,
            v <= 0xFFFF_FFFFu64,
            v as nat == hex_value(ts.subrange(0, j as int)),
            forall|q: int| 0 <= q < j ==> is_hex_digit(ts[q]),
        decreases ts.len() - j,
    {
        let c = t[j];
        let cu = c as u32;
        let d: u32 = if cu >= 48 && cu <= 57 {
            cu - 48
        } else if cu >= 97 && cu <= 102 {
            cu - 87
        } else if cu >= 65 && cu <= 70 {
            cu - 55
        } else {
            assert(!is_hex_digit(ts[j as int]));
            return 0;
        };
        proof {
            assert(ts.subrange(0, (j + 1) as int).drop_last() =~= ts.subrange(0, j as int));
            assert(ts.subrange(0, (j + 1) as int).last() == ts[j as int]);
        }
        v = v * 16 + d as u64;
        if v > 0xFFFF_FFFFu64 {
            proof {
                lemma_hex_value_prefix(ts, (j + 1) as int);
            }
            return 0;
        }
        j = j + 1;
    }
    assert(ts.subrange(0, ts.len() as int) =~= ts);
    v as u32
}

/// Relies on rand::random: draws a fresh 32-bit value for a header nonce;
/// nothing is promised of it.
#[verifier::external_body]
fn random_u32() -> u32 {
    rand::random::<u32>()
}

/// The protocol engine of one session with the device.
///
/// Owns the device id, the derived cipher key, the strictly-increasing
/// sequence counter and the authoritative mouse/keyboard reports. Command
/// methods mutate this state and return the datagram to send; the caller
/// performs the send and the blocking receive of the acknowledgment.
pub struct KmBoxNetClient {
    pub mac: u32,
    pub indexpts: u32,
    pub key: Vec<u8>,
    pub soft_mouse: SoftMouse,
    pub soft_keyboard: SoftKeyboard,
    pub mask_keyboard_mouse_flag: u8,
}

impl KmBoxNetClient {
    /// Session validity: a 16-byte key, well-formed reports, and key slots
    /// that are duplicate-free and left-packed.
    pub open spec fn wf(&self) -> bool {
        self.key@.len() == 16 && self.soft_mouse.wf() && self.soft_keyboard.wf()
            && crate::keyboard::slots_ok(self.soft_keyboard.button@)
    }

    /// All state but the sequence counter unchanged.
    pub open spec fn same_but_seq(pre: KmBoxNetClient, post: KmBoxNetClient) -> bool {
        post.mac == pre.mac && post.key@ == pre.key@ && mouse_eq(post.soft_mouse, pre.soft_mouse)
            && kb_eq(post.soft_keyboard, pre.soft_keyboard) && post.mask_keyboard_mouse_flag
            == pre.mask_keyboard_mouse_flag
    }

    /// Builds a fresh session for the device id string: the id is parsed
    /// (degrading to zero), the cipher key derived from it, the sequence
    /// counter zeroed and both reports cleared. The caller performs the
    /// connect handshake with the frame from [`KmBoxNetClient::connect`].
    pub fn new(mac_str: &str) -> (c: KmBoxNetClient)
        ensures
            c.wf(),
            c.mac == spec_str_to_hex(mac_str@),
            c.indexpts == 0,
            c.key@ == key_of_mac(c.mac),
            c.mask_keyboard_mouse_flag == 0,
            c.soft_mouse.button == 0 && c.soft_mouse.x == 0 && c.soft_mouse.y == 0
                && c.soft_mouse.wheel == 0,
            forall|i: int| 0 <= i < 10 ==> c.soft_mouse.point@[i] == 0,
            c.soft_keyboard.ctrl == 0 && c.soft_keyboard.resvel == 0,
            forall|i: int| 0 <= i < 10 ==> c.soft_keyboard.button@[i] == 0,
    {
        let mac = str_to_hex(mac_str);
        let mut key: Vec<u8> = Vec::new();
        key.push((mac / 0x1000000) as u8);
        key.push(((mac / 0x10000) % 256) as u8);
        key.push(((mac / 256) % 256) as u8);
        key.push((mac % 256) as u8);
        let mut i: usize = 0;
        while i < 12
            invariant
                i <= 12,
                key@.len() == 4 + i,
                key@[0] == (mac / 0x1000000) as u8,
                key@[1] == ((mac / 0x10000) % 256) as u8,
                key@[2] == ((mac / 256) % 256) as u8,
                key@[3] == (mac % 256) as u8,
                forall|j: int| 4 <= j < 4 + i ==> key@[j] == 0,
            decreases 12 - i,
        {
            key.push(0);
            i = i + 1;
        }
        assert(key@ =~= key_of_mac(mac));
        let c = KmBoxNetClient {
            mac,
            indexpts: 0,
            key,
            soft_mouse: zero_mouse(),
            soft_keyboard: zero_keyboard(),
            mask_keyboard_mouse_flag: 0,
        };
        c
    }

    /// The handshake frame: a header-only CONNECT with sequence zero and a
    /// fresh nonce. Both reports are reset; the sequence counter is not
    /// advanced. The caller must send it and treat a missing reply within
    /// the read timeout as a failed handshake.
    pub fn connect(&mut self) -> (frame: Vec<u8>)
        requires
            old(self).wf(),
        ensures
            final(self).wf(),
            final(self).mac == old(self).mac,
            final(self).key@ == old(self).key@,
            final(self).indexpts == old(self).indexpts,
            final(self).mask_keyboard_mouse_flag == old(self).mask_keyboard_mouse_flag,
            final(self).soft_mouse.button == 0 && final(self).soft_mouse.x == 0,
            final(self).soft_mouse.y == 0 && final(self).soft_mouse.wheel == 0,
            forall|i: int| 0 <= i < 10 ==> final(self).soft_mouse.point@[i] == 0,
            final(self).soft_keyboard.ctrl == 0 && final(self).soft_keyboard.resvel == 0,
            forall|i: int| 0 <= i < 10 ==> final(self).soft_keyboard.button@[i] == 0,
            is_cmd_frame(frame@, old(self).mac, 0, CMD_CONNECT, Seq::empty()),
    {
        self.soft_mouse = zero_mouse();
        self.soft_keyboard = zero_keyboard();
        let nonce = random_u32();
        let head = CmdHead { mac: self.mac, rand: nonce, indexpts: 0, cmd: CMD_CONNECT };
        let mut frame: Vec<u8> = Vec::new();
        push_head(&mut frame, &head);
        proof {
            assert(frame@ =~= plain_frame(self.mac, nonce, 0, CMD_CONNECT, Seq::empty()));
        }
        frame
    }

    /// Advances the sequence counter and builds the plaintext frame for one
    /// command with an explicit nonce (used where the nonce field carries an
    /// auxiliary value such as a duration or an address).
    pub fn command_frame(&mut self, cmd: u32, payload: &Vec<u8>, nonce: u32) -> (frame: Vec<u8>)
        requires
            old(self).wf(),
            payload@.len() <= 1024,
        ensures
            final(self).wf(),
            Self::same_but_seq(*old(self), *final(self)),
            final(self).indexpts == next_seq(old(self).indexpts),
            frame@ == plain_frame(
                old(self).mac,
                nonce,
                next_seq(old(self).indexpts),
                cmd,
                payload@,
            ),
    {
        self.indexpts = self.indexpts.wrapping_add(1);
        let head = CmdHead { mac: self.mac, rand: nonce, indexpts: self.indexpts, cmd };
        let mut frame: Vec<u8> = Vec::new();
        push_head(&mut frame, &head);
        let mut i: usize = 0;
        while i < payload.len()
            invariant
                i <= payload@.len(),
                frame@ == head_bytes(head) + payload@.subrange(0, i as int),
            decreases payload@.len() - i,
        {
            frame.push(payload[i]);
            assert(frame@ =~= head_bytes(head) + payload@.subrange(0, (i + 1) as int));
            i = i + 1;
        }
        assert(payload@.subrange(0, payload@.len() as int) =~= payload@);
        frame
    }

    /// As [`KmBoxNetClient::command_frame`], with a fresh random nonce.
    pub fn command_frame_random(&mut self, cmd: u32, payload: &Vec<u8>) -> (frame: Vec<u8>)
        requires
            old(self).wf(),
            payload@.len() <= 1024,
        ensures
            final(self).wf(),
            Self::same_but_seq(*old(self), *final(self)),
            final(self).indexpts == next_seq(old(self).indexpts),
            is_cmd_frame(frame@, old(self).mac, next_seq(old(self).indexpts), cmd, payload@),
    {
        let nonce = random_u32();
        self.command_frame(cmd, payload, nonce)
    }

    /// Advances the sequence counter and builds the ciphered 128-byte frame
    /// for one command with an explicit nonce: the plaintext frame is
    /// truncated or zero-padded to one block and transformed under the
    /// session key.
    pub fn enc_command_frame(&mut self, cmd: u32, payload: &Vec<u8>, nonce: u32) -> (frame: Vec<
        u8,
    >)
        requires
            old(self).wf(),
            payload@.len() <= 1024,
        ensures
            final(self).wf(),
            Self::same_but_seq(*old(self), *final(self)),
            final(self).indexpts == next_seq(old(self).indexpts),
            frame@ == enc_frame(
                old(self).key@,
                old(self).mac,
                nonce,
                next_seq(old(self).indexpts),
                cmd,
                payload@,
            ),
            frame@.len() == 128,
    {
        let mut buf = self.command_frame(cmd, payload, nonce);
        let ghost plain = buf@;
        if buf.len() >= 128 {
            buf.truncate(128);
            assert(buf@ == pad128(plain));
        } else {
            while buf.len() < 128
                invariant
                    plain.len() < 128,
                    buf@.len() >= plain.len(),
                    buf@.len() <= 128,
                    buf@ == plain + Seq::new((buf@.len() - plain.len()) as nat, |i: int| 0u8),
                decreases 128 - buf@.len(),
            {
                buf.push(0);
                assert(buf@ =~= plain + Seq::new((buf@.len() - plain.len()) as nat, |i: int| 0u8));
            }
            assert(buf@ == pad128(plain));
        }
        xxtea_encrypt(&mut buf, &self.key);
        proof {
            crate::cipher::lemma_cipher_output_len(pad128(plain), self.key@);
        }
        buf
    }

    /// As [`KmBoxNetClient::enc_command_frame`], with a fresh random nonce.
    pub fn enc_command_frame_random(&mut self, cmd: u32, payload: &Vec<u8>) -> (frame: Vec<u8>)
        requires
            old(self).wf(),
            payload@.len() <= 1024,
        ensures
            final(self).wf(),
            Self::same_but_seq(*old(self), *final(self)),
            final(self).indexpts == next_seq(old(self).indexpts),
            is_enc_cmd_frame(
                frame@,
                old(self).key@,
                old(self).mac,
                next_seq(old(self).indexpts),
                cmd,
                payload@,
            ),
            frame@.len() == 128,
    {
        let nonce = random_u32();
        self.enc_command_frame(cmd, payload, nonce)
    }
}

} // verus!
