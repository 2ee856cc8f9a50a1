//! System configuration commands: reboot, network configuration, USB ids,
//! LCD display blits and hardware trace correction.
//!
//! The display blit commands are the only multi-frame operations: a larger
//! buffer is cut into fixed 1024-byte payload slices, each framed as an
//! independent command whose nonce field carries the row offset; the caller
//! sends them strictly one after another, awaiting each acknowledgment.

use vstd::prelude::*;
use vstd::string::StrSliceExecFns;
use crate::client::{next_seq, plain_frame, seq_plus, KmBoxNetClient};
use crate::protocol::{
    u32_from_i32, u32_of_i32, KmError, CMD_REBOOT, CMD_SETCONFIG, CMD_SETVIDPID, CMD_SHOWPIC,
    CMD_TRACE_ENABLE,
};

verus! {

/// ASCII decimal digit.
pub open spec fn is_digit(c: char) -> bool {
    48 <= c as u32 && c as u32 <= 57
}

pub open spec fn digit_val(c: char) -> nat {
    (c as u32 - 48) as nat
}

/// Length of the run of digits starting at `i`.
pub open spec fn digit_run_len(s: Seq<char>, i: int) -> int
    decreases s.len() - i,
{
    if i < 0 || i >= s.len() || !is_digit(s[i]) {
        0
    } else {
        1 + digit_run_len(s, i + 1)
    }
}

/// Value of the `n` digits starting at `i`, most significant first.
pub open spec fn dec_value(s: Seq<char>, i: int, n: int) -> nat
    decreases n,
{
    if n <= 0 {
        0
    } else {
        dec_value(s, i, n - 1) * 10 + digit_val(s[i + n - 1])
    }
}

/// A well-formed address octet: one to three digits, no leading zero unless
/// the octet is exactly "0", value at most 255.
pub open spec fn octet_ok(s: Seq<char>, i: int, n: int) -> bool {
    1 <= n <= 3 && (n == 1 || s[i] as u32 != 48) && dec_value(s, i, n) <= 255
}

/// The four octets of a dotted-quad IPv4 address string, or nothing when
/// the string is not exactly four well-formed octets joined by dots.
pub open spec fn parse_ipv4(s: Seq<char>) -> Option<(u8, u8, u8, u8)> {
    let n1 = digit_run_len(s, 0);
    let p2 = n1 + 1;
    let n2 = digit_run_len(s, p2);
    let p3 = p2 + n2 + 1;
    let n3 = digit_run_len(s, p3);
    let p4 = p3 + n3 + 1;
    let n4 = digit_run_len(s, p4);
    if octet_ok(s, 0, n1) && n1 < s.len() && s[n1] as u32 == 46 && octet_ok(s, p2, n2) && p2 + n2
        < s.len() && s[p2 + n2] as u32 == 46 && octet_ok(s, p3, n3) && p3 + n3 < s.len() && s[p3
        + n3] as u32 == 46 && octet_ok(s, p4, n4) && p4 + n4 == s.len() {
        Some(
            (
                dec_value(s, 0, n1) as u8,
                dec_value(s, p2, n2) as u8,
                dec_value(s, p3, n3) as u8,
                dec_value(s, p4, n4) as u8,
            ),
        )
    } else {
        None
    }
}

/// The nonce of a set-config command: the four address octets packed
/// little-endian, first octet in the low byte (the network-order address as
/// a little-endian read).
pub open spec fn ipv4_nonce(a: u8, b: u8, c: u8, d: u8) -> u32 {
    (a + b * 0x100 + c * 0x10000 + d * 0x1000000) as u32
}

/// The two-byte payload of a set-config command: the port, big-endian.
pub open spec fn config_payload(port: u16) -> Seq<u8> {
    seq![(port / 256) as u8, (port % 256) as u8]
}

/// The nonce of a set-USB-ids command: vendor id in the low half, product
/// id in the high half.
pub open spec fn vidpid_nonce(vid: u16, pid: u16) -> u32 {
    (vid + pid * 0x10000) as u32
}

/// The nonce of a trace-enable command: the correction type in the top
/// byte, folded over the strength value.
pub open spec fn trace_nonce(type_: i32, value: i32) -> u32 {
    (u32_of_i32(type_) << 24) | u32_of_i32(value)
}

/// The bytes of `n` pixels of one RGB565 colour, little-endian per pixel.
pub open spec fn color_pixels(rgb565: u16, n: int) -> Seq<u8>
    decreases n,
{
    if n <= 0 {
        Seq::empty()
    } else {
        color_pixels(rgb565, n - 1) + seq![(rgb565 % 256) as u8, (rgb565 / 256) as u8]
    }
}

/// The 1024-byte payload that fills 512 pixels with one RGB565 colour.
pub open spec fn color_payload(rgb565: u16) -> Seq<u8> {
    color_pixels(rgb565, 512)
}

/// `n` pixels encode to `2 * n` bytes.
proof fn lemma_color_pixels_len(rgb565: u16, n: int)
    requires
        n >= 0,
    ensures
        color_pixels(rgb565, n).len() == 2 * n,
    decreases n,
{
    if n > 0 {
        lemma_color_pixels_len(rgb565, n - 1);
    }
}

/// Everything a system command leaves alone: identity, key, reports and
/// mask state.
pub open spec fn sys_cmd_ok(pre: KmBoxNetClient, post: KmBoxNetClient) -> bool {
    post.mac == pre.mac && post.key@ == pre.key@ && crate::protocol::mouse_eq(
        post.soft_mouse,
        pre.soft_mouse,
    ) && crate::protocol::kb_eq(post.soft_keyboard, pre.soft_keyboard) && post.mask_keyboard_mouse_flag
        == pre.mask_keyboard_mouse_flag
}

/// Every position of a digit run holds a digit, and the run is bounded by
/// the string.
proof fn lemma_digit_run(s: Seq<char>, i: int)
    requires
        0 <= i <= s.len(),
    ensures
        i + digit_run_len(s, i) <= s.len(),
        forall|j: int| i <= j < i + digit_run_len(s, i) ==> is_digit(s[j]),
    decreases s.len() - i,
{
    if i < s.len() && is_digit(s[i]) {
        lemma_digit_run(s, i + 1);
    }
}

/// Length of the digit run starting at `start`.
fn run_len(v: &Vec<char>, start: usize) -> (n: usize)
    requires
        start <= v@.len(),
    ensures
        n == digit_run_len(v@, start as int),
        start + n <= v@.len(),
{
    let mut i: usize = start;
    while i < v.len() && v[i] as u32 >= 48 && v[i] as u32 <= 57
        invariant
            start <= i <= v@.len(),
            digit_run_len(v@, start as int) == (i - start) + digit_run_len(v@, i as int),
        decreases v@.len() - i,
    {
        i = i + 1;
    }
    i - start
}

/// Reads one octet of `n` digits starting at `start`, if it is well formed.
fn octet_read(v: &Vec<char>, start: usize, n: usize) -> (r: Option<u8>)
    requires
        start + n <= v@.len(),
        n == digit_run_len(v@, start as int),
    ensures
        r is Some <==> octet_ok(v@, start as int, n as int),
        r matches Some(x) ==> x == dec_value(v@, start as int, n as int),
{
    proof {
        lemma_digit_run(v@, start as int);
    }
    let vlen = v.len();
    if n < 1 || n > 3 {
        return None;
    }
    if n > 1 && v[start] as u32 == 48 {
        return None;
    }
    let mut val: u32 = 0;
    let mut k: usize = 0;
    while k < n
        invariant
            k <= n,
            n <= 3,
            start + n <= v@.len(),
            v@.len() == vlen,
            val == dec_value(v@, start as int, k as int),
            k == 0 ==> val == 0,
            k == 1 ==> val <= 9,
            k == 2 ==> val <= 99,
            k == 3 ==> val <= 999,
            forall|j: int| start <= j < start + n ==> is_digit(v@[j]),
        decreases n - k,
    {
        assert(is_digit(v@[start + k as int]));
        let cu = v[start + k] as u32;
        assert(48 <= cu <= 57);
        val = val * 10 + (cu - 48);
        k = k + 1;
        assert(val == dec_value(v@, start as int, k as int));
    }
    if val > 255 {
        return None;
    }
    Some(val as u8)
}

/// Parses a dotted-quad IPv4 address from its characters.
fn parse_ipv4_chars(v: &Vec<char>) -> (r: Option<(u8, u8, u8, u8)>)
    ensures
        r == parse_ipv4(v@),
{
    let s_len = v.len();
    let n1 = run_len(v, 0);
    let o1 = match octet_read(v, 0, n1) {
        Some(x) => x,
        None => {
            return None;
        },
    };
    if n1 >= s_len || v[n1] as u32 != 46 {
        return None;
    }
    let p2 = n1 + 1;
    let n2 = run_len(v, p2);
    let o2 = match octet_read(v, p2, n2) {
        Some(x) => x,
        None => {
            return None;
        },
    };
    if p2 + n2 >= s_len || v[p2 + n2] as u32 != 46 {
        return None;
    }
    let p3 = p2 + n2 + 1;
    let n3 = run_len(v, p3);
    let o3 = match octet_read(v, p3, n3) {
        Some(x) => x,
        None => {
            return None;
        },
    };
    if p3 + n3 >= s_len || v[p3 + n3] as u32 != 46 {
        return None;
    }
    let p4 = p3 + n3 + 1;
    let n4 = run_len(v, p4);
    let o4 = match octet_read(v, p4, n4) {
        Some(x) => x,
        None => {
            return None;
        },
    };
    if p4 + n4 != s_len {
        return None;
    }
    Some((o1, o2, o3, o4))
}

impl KmBoxNetClient {
    /// Reboots the device: a header-only frame with a fresh nonce.
    pub fn reboot(&mut self) -> (frame: Vec<u8>)
        requires
            old(self).wf(),
        ensures
            final(self).wf(),
            sys_cmd_ok(*old(self), *final(self)),
            final(self).indexpts == next_seq(old(self).indexpts),
            crate::client::is_cmd_frame(
                frame@,
                old(self).mac,
                next_seq(old(self).indexpts),
                CMD_REBOOT,
                Seq::empty(),
            ),
    {
        let payload: Vec<u8> = Vec::new();
        let frame = self.command_frame_random(CMD_REBOOT, &payload);
        proof {
            assert(payload@ =~= Seq::<u8>::empty());
        }
        frame
    }

    /// Reconfigures the device's IP and command port. The address string
    /// must be a dotted quad; a malformed address is the one command
    /// argument rejected locally, with nothing sent and no sequence number
    /// consumed. The packed address rides in the nonce field; the payload
    /// carries the port, big-endian.
    pub fn set_config(&mut self, ip: &str, port: u16) -> (r: Result<Vec<u8>, KmError>)
        requires
            old(self).wf(),
        ensures
            final(self).wf(),
            sys_cmd_ok(*old(self), *final(self)),
            parse_ipv4(ip@) is None ==> (r matches Err(e) && e == KmError::NetCmd && final(self).indexpts == old(self).indexpts),
            parse_ipv4(ip@) matches Some(q) ==> final(self).indexpts == next_seq(
                old(self).indexpts,
            ) && (r matches Ok(frame) && frame@ == plain_frame(
                old(self).mac,
                ipv4_nonce(q.0, q.1, q.2, q.3),
                next_seq(old(self).indexpts),
                CMD_SETCONFIG,
                config_payload(port),
            )),
    {
        let n = ip.unicode_len();
        let mut chars: Vec<char> = Vec::new();
        let mut i: usize = 0;
        while i < n
            invariant
                i <= n,
                n == ip@.len(),
                chars@ == ip@.subrange(0, i as int),
            decreases n - i,
        {
            chars.push(ip.get_char(i));
            assert(chars@ =~= ip@.subrange(0, (i + 1) as int));
            i = i + 1;
        }
        assert(chars@ =~= ip@);
        let parsed = parse_ipv4_chars(&chars);
        match parsed {
            None => Err(KmError::NetCmd),
            Some((a, b, c, d)) => {
                let nonce: u32 = a as u32 + (b as u32) * 0x100 + (c as u32) * 0x10000 + (
                d as u32) * 0x1000000;
                let mut payload: Vec<u8> = Vec::new();
                payload.push((port / 256) as u8);
                payload.push((port % 256) as u8);
                assert(payload@ =~= config_payload(port));
                let frame = self.command_frame(CMD_SETCONFIG, &payload, nonce);
                Ok(frame)
            },
        }
    }

    /// Sets the USB vendor and product ids the device presents; both ride in
    /// the nonce field and take effect after a reboot.
    pub fn set_vid_pid(&mut self, vid: u16, pid: u16) -> (frame: Vec<u8>)
        requires
            old(self).wf(),
        ensures
            final(self).wf(),
            sys_cmd_ok(*old(self), *final(self)),
            final(self).indexpts == next_seq(old(self).indexpts),
            frame@ == plain_frame(
                old(self).mac,
                vidpid_nonce(vid, pid),
                next_seq(old(self).indexpts),
                CMD_SETVIDPID,
                Seq::empty(),
            ),
    {
        let nonce: u32 = vid as u32 + (pid as u32) * 0x10000;
        let payload: Vec<u8> = Vec::new();
        let frame = self.command_frame(CMD_SETVIDPID, &payload, nonce);
        proof {
            assert(payload@ =~= Seq::<u8>::empty());
        }
        frame
    }

    /// Enables or disables the device's hardware trace correction; the
    /// correction type and strength share the nonce field.
    pub fn trace_enable(&mut self, type_: i32, value: i32) -> (frame: Vec<u8>)
        requires
            old(self).wf(),
        ensures
            final(self).wf(),
            sys_cmd_ok(*old(self), *final(self)),
            final(self).indexpts == next_seq(old(self).indexpts),
            frame@ == plain_frame(
                old(self).mac,
                trace_nonce(type_, value),
                next_seq(old(self).indexpts),
                CMD_TRACE_ENABLE,
                Seq::empty(),
            ),
    {
        let t = u32_from_i32(type_);
        let v = u32_from_i32(value);
        let nonce: u32 = (t << 24) | v;
        let payload: Vec<u8> = Vec::new();
        let frame = self.command_frame(CMD_TRACE_ENABLE, &payload, nonce);
        proof {
            assert(payload@ =~= Seq::<u8>::empty());
        }
        frame
    }

    /// Fills the whole LCD with one colour: forty display-blit frames, each
    /// carrying 512 pixels and its row offset in the nonce field, to be
    /// sent strictly in order, one acknowledgment each.
    pub fn lcd_color(&mut self, rgb565: u16) -> (frames: Vec<Vec<u8>>)
        requires
            old(self).wf(),
        ensures
            final(self).wf(),
            sys_cmd_ok(*old(self), *final(self)),
            final(self).indexpts == seq_plus(old(self).indexpts, 40),
            frames@.len() == 40,
            forall|y: int|
                0 <= y < 40 ==> frames@[y]@ == plain_frame(
                    old(self).mac,
                    (4 * y) as u32,
                    seq_plus(old(self).indexpts, y + 1),
                    CMD_SHOWPIC,
                    color_payload(rgb565),
                ),
    {
        let lo: u8 = (rgb565 % 256) as u8;
        let hi: u8 = (rgb565 / 256) as u8;
        let mut payload: Vec<u8> = Vec::new();
        let mut i: usize = 0;
        while i < 512
            invariant
                i <= 512,
                lo == (rgb565 % 256) as u8,
                hi == (rgb565 / 256) as u8,
                payload@ == color_pixels(rgb565, i as int),
            decreases 512 - i,
        {
            payload.push(lo);
            payload.push(hi);
            assert(payload@ =~= color_pixels(rgb565, i + 1));
            i = i + 1;
        }
        proof {
            lemma_color_pixels_len(rgb565, 512);
        }
        let mut frames: Vec<Vec<u8>> = Vec::new();
        let mut y: usize = 0;
        while y < 40
            invariant
                y <= 40,
                self.wf(),
                sys_cmd_ok(*old(self), *self),
                self.indexpts == seq_plus(old(self).indexpts, y as int),
                payload@ == color_payload(rgb565),
                payload@.len() == 1024,
                frames@.len() == y,
                forall|t: int|
                    0 <= t < y ==> frames@[t]@ == plain_frame(
                        old(self).mac,
                        (4 * t) as u32,
                        seq_plus(old(self).indexpts, t + 1),
                        CMD_SHOWPIC,
                        color_payload(rgb565),
                    ),
            decreases 40 - y,
        {
            let nonce: u32 = (y as u32) * 4;
            let frame = self.command_frame(CMD_SHOWPIC, &payload, nonce);
            frames.push(frame);
            y = y + 1;
        }
        frames
    }

    /// Blits a 128x80 image (20480 bytes, RGB565) onto the lower half of the
    /// LCD: twenty frames of 1024 payload bytes each, row offsets 80 upward.
    /// An undersized buffer is rejected with nothing sent.
    pub fn lcd_picture_bottom(&mut self, buff: &Vec<u8>) -> (r: Result<Vec<Vec<u8>>, KmError>)
        requires
            old(self).wf(),
        ensures
            final(self).wf(),
            sys_cmd_ok(*old(self), *final(self)),
            buff@.len() < 20480 ==> (r matches Err(e) && e == KmError::NetCmd && final(self).indexpts == old(self).indexpts),
            buff@.len() >= 20480 ==> final(self).indexpts == seq_plus(old(self).indexpts, 20) && (
            r matches Ok(frames) && frames@.len() == 20 && forall|y: int|
                0 <= y < 20 ==> frames@[y]@ == plain_frame(
                    old(self).mac,
                    (80 + 4 * y) as u32,
                    seq_plus(old(self).indexpts, y + 1),
                    CMD_SHOWPIC,
                    buff@.subrange(1024 * y, 1024 * (y + 1)),
                )),
    {
        if buff.len() < 20480 {
            return Err(KmError::NetCmd);
        }
        let mut frames: Vec<Vec<u8>> = Vec::new();
        let mut y: usize = 0;
        while y < 20
            invariant
                y <= 20,
                buff@.len() >= 20480,
                self.wf(),
                sys_cmd_ok(*old(self), *self),
                self.indexpts == seq_plus(old(self).indexpts, y as int),
                frames@.len() == y,
                forall|t: int|
                    0 <= t < y ==> frames@[t]@ == plain_frame(
                        old(self).mac,
                        (80 + 4 * t) as u32,
                        seq_plus(old(self).indexpts, t + 1),
                        CMD_SHOWPIC,
                        buff@.subrange(1024 * t, 1024 * (t + 1)),
                    ),
            decreases 20 - y,
        {
            let start: usize = y * 1024;
            let mut chunk: Vec<u8> = Vec::new();
            let mut k: usize = 0;
            while k < 1024
                invariant
                    k <= 1024,
                    start == y * 1024,
                    y < 20,
                    buff@.len() >= 20480,
                    chunk@ == buff@.subrange(start as int, (start + k) as int),
                decreases 1024 - k,
            {
                chunk.push(buff[start + k]);
                assert(chunk@ =~= buff@.subrange(start as int, (start + k + 1) as int));
                k = k + 1;
            }
            let nonce: u32 = 80 + (y as u32) * 4;
            let frame = self.command_frame(CMD_SHOWPIC, &chunk, nonce);
            frames.push(frame);
            y = y + 1;
        }
        Ok(frames)
    }

    /// Blits a full-screen 128x160 image (40960 bytes, RGB565): forty frames
    /// of 1024 payload bytes each. An undersized buffer is rejected with
    /// nothing sent.
    pub fn lcd_picture(&mut self, buff: &Vec<u8>) -> (r: Result<Vec<Vec<u8>>, KmError>)
        requires
            old(self).wf(),
        ensures
            final(self).wf(),
            sys_cmd_ok(*old(self), *final(self)),
            buff@.len() < 40960 ==> (r matches Err(e) && e == KmError::NetCmd && final(self).indexpts == old(self).indexpts),
            buff@.len() >= 40960 ==> final(self).indexpts == seq_plus(old(self).indexpts, 40) && (
            r matches Ok(frames) && frames@.len() == 40 && forall|y: int|
                0 <= y < 40 ==> frames@[y]@ == plain_frame(
                    old(self).mac,
                    (4 * y) as u32,
                    seq_plus(old(self).indexpts, y + 1),
                    CMD_SHOWPIC,
                    buff@.subrange(1024 * y, 1024 * (y + 1)),
                )),
    {
        if buff.len() < 40960 {
            return Err(KmError::NetCmd);
        }
        let mut frames: Vec<Vec<u8>> = Vec::new();
        let mut y: usize = 0;
        while y < 40
            invariant
                y <= 40,
                buff@.len() >= 40960,
                self.wf(),
                sys_cmd_ok(*old(self), *self),
                self.indexpts == seq_plus(old(self).indexpts, y as int),
                frames@.len() == y,
                forall|t: int|
                    0 <= t < y ==> frames@[t]@ == plain_frame(
                        old(self).mac,
                        (4 * t) as u32,
                        seq_plus(old(self).indexpts, t + 1),
                        CMD_SHOWPIC,
                        buff@.subrange(1024 * t, 1024 * (t + 1)),
                    ),
            decreases 40 - y,
        {
            let start: usize = y * 1024;
            let mut chunk: Vec<u8> = Vec::new();
            let mut k: usize = 0;
            while k < 1024
                invariant
                    k <= 1024,
                    start == y * 1024,
                    y < 40,
                    buff@.len() >= 40960,
                    chunk@ == buff@.subrange(start as int, (start + k) as int),
                decreases 1024 - k,
            {
                chunk.push(buff[start + k]);
                assert(chunk@ =~= buff@.subrange(start as int, (start + k + 1) as int));
                k = k + 1;
            }
            let nonce: u32 = (y as u32) * 4;
            let frame = self.command_frame(CMD_SHOWPIC, &chunk, nonce);
            frames.push(frame);
            y = y + 1;
        }
        Ok(frames)
    }
}

} // verus!
