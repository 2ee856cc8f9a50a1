//! Packet model: command codes, the command header, the aggregated mouse and
//! keyboard reports, the telemetry report types, and their little-endian wire
//! encodings.
//!
//! Every outbound datagram is a 16-byte header (four little-endian 32-bit
//! words: device id, nonce, sequence, command code) followed by a
//! command-specific payload.

use vstd::prelude::*;

verus! {

/// Error kinds surfaced by the driver. The numeric status codes the device
/// protocol assigns them are available through [`KmError::code`].
#[derive(Debug, Clone, Copy, PartialEq, Eq, Structural)]
pub enum KmError {
    CreatSocket,
    NetVersion,
    NetTx,
    NetRxTimeout,
    NetCmd,
    NetPts,
    Success,
    UsbDevTxTimeout,
}

/// The numeric code of each error kind.
pub open spec fn spec_error_code(e: KmError) -> i32 {
    match e {
        KmError::CreatSocket => -9000i32,
        KmError::NetVersion => -8999i32,
        KmError::NetTx => -8998i32,
        KmError::NetRxTimeout => -8997i32,
        KmError::NetCmd => -8996i32,
        KmError::NetPts => -8995i32,
        KmError::Success => 0i32,
        KmError::UsbDevTxTimeout => 1i32,
    }
}

/// The human-readable description of each error kind.
pub open spec fn spec_error_message(e: KmError) -> Seq<char> {
    match e {
        KmError::CreatSocket => "Failed to create socket"@,
        KmError::NetVersion => "Network version mismatch"@,
        KmError::NetTx => "Network transmission error"@,
        KmError::NetRxTimeout => "Network receive timeout"@,
        KmError::NetCmd => "Network command error"@,
        KmError::NetPts => "Network PTS error"@,
        KmError::Success => "Success"@,
        KmError::UsbDevTxTimeout => "USB device transmission timeout"@,
    }
}

impl KmError {
    /// Human-readable description of this error kind.
    pub fn message(&self) -> (r: &'static str)
        ensures
            r@ == spec_error_message(*self),
    {
        match self {
            KmError::CreatSocket => "Failed to create socket",
            KmError::NetVersion => "Network version mismatch",
            KmError::NetTx => "Network transmission error",
            KmError::NetRxTimeout => "Network receive timeout",
            KmError::NetCmd => "Network command error",
            KmError::NetPts => "Network PTS error",
            KmError::Success => "Success",
            KmError::UsbDevTxTimeout => "USB device transmission timeout",
        }
    }

    /// Numeric status code of this error kind.
    pub fn code(&self) -> (c: i32)
        ensures
            c == spec_error_code(*self),
    {
        match self {
            KmError::CreatSocket => -9000,
            KmError::NetVersion => -8999,
            KmError::NetTx => -8998,
            KmError::NetRxTimeout => -8997,
            KmError::NetCmd => -8996,
            KmError::NetPts => -8995,
            KmError::Success => 0,
            KmError::UsbDevTxTimeout => 1,
        }
    }
}

pub const CMD_CONNECT: u32 = 0xaf3c2828;
pub const CMD_MOUSE_MOVE: u32 = 0xaede7345;
pub const CMD_MOUSE_LEFT: u32 = 0x9823AE8D;
pub const CMD_MOUSE_MIDDLE: u32 = 0x97a3AE8D;
pub const CMD_MOUSE_RIGHT: u32 = 0x238d8212;
pub const CMD_MOUSE_WHEEL: u32 = 0xffeead38;
pub const CMD_MOUSE_AUTOMOVE: u32 = 0xaede7346;
pub const CMD_KEYBOARD_ALL: u32 = 0x123c2c2f;
pub const CMD_REBOOT: u32 = 0xaa8855aa;
pub const CMD_BAZER_MOVE: u32 = 0xa238455a;
pub const CMD_MONITOR: u32 = 0x27388020;
pub const CMD_DEBUG: u32 = 0x27382021;
pub const CMD_MASK_MOUSE: u32 = 0x23234343;
pub const CMD_UNMASK_ALL: u32 = 0x23344343;
pub const CMD_SETCONFIG: u32 = 0x1d3d3323;
pub const CMD_SETVIDPID: u32 = 0xffed3232;
pub const CMD_SHOWPIC: u32 = 0x12334883;
pub const CMD_TRACE_ENABLE: u32 = 0xbbcdddac;

/// Number of bytes of an encoded command header.
pub const HEAD_SIZE: usize = 16;

/// The four little-endian bytes of a 32-bit word, least significant first.
pub open spec fn u32_le(x: u32) -> Seq<u8> {
    seq![
        (x % 256) as u8,
        ((x / 256) % 256) as u8,
        ((x / 0x10000) % 256) as u8,
        ((x / 0x1000000) % 256) as u8,
    ]
}

/// The unsigned 32-bit word with the same two's-complement bit pattern as `x`.
pub open spec fn u32_of_i32(x: i32) -> u32 {
    if x >= 0 {
        x as u32
    } else {
        (x + 0x1_0000_0000) as u32
    }
}

/// The low byte of a signed word's two's-complement pattern: the key code
/// the device reads from a wider caller-supplied value.
pub open spec fn u8_of_i32(x: i32) -> u8 {
    (u32_of_i32(x) % 256) as u8
}

/// Little-endian bytes of a signed 32-bit word (two's complement).
pub open spec fn i32_le(x: i32) -> Seq<u8> {
    u32_le(u32_of_i32(x))
}

/// The signed 16-bit value encoded by two little-endian bytes.
pub open spec fn i16_of_le(lo: u8, hi: u8) -> i16 {
    if lo + hi * 256 < 0x8000 {
        (lo + hi * 256) as i16
    } else {
        (lo + hi * 256 - 0x1_0000) as i16
    }
}

/// Outbound command header: device id, per-call nonce, sequence number and
/// command code, each sent as a little-endian 32-bit word.
#[derive(Debug, Clone, Copy, PartialEq, Eq, Structural)]
pub struct CmdHead {
    pub mac: u32,
    pub rand: u32,
    pub indexpts: u32,
    pub cmd: u32,
}

/// The 16-byte wire encoding of a command header.
pub open spec fn head_bytes(h: CmdHead) -> Seq<u8> {
    u32_le(h.mac) + u32_le(h.rand) + u32_le(h.indexpts) + u32_le(h.cmd)
}

/// Aggregated mouse report: button mask, relative axes, wheel and the ten
/// curve control words used by curve-move commands.
#[derive(Debug, Clone)]
pub struct SoftMouse {
    pub button: i32,
    pub x: i32,
    pub y: i32,
    pub wheel: i32,
    pub point: Vec<i32>,
}

impl SoftMouse {
    /// Structural validity: exactly ten curve control words.
    pub open spec fn wf(&self) -> bool {
        self.point@.len() == 10
    }
}

/// Ten zeroed curve control words.
pub fn zero_points() -> (p: Vec<i32>)
    ensures
        p@.len() == 10,
        forall|i: int| 0 <= i < 10 ==> p@[i] == 0,
{
    let mut point: Vec<i32> = Vec::new();
    let mut i: usize = 0;
    while i < 10
        invariant
            i <= 10,
            point@.len() == i,
            forall|j: int| 0 <= j < i ==> point@[j] == 0,
        decreases 10 - i,
    {
        point.push(0);
        i = i + 1;
    }
    point
}

/// The all-zero mouse report.
pub fn zero_mouse() -> (m: SoftMouse)
    ensures
        m.wf(),
        m.button == 0 && m.x == 0 && m.y == 0 && m.wheel == 0,
        forall|i: int| 0 <= i < 10 ==> m.point@[i] == 0,
{
    SoftMouse { button: 0, x: 0, y: 0, wheel: 0, point: zero_points() }
}

/// Field-wise equality of mouse reports.
pub open spec fn mouse_eq(a: SoftMouse, b: SoftMouse) -> bool {
    a.button == b.button && a.x == b.x && a.y == b.y && a.wheel == b.wheel && a.point@ == b.point@
}

impl Default for SoftMouse {
    /// The all-zero report.
    fn default() -> (m: SoftMouse)
        ensures
            m.wf(),
            m.button == 0 && m.x == 0 && m.y == 0 && m.wheel == 0,
            forall|i: int| 0 <= i < 10 ==> m.point@[i] == 0,
    {
        zero_mouse()
    }
}

/// The 56-byte wire encoding of a mouse report: four signed words followed by
/// the ten curve control words, all little-endian.
pub open spec fn mouse_bytes_rec(point: Seq<i32>, n: int) -> Seq<u8>
    decreases n,
{
    if n <= 0 {
        Seq::empty()
    } else {
        mouse_bytes_rec(point, n - 1) + i32_le(point[n - 1])
    }
}

pub open spec fn mouse_bytes(m: SoftMouse) -> Seq<u8> {
    i32_le(m.button) + i32_le(m.x) + i32_le(m.y) + i32_le(m.wheel) + mouse_bytes_rec(m.point@, 10)
}

/// Aggregated keyboard report: modifier byte, reserved byte, then ten key
/// slots (zero marks an empty slot).
#[derive(Debug, Clone)]
pub struct SoftKeyboard {
    pub ctrl: u8,
    pub resvel: u8,
    pub button: Vec<u8>,
}

impl SoftKeyboard {
    /// Structural validity: exactly ten key slots.
    pub open spec fn wf(&self) -> bool {
        self.button@.len() == 10
    }
}

/// The all-zero keyboard report.
pub fn zero_keyboard() -> (k: SoftKeyboard)
    ensures
        k.wf(),
        k.ctrl == 0 && k.resvel == 0,
        forall|i: int| 0 <= i < 10 ==> k.button@[i] == 0,
{
    let mut button: Vec<u8> = Vec::new();
    let mut i: usize = 0;
    while i < 10
        invariant
            i <= 10,
            button@.len() == i,
            forall|j: int| 0 <= j < i ==> button@[j] == 0,
        decreases 10 - i,
    {
        button.push(0);
        i = i + 1;
    }
    SoftKeyboard { ctrl: 0, resvel: 0, button }
}

/// Field-wise equality of keyboard reports.
pub open spec fn kb_eq(a: SoftKeyboard, b: SoftKeyboard) -> bool {
    a.ctrl == b.ctrl && a.resvel == b.resvel && a.button@ == b.button@
}

impl Default for SoftKeyboard {
    /// The all-zero report.
    fn default() -> (k: SoftKeyboard)
        ensures
            k.wf(),
            k.ctrl == 0 && k.resvel == 0,
            forall|i: int| 0 <= i < 10 ==> k.button@[i] == 0,
    {
        zero_keyboard()
    }
}

/// The 12-byte wire encoding of a keyboard report.
pub open spec fn keyboard_bytes(k: SoftKeyboard) -> Seq<u8> {
    seq![k.ctrl, k.resvel] + k.button@
}

/// Telemetry mouse report decoded from a device datagram.
#[derive(Debug, Clone, Copy, Default, PartialEq, Eq, Structural)]
pub struct HardMouse {
    pub buttons: u8,
    pub x: i16,
    pub y: i16,
    pub wheel: i16,
}

/// Telemetry keyboard report decoded from a device datagram: modifier byte
/// and the ten raw key codes.
#[derive(Debug, Clone)]
pub struct HardKeyboard {
    pub buttons: u8,
    pub data: Vec<u8>,
}

/// Appends the four little-endian bytes of `x`.
pub fn push_u32_le(buf: &mut Vec<u8>, x: u32)
    ensures
        final(buf)@ == old(buf)@ + u32_le(x),
{
    let ghost buf0: Seq<u8> = buf@;
    buf.push((x % 256) as u8);
    buf.push(((x / 256) % 256) as u8);
    buf.push(((x / 0x10000) % 256) as u8);
    buf.push(((x / 0x1000000) % 256) as u8);
    assert(buf@ =~= buf0 + u32_le(x));
}

/// The unsigned word with the same bit pattern as `x`, computed without
/// relying on cast truncation.
pub fn u32_from_i32(x: i32) -> (r: u32)
    ensures
        r == u32_of_i32(x),
{
    if x >= 0 {
        x as u32
    } else {
        ((x as i64) + 0x1_0000_0000i64) as u32
    }
}

/// The low byte of a signed word's two's-complement pattern.
pub fn u8_from_i32(x: i32) -> (r: u8)
    ensures
        r == u8_of_i32(x),
{
    let u = u32_from_i32(x);
    (u % 256) as u8
}

/// Appends the four little-endian bytes of a signed word.
pub fn push_i32_le(buf: &mut Vec<u8>, x: i32)
    ensures
        final(buf)@ == old(buf)@ + i32_le(x),
{
    let u = u32_from_i32(x);
    push_u32_le(buf, u);
}

/// Appends the 16-byte encoding of a command header.
pub fn push_head(buf: &mut Vec<u8>, h: &CmdHead)
    ensures
        final(buf)@ == old(buf)@ + head_bytes(*h),
{
    let ghost buf0: Seq<u8> = buf@;
    push_u32_le(buf, h.mac);
    push_u32_le(buf, h.rand);
    push_u32_le(buf, h.indexpts);
    push_u32_le(buf, h.cmd);
    assert(buf@ =~= buf0 + head_bytes(*h));
}

/// Appends the 56-byte encoding of a mouse report.
pub fn push_mouse(buf: &mut Vec<u8>, m: &SoftMouse)
    requires
        m.wf(),
    ensures
        final(buf)@ == old(buf)@ + mouse_bytes(*m),
{
    let ghost buf0: Seq<u8> = buf@;
    push_i32_le(buf, m.button);
    push_i32_le(buf, m.x);
    push_i32_le(buf, m.y);
    push_i32_le(buf, m.wheel);
    let mut i: usize = 0;
    while i < 10
        invariant
            i <= 10,
            m.wf(),
            buf@ =~= buf0 + i32_le(m.button) + i32_le(m.x) + i32_le(m.y) + i32_le(m.wheel)
                + mouse_bytes_rec(m.point@, i as int),
        decreases 10 - i,
    {
        push_i32_le(buf, m.point[i]);
        i = i + 1;
    }
    assert(buf@ =~= buf0 + mouse_bytes(*m));
}

/// Appends the 12-byte encoding of a keyboard report.
pub fn push_keyboard(buf: &mut Vec<u8>, k: &SoftKeyboard)
    requires
        k.wf(),
    ensures
        final(buf)@ == old(buf)@ + keyboard_bytes(*k),
{
    let ghost buf0: Seq<u8> = buf@;
    buf.push(k.ctrl);
    buf.push(k.resvel);
    let mut i: usize = 0;
    while i < 10
        invariant
            i <= 10,
            k.wf(),
            buf@ =~= buf0 + seq![k.ctrl, k.resvel] + k.button@.subrange(0, i as int),
        decreases 10 - i,
    {
        buf.push(k.button[i]);
        assert(buf@ =~= buf0 + seq![k.ctrl, k.resvel] + k.button@.subrange(0, (i + 1) as int));
        i = i + 1;
    }
    assert(k.button@.subrange(0, 10) =~= k.button@);
    assert(buf@ =~= buf0 + keyboard_bytes(*k));
}

/// The first `n` curve words encode to `4 * n` bytes.
pub proof fn lemma_mouse_bytes_rec_len(point: Seq<i32>, n: int)
    requires
        n >= 0,
    ensures
        mouse_bytes_rec(point, n).len() == 4 * n,
    decreases n,
{
    if n > 0 {
        lemma_mouse_bytes_rec_len(point, n - 1);
    }
}

/// A mouse report always encodes to 56 bytes.
pub proof fn lemma_mouse_bytes_len(m: SoftMouse)
    ensures
        mouse_bytes(m).len() == 56,
{
    lemma_mouse_bytes_rec_len(m.point@, 10);
}

/// The 56-byte payload of a mouse report.
pub fn mouse_payload(m: &SoftMouse) -> (r: Vec<u8>)
    requires
        m.wf(),
    ensures
        r@ == mouse_bytes(*m),
        r@.len() == 56,
{
    proof {
        lemma_mouse_bytes_len(*m);
    }
    let mut b: Vec<u8> = Vec::new();
    push_mouse(&mut b, m);
    assert(b@ =~= mouse_bytes(*m));
    b
}

/// The 12-byte payload of a keyboard report.
pub fn keyboard_payload(k: &SoftKeyboard) -> (r: Vec<u8>)
    requires
        k.wf(),
    ensures
        r@ == keyboard_bytes(*k),
        r@.len() == 12,
{
    let mut b: Vec<u8> = Vec::new();
    push_keyboard(&mut b, k);
    assert(b@ =~= keyboard_bytes(*k));
    b
}

} // verus!
