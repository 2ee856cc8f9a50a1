//! Client-side protocol engine for a network-attached HID relay box.
//!
//! The library covers the verifiable core of the driver: the binary command
//! framing (little-endian header plus report payloads), the XXTEA-style block
//! cipher used to obfuscate command frames, the stateful aggregation of
//! pressed keys and mouse axes into reports, per-session sequence numbering,
//! and the decoder for the telemetry datagrams the device emits. Socket I/O,
//! timing and the background listener thread live outside the library and
//! drive it with plain values.

pub mod cipher;
pub mod client;
pub mod client_keyboard;
pub mod client_monitor;
pub mod client_mouse;
pub mod client_systemt;
pub mod keyboard;
pub mod keys;
pub mod protocol;
pub mod telemetry;

pub use client::KmBoxNetClient;
pub use protocol::KmError;
