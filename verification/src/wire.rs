//! Byte-level layout of the link: constants and frame codecs.

use vstd::prelude::*;

verus! {

/// Line speed of the link, in baud.
pub const BAUD_RATE: u32 = 115200;

/// How long one read on the link may block, in milliseconds.
pub const IO_TIMEOUT_MS: u64 = 1000;

/// Pause after opening the link, while the device boots, in milliseconds.
pub const SETTLE_MS: u64 = 2000;

/// How long the worker waits for a command before it pings, in milliseconds.
pub const POLL_MS: u64 = 100;

/// The one protocol version that is spoken.
pub const SUPPORTED_VERSION: u16 = 0;

/// Request tag of a heartbeat.
pub const TAG_HEARTBEAT: u8 = 0x00;

/// Request tag of a speed command.
pub const TAG_SPEED: u8 = 0x01;

/// Byte that tells the device its version is accepted.
pub const VERSION_ACCEPTED: u8 = 0x00;

/// Byte that tells the device its version is refused.
pub const VERSION_REJECTED: u8 = 0x01;

/// Response byte of a request that the device carried out.
pub const STATUS_OK: u8 = 0x00;

/// Number of identity bytes the device answers with.
pub const IDENTITY_LEN: usize = 4;

/// Number of bytes of the version field.
pub const VERSION_LEN: usize = 2;

/// Number of bytes of a response to a request.
pub const STATUS_LEN: usize = 1;

/// The identity exchanged in both directions: ASCII `smov`.
pub open spec fn magic() -> Seq<u8> {
    seq![0x73u8, 0x6du8, 0x6fu8, 0x76u8]
}

/// The 16 bits of a speed, read as an unsigned number (two's complement).
pub open spec fn speed_bits(speed: i16) -> int {
    if speed < 0 {
        speed + 0x1_0000
    } else {
        speed as int
    }
}

/// A speed command on the wire: the tag, then the speed, high byte first.
pub open spec fn speed_frame(speed: i16) -> Seq<u8> {
    seq![TAG_SPEED, (speed_bits(speed) / 256) as u8, (speed_bits(speed) % 256) as u8]
}

/// A heartbeat on the wire: the tag alone.
pub open spec fn heartbeat_frame() -> Seq<u8> {
    seq![TAG_HEARTBEAT]
}

/// The speed that a frame carries, if it is a speed command.
pub open spec fn parse_speed(frame: Seq<u8>) -> Option<i16> {
    if frame.len() == 3 && frame[0] == TAG_SPEED {
        let bits = frame[1] * 256 + frame[2];
        Some(
            if bits >= 0x8000 {
                (bits - 0x1_0000) as i16
            } else {
                bits as i16
            },
        )
    } else {
        None
    }
}

/// The version that two bytes spell, high byte first.
pub open spec fn version_of(bytes: Seq<u8>) -> u16
    recommends
        bytes.len() == 2,
{
    (bytes[0] * 256 + bytes[1]) as u16
}

/// The identity bytes to write when the link is up.
pub fn magic_bytes() -> (out: Vec<u8>)
    ensures
        out@ == magic(),
{
    let out = vec![0x73u8, 0x6du8, 0x6fu8, 0x76u8];
    assert(out@ =~= magic());
    out
}

/// Tells whether the bytes read are the identity.
pub fn is_magic(bytes: &[u8]) -> (same: bool)
    ensures
        same == (bytes@ == magic()),
{
    let same = bytes.len() == 4 && bytes[0] == 0x73 && bytes[1] == 0x6d && bytes[2] == 0x6f
        && bytes[3] == 0x76;
    assert(same == (bytes@ =~= magic()));
    same
}

/// Frames a speed command.
pub fn encode_speed(speed: i16) -> (out: Vec<u8>)
    ensures
        out@ == speed_frame(speed),
{
    let bits: i32 = if speed < 0 {
        speed as i32 + 0x1_0000
    } else {
        speed as i32
    };
    let high: u8 = (bits / 256) as u8;
    let low: u8 = (bits % 256) as u8;
    let out = vec![TAG_SPEED, high, low];
    assert(out@ =~= speed_frame(speed));
    out
}

/// Frames a heartbeat.
pub fn encode_heartbeat() -> (out: Vec<u8>)
    ensures
        out@ == heartbeat_frame(),
{
    let out = vec![TAG_HEARTBEAT];
    assert(out@ =~= heartbeat_frame());
    out
}

/// Reads a speed command back from its frame; `None` for any other bytes.
pub fn decode_speed(frame: &[u8]) -> (speed: Option<i16>)
    ensures
        speed == parse_speed(frame@),
{
    if frame.len() == 3 && frame[0] == TAG_SPEED {
        let bits: i32 = frame[1] as i32 * 256 + frame[2] as i32;
        if bits >= 0x8000 {
            Some((bits - 0x1_0000) as i16)
        } else {
            Some(bits as i16)
        }
    } else {
        None
    }
}

/// Reads the version field.
pub fn decode_version(bytes: &[u8]) -> (version: u16)
    requires
        bytes@.len() == 2,
    ensures
        version == version_of(bytes@),
{
    let wide: u32 = bytes[0] as u32 * 256 + bytes[1] as u32;
    wide as u16
}

/// Decoding a framed speed gives the speed back.
pub proof fn speed_round_trip(speed: i16)
    ensures
        parse_speed(speed_frame(speed)) == Some(speed),
{
}

/// Only the frame of a speed decodes to that speed: framing loses nothing.
pub proof fn speed_frame_unique(frame: Seq<u8>, speed: i16)
    requires
        parse_speed(frame) == Some(speed),
    ensures
        frame =~= speed_frame(speed),
{
}

} // verus!
