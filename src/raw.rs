//! The raw input record as the console delivers it.
//!
//! A record is a 16-bit discriminant and a 16-byte payload. The payload is a
//! union: its layout depends on the discriminant. Multi-byte fields are
//! little-endian, as on every platform that has such a console.
use vstd::prelude::*;

verus! {

/// The discriminant of a keyboard event.
pub const KEY_EVENT: u16 = 0x0001;
/// The discriminant of a mouse event.
pub const MOUSE_EVENT: u16 = 0x0002;
/// The discriminant of a screen buffer resize event.
pub const WINDOW_BUFFER_SIZE_EVENT: u16 = 0x0004;
/// The discriminant of a menu event.
pub const MENU_EVENT: u16 = 0x0008;
/// The discriminant of a focus event.
pub const FOCUS_EVENT: u16 = 0x0010;

/// The number of bytes in the payload of a record.
pub const PAYLOAD_LEN: usize = 16;

/// One record as read from the console's input buffer.
#[derive(Debug, Copy, Clone)]
pub struct RawInputRecord {
    /// Which payload layout is active.
    pub event_type: u16,
    /// The payload's memory.
    pub event: [u8; 16],
}

impl RawInputRecord {
    /// A record from its discriminant and payload.
    pub fn new(event_type: u16, event: [u8; 16]) -> (r: RawInputRecord)
        ensures
            r.event_type == event_type,
            r.event@ == event@,
    {
        RawInputRecord { event_type, event }
    }
}

/// Relies on `windows::Win32::Foundation::BOOL::as_bool`: a 32-bit Win32
/// boolean is true exactly when it is not zero.
#[verifier::external_body]
pub(crate) fn win_bool(v: i32) -> (r: bool)
    ensures
        r == (v != 0),
{
    windows::Win32::Foundation::BOOL(v).as_bool()
}

/// Reads the little-endian 32-bit Win32 boolean at offset `i`.
pub fn read_bool(b: &[u8; 16], i: usize) -> (r: bool)
    requires
        i + 4 <= PAYLOAD_LEN,
    ensures
        r == (le_u32(b@, i as int) != 0),
{
    let v = read_u32(b, i);
    let r = win_bool(v as i32);
    assert((v as i32 != 0) == (v != 0)) by (bit_vector);
    r
}

/// The little-endian 16-bit value at offset `i` of `b`.
pub open spec fn le_u16(b: Seq<u8>, i: int) -> u16 {
    (b[i] as int + 256 * b[i + 1] as int) as u16
}

/// The little-endian 32-bit value at offset `i` of `b`.
pub open spec fn le_u32(b: Seq<u8>, i: int) -> u32 {
    (b[i] as int + 256 * b[i + 1] as int + 65536 * b[i + 2] as int + 16777216 * b[i
        + 3] as int) as u32
}

/// Reads the little-endian 16-bit value at offset `i`.
pub fn read_u16(b: &[u8; 16], i: usize) -> (r: u16)
    requires
        i + 2 <= PAYLOAD_LEN,
    ensures
        r == le_u16(b@, i as int),
{
    let lo: u16 = b[i] as u16;
    let hi: u16 = b[i + 1] as u16;
    lo + 256 * hi
}

/// Reads the little-endian 32-bit value at offset `i`.
pub fn read_u32(b: &[u8; 16], i: usize) -> (r: u32)
    requires
        i + 4 <= PAYLOAD_LEN,
    ensures
        r == le_u32(b@, i as int),
{
    let b0: u32 = b[i] as u32;
    let b1: u32 = b[i + 1] as u32;
    let b2: u32 = b[i + 2] as u32;
    let b3: u32 = b[i + 3] as u32;
    b0 + 256 * b1 + 65536 * b2 + 16777216 * b3
}

} // verus!
