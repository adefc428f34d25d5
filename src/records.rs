//! Typed input events, and the decoding of raw records into them.
use vstd::prelude::*;

use crate::coord::{Coord, Size};
use crate::flags::{event_flags_of, ButtonState, ControlKeyState, EventFlags};
use crate::raw::{
    le_u16, le_u32, read_bool, read_u16, read_u32, RawInputRecord, FOCUS_EVENT, KEY_EVENT, MENU_EVENT,
    MOUSE_EVENT, WINDOW_BUFFER_SIZE_EVENT,
};

verus! {

/// A keyboard input event.
#[derive(Clone, Copy, Debug, PartialEq, Eq, Structural)]
pub struct KeyEventRecord {
    /// Whether the key is pressed; false when it is released.
    pub key_down: bool,
    /// How many presses this event stands for while the key is held down.
    pub repeat_count: u16,
    /// The device-independent code of the key.
    pub virtual_key_code: u16,
    /// The device-dependent code the keyboard hardware generated.
    pub virtual_scan_code: u16,
    /// The translated character, as one UTF-16 code unit.
    pub u_char: u16,
    /// The state of the control keys.
    pub control_key_state: ControlKeyState,
}

/// The key event held in a key payload. The character is always read as a
/// 16-bit code unit (bytes 10 and 11), never as the one-byte narrow form.
pub open spec fn key_event_of(b: Seq<u8>) -> KeyEventRecord {
    KeyEventRecord {
        key_down: le_u32(b, 0) != 0,
        repeat_count: le_u16(b, 4),
        virtual_key_code: le_u16(b, 6),
        virtual_scan_code: le_u16(b, 8),
        u_char: le_u16(b, 10),
        control_key_state: ControlKeyState(le_u32(b, 12)),
    }
}

impl KeyEventRecord {
    /// Decodes the payload of a key event.
    pub fn from_payload(event: &[u8; 16]) -> (r: KeyEventRecord)
        ensures
            r == key_event_of(event@),
    {
        KeyEventRecord {
            key_down: read_bool(event, 0),
            repeat_count: read_u16(event, 4),
            virtual_key_code: read_u16(event, 6),
            virtual_scan_code: read_u16(event, 8),
            u_char: read_u16(event, 10),
            control_key_state: ControlKeyState(read_u32(event, 12)),
        }
    }
}

/// A mouse input event.
#[derive(PartialEq, Debug, Copy, Clone, Eq, Structural)]
pub struct MouseEvent {
    /// The position of the mouse in cell coordinates.
    pub mouse_position: Coord,
    /// The state of the mouse buttons.
    pub button_state: ButtonState,
    /// The state of the control keys.
    pub control_key_state: ControlKeyState,
    /// The kind of mouse event.
    pub event_flags: EventFlags,
}

/// The coordinate held in the four bytes at offset `i`.
pub open spec fn coord_of(b: Seq<u8>, i: int) -> Coord {
    Coord { x: le_u16(b, i) as i16, y: le_u16(b, i + 2) as i16 }
}

/// The mouse event held in a mouse payload.
pub open spec fn mouse_event_of(b: Seq<u8>) -> MouseEvent {
    MouseEvent {
        mouse_position: coord_of(b, 0),
        button_state: ButtonState::spec_from(le_u32(b, 4)),
        control_key_state: ControlKeyState(le_u32(b, 8)),
        event_flags: event_flags_of(le_u32(b, 12)),
    }
}

/// Reads the coordinate at offset `i`.
fn read_coord(b: &[u8; 16], i: usize) -> (r: Coord)
    requires
        i + 4 <= 16,
    ensures
        r == coord_of(b@, i as int),
{
    Coord { x: read_u16(b, i) as i16, y: read_u16(b, i + 2) as i16 }
}

impl MouseEvent {
    /// Decodes the payload of a mouse event.
    pub fn from_payload(event: &[u8; 16]) -> (r: MouseEvent)
        ensures
            r == mouse_event_of(event@),
    {
        MouseEvent {
            mouse_position: read_coord(event, 0),
            button_state: ButtonState::from(read_u32(event, 4)),
            control_key_state: ControlKeyState(read_u32(event, 8)),
            event_flags: EventFlags::from(read_u32(event, 12)),
        }
    }
}

/// The size of the console screen buffer.
#[derive(Debug, Clone, Copy, PartialEq, Eq, Structural)]
pub struct WindowBufferSizeRecord {
    /// Columns (`x`) and rows (`y`).
    pub size: Coord,
}

impl WindowBufferSizeRecord {
    /// Decodes the payload of a resize event, with the size it carries.
    pub fn from_payload(event: &[u8; 16]) -> (r: WindowBufferSizeRecord)
        ensures
            r.size == coord_of(event@, 0),
    {
        WindowBufferSizeRecord { size: read_coord(event, 0) }
    }
}

/// A focus event. The console uses it internally; its field is reserved.
#[derive(Debug, Clone, Copy, PartialEq, Eq, Structural)]
pub struct FocusEventRecord {
    /// Reserved.
    pub set_focus: bool,
}

impl FocusEventRecord {
    /// Decodes the payload of a focus event.
    pub fn from_payload(event: &[u8; 16]) -> (r: FocusEventRecord)
        ensures
            r.set_focus == (le_u32(event@, 0) != 0),
    {
        FocusEventRecord { set_focus: read_bool(event, 0) }
    }
}

/// A menu event. The console uses it internally; its field is reserved.
#[derive(Debug, Clone, Copy, PartialEq, Eq, Structural)]
pub struct MenuEventRecord {
    /// Reserved.
    pub command_id: u32,
}

impl MenuEventRecord {
    /// Decodes the payload of a menu event.
    pub fn from_payload(event: &[u8; 16]) -> (r: MenuEventRecord)
        ensures
            r.command_id == le_u32(event@, 0),
    {
        MenuEventRecord { command_id: read_u32(event, 0) }
    }
}

/// A decoded input event.
#[derive(Clone, Copy, Debug, PartialEq, Eq, Structural)]
pub enum InputRecord {
    /// A keyboard event occurred.
    KeyEvent(KeyEventRecord),
    /// The mouse moved or a mouse button was pressed.
    MouseEvent(MouseEvent),
    /// The console screen buffer was resized.
    WindowBufferSizeEvent(WindowBufferSizeRecord),
    /// A focus event, used internally by the console.
    FocusEvent(FocusEventRecord),
    /// A menu event, used internally by the console.
    MenuEvent(MenuEventRecord),
}

/// Why a raw record could not be decoded.
#[derive(Clone, Copy, Debug, PartialEq, Eq, Structural)]
pub enum DecodeError {
    /// The discriminant names none of the five event kinds, so the layout
    /// of the payload is unknown.
    UnrecognizedDiscriminant(u16),
    /// A resize event was read, and the current terminal size could not be
    /// queried.
    TerminalSizeUnavailable,
}

/// The result of decoding `raw`, where `size` is what the query of the
/// current terminal size returned (`None`: the query failed). Only a resize
/// event depends on `size`, and it takes its size from there, not from its
/// payload.
pub open spec fn input_record_of(raw: RawInputRecord, size: Option<Size>) -> Result<
    InputRecord,
    DecodeError,
> {
    let b = raw.event@;
    if raw.event_type == KEY_EVENT {
        Ok(InputRecord::KeyEvent(key_event_of(b)))
    } else if raw.event_type == MOUSE_EVENT {
        Ok(InputRecord::MouseEvent(mouse_event_of(b)))
    } else if raw.event_type == WINDOW_BUFFER_SIZE_EVENT {
        match size {
            Some(s) => Ok(
                InputRecord::WindowBufferSizeEvent(
                    WindowBufferSizeRecord { size: Coord { x: s.width, y: s.height } },
                ),
            ),
            None => Err(DecodeError::TerminalSizeUnavailable),
        }
    } else if raw.event_type == FOCUS_EVENT {
        Ok(InputRecord::FocusEvent(FocusEventRecord { set_focus: le_u32(b, 0) != 0 }))
    } else if raw.event_type == MENU_EVENT {
        Ok(InputRecord::MenuEvent(MenuEventRecord { command_id: le_u32(b, 0) }))
    } else {
        Err(DecodeError::UnrecognizedDiscriminant(raw.event_type))
    }
}

/// Whether decoding `raw` asks for the current terminal size.
pub open spec fn needs_size(raw: RawInputRecord) -> bool {
    raw.event_type == WINDOW_BUFFER_SIZE_EVENT
}

impl InputRecord {
    /// Decodes `raw`, given the outcome of the terminal size query
    /// (`None` where it failed). `size` is read only for a resize event.
    pub fn decode(raw: &RawInputRecord, size: Option<Size>) -> (r: Result<
        InputRecord,
        DecodeError,
    >)
        ensures
            r == input_record_of(*raw, size),
    {
        let t = raw.event_type;
        if t == KEY_EVENT {
            Ok(InputRecord::KeyEvent(KeyEventRecord::from_payload(&raw.event)))
        } else if t == MOUSE_EVENT {
            Ok(InputRecord::MouseEvent(MouseEvent::from_payload(&raw.event)))
        } else if t == WINDOW_BUFFER_SIZE_EVENT {
            match size {
                Some(s) => {
                    let mut buffer = WindowBufferSizeRecord::from_payload(&raw.event);
                    buffer.size.y = s.height;
                    buffer.size.x = s.width;
                    Ok(InputRecord::WindowBufferSizeEvent(buffer))
                },
                None => Err(DecodeError::TerminalSizeUnavailable),
            }
        } else if t == FOCUS_EVENT {
            Ok(InputRecord::FocusEvent(FocusEventRecord::from_payload(&raw.event)))
        } else if t == MENU_EVENT {
            Ok(InputRecord::MenuEvent(MenuEventRecord::from_payload(&raw.event)))
        } else {
            Err(DecodeError::UnrecognizedDiscriminant(t))
        }
    }

    /// Decodes `raw`. `query_size` returns the current terminal size, or
    /// `None` where it cannot be had; it is called for a resize event only,
    /// and at most once.
    pub fn from_raw<F: FnOnce() -> Option<Size>>(raw: &RawInputRecord, query_size: F) -> (r:
        Result<InputRecord, DecodeError>)
        requires
            needs_size(*raw) ==> query_size.requires(()),
        ensures
            !needs_size(*raw) ==> r == input_record_of(*raw, None),
            needs_size(*raw) ==> exists|s: Option<Size>|
                query_size.ensures((), s) && r == input_record_of(*raw, s),
    {
        if raw.event_type == WINDOW_BUFFER_SIZE_EVENT {
            let size = query_size();
            InputRecord::decode(raw, size)
        } else {
            InputRecord::decode(raw, None)
        }
    }
}

/// Decoding a key event keeps the key-down flag, the repeat count, both key
/// codes and the control-key state of the payload, and reads the character
/// as the full 16-bit code unit at bytes 10 and 11.
pub proof fn key_event_fields_kept(raw: RawInputRecord, size: Option<Size>)
    requires
        raw.event_type == KEY_EVENT,
    ensures
        input_record_of(raw, size) matches Ok(InputRecord::KeyEvent(k)) && k.key_down == (le_u32(
            raw.event@,
            0,
        ) != 0) && k.repeat_count == le_u16(raw.event@, 4) && k.virtual_key_code == le_u16(
            raw.event@,
            6,
        ) && k.virtual_scan_code == le_u16(raw.event@, 8) && k.u_char == raw.event@[10] as int
            + 256 * raw.event@[11] as int && k.control_key_state == ControlKeyState(
            le_u32(raw.event@, 12),
        ),
{
}

/// A resize event takes the size that the query returned, whatever size
/// its payload carries: two resize records decode alike under one query
/// outcome.
pub proof fn resize_takes_queried_size(raw: RawInputRecord, other: RawInputRecord, s: Size)
    requires
        raw.event_type == WINDOW_BUFFER_SIZE_EVENT,
        other.event_type == WINDOW_BUFFER_SIZE_EVENT,
    ensures
        input_record_of(raw, Some(s)) == Ok::<InputRecord, DecodeError>(
            InputRecord::WindowBufferSizeEvent(
                WindowBufferSizeRecord { size: Coord { x: s.width, y: s.height } },
            ),
        ),
        input_record_of(raw, Some(s)) == input_record_of(other, Some(s)),
        input_record_of(raw, None) == Err::<InputRecord, DecodeError>(
            DecodeError::TerminalSizeUnavailable,
        ),
{
}

/// A record whose discriminant names none of the five event kinds gives
/// the unrecognized-discriminant error, never an event.
pub proof fn unrecognized_discriminant_is_fatal(raw: RawInputRecord, size: Option<Size>)
    requires
        raw.event_type != KEY_EVENT,
        raw.event_type != MOUSE_EVENT,
        raw.event_type != WINDOW_BUFFER_SIZE_EVENT,
        raw.event_type != FOCUS_EVENT,
        raw.event_type != MENU_EVENT,
    ensures
        input_record_of(raw, size) == Err::<InputRecord, DecodeError>(
            DecodeError::UnrecognizedDiscriminant(raw.event_type),
        ),
{
}

/// Decoding keeps no state: the same record under the same query outcome
/// decodes the same way, and a record other than a resize event decodes
/// the same way whatever the query would return.
pub proof fn decoding_is_deterministic(raw: RawInputRecord, s1: Option<Size>, s2: Option<Size>)
    requires
        needs_size(raw) ==> s1 == s2,
    ensures
        input_record_of(raw, s1) == input_record_of(raw, s2),
{
}

} // verus!
