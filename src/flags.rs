//! Value types for the bit fields carried by keyboard and mouse events.
use vstd::prelude::*;

verus! {

/// The leftmost mouse button.
pub const FROM_LEFT_1ST_BUTTON_PRESSED: u32 = 0x0001;
/// The rightmost mouse button.
pub const RIGHTMOST_BUTTON_PRESSED: u32 = 0x0002;
/// The second button from the left.
pub const FROM_LEFT_2ND_BUTTON_PRESSED: u32 = 0x0004;
/// The third button from the left.
pub const FROM_LEFT_3RD_BUTTON_PRESSED: u32 = 0x0008;
/// The fourth button from the left.
pub const FROM_LEFT_4TH_BUTTON_PRESSED: u32 = 0x0010;

/// The right alt key is pressed.
pub const RIGHT_ALT_PRESSED: u32 = 0x0001;
/// The left alt key is pressed.
pub const LEFT_ALT_PRESSED: u32 = 0x0002;
/// The right control key is pressed.
pub const RIGHT_CTRL_PRESSED: u32 = 0x0004;
/// The left control key is pressed.
pub const LEFT_CTRL_PRESSED: u32 = 0x0008;
/// The shift key is pressed.
pub const SHIFT_PRESSED: u32 = 0x0010;
/// The num lock light is on.
pub const NUMLOCK_ON: u32 = 0x0020;
/// The scroll lock light is on.
pub const SCROLLLOCK_ON: u32 = 0x0040;
/// The caps lock light is on.
pub const CAPSLOCK_ON: u32 = 0x0080;
/// The key is enhanced.
pub const ENHANCED_KEY: u32 = 0x0100;

/// A button press or release.
pub const PRESS_OR_RELEASE: u32 = 0x0000;
/// A change in mouse position.
pub const MOUSE_MOVED: u32 = 0x0001;
/// The second click of a double-click.
pub const DOUBLE_CLICK: u32 = 0x0002;
/// The vertical mouse wheel was moved.
pub const MOUSE_WHEELED: u32 = 0x0004;
/// The horizontal mouse wheel was moved.
pub const MOUSE_HWHEELED: u32 = 0x0008;

/// The status of the mouse buttons.
///
/// The least significant bit is the leftmost button, the next one the
/// rightmost button, and the following bits the buttons from the second
/// to the fourth from the left. For a wheel event the sign of the whole
/// value gives the direction: negative is toward the user, positive away
/// from the user.
#[derive(PartialEq, Debug, Copy, Clone, Eq, Structural)]
pub struct ButtonState {
    state: i32,
}

impl View for ButtonState {
    type V = i32;

    /// The raw state, as a signed 32-bit value.
    closed spec fn view(&self) -> i32 {
        self.state
    }
}

/// Whether any of the bits of `mask` is set in `state`, read as unsigned.
pub open spec fn any_bit(state: i32, mask: u32) -> bool {
    (state as u32) & mask != 0
}

impl From<u32> for ButtonState {
    /// Reinterprets the raw 32 bits as a signed value.
    fn from(event: u32) -> (r: ButtonState)
        ensures
            r@ == event as i32,
            r == ButtonState::spec_from(event),
    {
        ButtonState { state: event as i32 }
    }
}

impl vstd::std_specs::convert::FromSpecImpl<u32> for ButtonState {
    open spec fn obeys_from_spec() -> bool {
        true
    }

    open spec fn from_spec(v: u32) -> ButtonState {
        ButtonState::spec_from(v)
    }
}

impl ButtonState {
    /// The value that a raw button field decodes to: its 32 bits read as
    /// a signed integer.
    pub closed spec fn spec_from(v: u32) -> ButtonState {
        ButtonState { state: v as i32 }
    }

    /// Whether no button is pressed.
    pub fn release_button(&self) -> (r: bool)
        ensures
            r == (self@ == 0),
    {
        self.state == 0
    }

    /// Whether the leftmost button is pressed.
    pub fn left_button(&self) -> (r: bool)
        ensures
            r == any_bit(self@, FROM_LEFT_1ST_BUTTON_PRESSED),
    {
        self.state as u32 & FROM_LEFT_1ST_BUTTON_PRESSED != 0
    }

    /// Whether the right button is pressed: the rightmost button, or the
    /// third or fourth from the left.
    pub fn right_button(&self) -> (r: bool)
        ensures
            r == any_bit(
                self@,
                RIGHTMOST_BUTTON_PRESSED | FROM_LEFT_3RD_BUTTON_PRESSED
                    | FROM_LEFT_4TH_BUTTON_PRESSED,
            ),
    {
        self.state as u32 & (RIGHTMOST_BUTTON_PRESSED | FROM_LEFT_3RD_BUTTON_PRESSED
            | FROM_LEFT_4TH_BUTTON_PRESSED) != 0
    }

    /// Whether the middle button (the second from the left) is pressed.
    pub fn middle_button(&self) -> (r: bool)
        ensures
            r == any_bit(self@, FROM_LEFT_2ND_BUTTON_PRESSED),
    {
        self.state as u32 & FROM_LEFT_2ND_BUTTON_PRESSED != 0
    }

    /// Whether the wheel turned toward the user.
    pub fn scroll_down(&self) -> (r: bool)
        ensures
            r == (self@ < 0),
    {
        self.state < 0
    }

    /// Whether the wheel turned away from the user.
    pub fn scroll_up(&self) -> (r: bool)
        ensures
            r == (self@ > 0),
    {
        self.state > 0
    }

    /// The raw state.
    pub fn state(&self) -> (r: i32)
        ensures
            r == self@,
    {
        self.state
    }
}

/// The state of the control keys: a bitmask of the `*_PRESSED`, `*_ON` and
/// `ENHANCED_KEY` values.
#[derive(PartialEq, Debug, Copy, Clone, Eq, Structural)]
pub struct ControlKeyState(pub u32);

impl ControlKeyState {
    /// Whether any of the bits of `state` is set.
    pub fn has_state(&self, state: u32) -> (r: bool)
        ensures
            r == (state & self.0 != 0),
    {
        (state & self.0) != 0
    }
}

/// The kind of a mouse event.
#[derive(PartialEq, Debug, Copy, Clone, Eq, Structural)]
pub enum EventFlags {
    /// A button was pressed or released.
    PressOrRelease,
    /// The second click of a double-click occurred; the first click comes
    /// as a regular button press.
    DoubleClick,
    /// The horizontal mouse wheel was moved.
    MouseHwheeled,
    /// The mouse moved.
    MouseMoved,
    /// The vertical mouse wheel was moved.
    MouseWheeled,
    /// A value that is none of the above.
    Unknown,
}

/// The kind that a raw event-flags value decodes to: an exact match on
/// the five known codes, `Unknown` for any other value.
pub open spec fn event_flags_of(v: u32) -> EventFlags {
    if v == PRESS_OR_RELEASE {
        EventFlags::PressOrRelease
    } else if v == DOUBLE_CLICK {
        EventFlags::DoubleClick
    } else if v == MOUSE_HWHEELED {
        EventFlags::MouseHwheeled
    } else if v == MOUSE_MOVED {
        EventFlags::MouseMoved
    } else if v == MOUSE_WHEELED {
        EventFlags::MouseWheeled
    } else {
        EventFlags::Unknown
    }
}

impl From<u32> for EventFlags {
    fn from(event: u32) -> (r: EventFlags)
        ensures
            r == event_flags_of(event),
    {
        match event {
            PRESS_OR_RELEASE => EventFlags::PressOrRelease,
            DOUBLE_CLICK => EventFlags::DoubleClick,
            MOUSE_HWHEELED => EventFlags::MouseHwheeled,
            MOUSE_MOVED => EventFlags::MouseMoved,
            MOUSE_WHEELED => EventFlags::MouseWheeled,
            _ => EventFlags::Unknown,
        }
    }
}

impl vstd::std_specs::convert::FromSpecImpl<u32> for EventFlags {
    open spec fn obeys_from_spec() -> bool {
        true
    }

    open spec fn from_spec(v: u32) -> EventFlags {
        event_flags_of(v)
    }
}

/// Decoding the kind of a mouse event is total: every raw value gives
/// exactly one kind, each known code its own, and every other value
/// `Unknown`.
pub proof fn event_flags_decoding_is_total(v: u32)
    ensures
        (event_flags_of(v) == EventFlags::PressOrRelease) == (v == 0),
        (event_flags_of(v) == EventFlags::MouseMoved) == (v == 1),
        (event_flags_of(v) == EventFlags::DoubleClick) == (v == 2),
        (event_flags_of(v) == EventFlags::MouseWheeled) == (v == 4),
        (event_flags_of(v) == EventFlags::MouseHwheeled) == (v == 8),
        (event_flags_of(v) == EventFlags::Unknown) == (v != 0 && v != 1 && v != 2 && v != 4
            && v != 8),
{
}

/// A decoded button state is released exactly when its raw value is zero;
/// it never scrolls both ways, and when released it scrolls neither way.
pub proof fn button_state_release_and_scroll(v: u32)
    ensures
        (ButtonState::spec_from(v)@ == 0) == (v == 0),
        !(ButtonState::spec_from(v)@ < 0 && ButtonState::spec_from(v)@ > 0),
        v == 0 ==> !(ButtonState::spec_from(v)@ < 0) && !(ButtonState::spec_from(v)@ > 0),
{
    assert((v as i32 == 0) == (v == 0)) by (bit_vector);
}

} // verus!
