use console_input::flags;
use console_input::raw;
use windows::Win32::System::Console as win;

#[test]
fn discriminants_match_win32() {
    assert_eq!(raw::KEY_EVENT as u32, win::KEY_EVENT);
    assert_eq!(raw::MOUSE_EVENT as u32, win::MOUSE_EVENT);
    assert_eq!(raw::WINDOW_BUFFER_SIZE_EVENT as u32, win::WINDOW_BUFFER_SIZE_EVENT);
    assert_eq!(raw::MENU_EVENT as u32, win::MENU_EVENT);
    assert_eq!(raw::FOCUS_EVENT as u32, win::FOCUS_EVENT);
}

#[test]
fn button_bits_match_win32() {
    assert_eq!(flags::FROM_LEFT_1ST_BUTTON_PRESSED, win::FROM_LEFT_1ST_BUTTON_PRESSED);
    assert_eq!(flags::RIGHTMOST_BUTTON_PRESSED, win::RIGHTMOST_BUTTON_PRESSED);
    assert_eq!(flags::FROM_LEFT_2ND_BUTTON_PRESSED, win::FROM_LEFT_2ND_BUTTON_PRESSED);
    assert_eq!(flags::FROM_LEFT_3RD_BUTTON_PRESSED, win::FROM_LEFT_3RD_BUTTON_PRESSED);
    assert_eq!(flags::FROM_LEFT_4TH_BUTTON_PRESSED, win::FROM_LEFT_4TH_BUTTON_PRESSED);
}

#[test]
fn control_key_bits_match_win32() {
    assert_eq!(flags::RIGHT_ALT_PRESSED, win::RIGHT_ALT_PRESSED);
    assert_eq!(flags::LEFT_ALT_PRESSED, win::LEFT_ALT_PRESSED);
    assert_eq!(flags::RIGHT_CTRL_PRESSED, win::RIGHT_CTRL_PRESSED);
    assert_eq!(flags::LEFT_CTRL_PRESSED, win::LEFT_CTRL_PRESSED);
    assert_eq!(flags::SHIFT_PRESSED, win::SHIFT_PRESSED);
    assert_eq!(flags::NUMLOCK_ON, win::NUMLOCK_ON);
    assert_eq!(flags::SCROLLLOCK_ON, win::SCROLLLOCK_ON);
    assert_eq!(flags::CAPSLOCK_ON, win::CAPSLOCK_ON);
    assert_eq!(flags::ENHANCED_KEY, win::ENHANCED_KEY);
}

#[test]
fn event_flag_codes_match_win32() {
    assert_eq!(flags::MOUSE_MOVED, win::MOUSE_MOVED);
    assert_eq!(flags::DOUBLE_CLICK, win::DOUBLE_CLICK);
    assert_eq!(flags::MOUSE_WHEELED, win::MOUSE_WHEELED);
    assert_eq!(flags::MOUSE_HWHEELED, win::MOUSE_HWHEELED);
}

#[test]
fn payload_is_as_large_as_the_win32_union() {
    assert_eq!(std::mem::size_of::<win::INPUT_RECORD_0>(), raw::PAYLOAD_LEN);
}
