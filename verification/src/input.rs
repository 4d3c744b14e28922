//! Mapping of local keyboard, mouse and wheel input to the GameStream
//! input protocol, and the record of what is held on the host.
use vstd::prelude::*;

use std::collections::BTreeSet;

use crate::connection::{InputAction, KeyboardModifiers, MouseButton, spec_modifier_bits};

verus! {

pub const VK_BACK: u16 = 0x08;
pub const VK_TAB: u16 = 0x09;
pub const VK_RETURN: u16 = 0x0D;
pub const VK_ESCAPE: u16 = 0x1B;
pub const VK_SPACE: u16 = 0x20;
pub const VK_PRIOR: u16 = 0x21;
pub const VK_NEXT: u16 = 0x22;
pub const VK_END: u16 = 0x23;
pub const VK_HOME: u16 = 0x24;
pub const VK_LEFT: u16 = 0x25;
pub const VK_UP: u16 = 0x26;
pub const VK_RIGHT: u16 = 0x27;
pub const VK_DOWN: u16 = 0x28;
pub const VK_INSERT: u16 = 0x2D;
pub const VK_DELETE: u16 = 0x2E;
pub const VK_F1: u16 = 0x70;
pub const VK_OEM_1: u16 = 0xBA;
pub const VK_OEM_PLUS: u16 = 0xBB;
pub const VK_OEM_COMMA: u16 = 0xBC;
pub const VK_OEM_MINUS: u16 = 0xBD;
pub const VK_OEM_PERIOD: u16 = 0xBE;
pub const VK_OEM_2: u16 = 0xBF;
pub const VK_OEM_3: u16 = 0xC0;
pub const VK_OEM_4: u16 = 0xDB;
pub const VK_OEM_5: u16 = 0xDC;
pub const VK_OEM_6: u16 = 0xDD;
pub const VK_OEM_7: u16 = 0xDE;

/// Wheel units of one local wheel detent.
pub const LOCAL_WHEEL_UNITS: i64 = 32;

/// Wheel units of one Windows wheel detent.
pub const WINDOWS_WHEEL_UNITS: i64 = 120;

/// A key of the local keyboard.
#[derive(Clone, Copy, Debug, PartialEq, Eq, Structural)]
pub enum KeyCode {
    Unknown,
    Escape,
    Enter,
    Tab,
    Backspace,
    Space,
    Left,
    Right,
    Up,
    Down,
    Home,
    End,
    PageUp,
    PageDown,
    Insert,
    Delete,
    /// A function key, numbered from 1.
    F(u8),
    /// A key that types a character.
    Char(char),
}

/// Modifier keys held with a local key event.
#[derive(Clone, Copy, Debug, PartialEq, Eq, Structural)]
pub struct KeyModifiers {
    pub shift: bool,
    pub control: bool,
    pub alt: bool,
    pub super_key: bool,
}

/// A local key event.
#[derive(Clone, Copy, Debug, PartialEq, Eq, Structural)]
pub enum KeyEvent {
    Pressed { keycode: KeyCode, modifiers: KeyModifiers },
    Released { keycode: KeyCode, modifiers: KeyModifiers },
    /// A typed character, which carries no key transition.
    Char { character: char },
}

/// A button of the local mouse.
#[derive(Clone, Copy, Debug, PartialEq, Eq, Structural)]
pub enum PointerButton {
    Left,
    Middle,
    Right,
}

/// The Win32 virtual key of a typed character, with the US layout: letters
/// by their capital, digits and shifted digits by their digit, control
/// characters by their letter, punctuation by its OEM key.
pub open spec fn spec_char_to_vk(c: char) -> Option<u16> {
    if 'a' <= c <= 'z' {
        Some((c as int - 32) as u16)
    } else if ('A' <= c <= 'Z') || ('0' <= c <= '9') {
        Some(c as u16)
    } else if '\u{1}' <= c <= '\u{1a}' {
        Some((c as int - 1 + 0x41) as u16)
    } else if c == '\u{1b}' {
        Some(VK_OEM_4)
    } else if c == '\u{1c}' {
        Some(VK_OEM_5)
    } else if c == '\u{1d}' {
        Some(VK_OEM_6)
    } else if c == '\u{1f}' {
        Some(VK_OEM_MINUS)
    } else if c == '!' {
        Some(0x31)
    } else if c == '@' {
        Some(0x32)
    } else if c == '#' {
        Some(0x33)
    } else if c == '$' {
        Some(0x34)
    } else if c == '%' {
        Some(0x35)
    } else if c == '^' {
        Some(0x36)
    } else if c == '&' {
        Some(0x37)
    } else if c == '*' {
        Some(0x38)
    } else if c == '(' {
        Some(0x39)
    } else if c == ')' {
        Some(0x30)
    } else if c == ';' || c == ':' {
        Some(VK_OEM_1)
    } else if c == '=' || c == '+' {
        Some(VK_OEM_PLUS)
    } else if c == ',' || c == '<' {
        Some(VK_OEM_COMMA)
    } else if c == '-' || c == '_' {
        Some(VK_OEM_MINUS)
    } else if c == '.' || c == '>' {
        Some(VK_OEM_PERIOD)
    } else if c == '/' || c == '?' {
        Some(VK_OEM_2)
    } else if c == '`' || c == '~' {
        Some(VK_OEM_3)
    } else if c == '[' || c == '{' {
        Some(VK_OEM_4)
    } else if c == '\\' || c == '|' {
        Some(VK_OEM_5)
    } else if c == ']' || c == '}' {
        Some(VK_OEM_6)
    } else if c == '\'' || c == '"' {
        Some(VK_OEM_7)
    } else {
        None
    }
}

/// The Win32 virtual key of a typed character.
pub fn char_to_vk(c: char) -> (res: Option<u16>)
    ensures
        res == spec_char_to_vk(c),
{
    if 'a' <= c && c <= 'z' {
        Some((c as u32 - 32) as u16)
    } else if ('A' <= c && c <= 'Z') || ('0' <= c && c <= '9') {
        Some(c as u32 as u16)
    } else if '\u{1}' <= c && c <= '\u{1a}' {
        Some((c as u32 - 1 + 0x41) as u16)
    } else if c == '\u{1b}' {
        Some(VK_OEM_4)
    } else if c == '\u{1c}' {
        Some(VK_OEM_5)
    } else if c == '\u{1d}' {
        Some(VK_OEM_6)
    } else if c == '\u{1f}' {
        Some(VK_OEM_MINUS)
    } else if c == '!' {
        Some(0x31)
    } else if c == '@' {
        Some(0x32)
    } else if c == '#' {
        Some(0x33)
    } else if c == '$' {
        Some(0x34)
    } else if c == '%' {
        Some(0x35)
    } else if c == '^' {
        Some(0x36)
    } else if c == '&' {
        Some(0x37)
    } else if c == '*' {
        Some(0x38)
    } else if c == '(' {
        Some(0x39)
    } else if c == ')' {
        Some(0x30)
    } else if c == ';' || c == ':' {
        Some(VK_OEM_1)
    } else if c == '=' || c == '+' {
        Some(VK_OEM_PLUS)
    } else if c == ',' || c == '<' {
        Some(VK_OEM_COMMA)
    } else if c == '-' || c == '_' {
        Some(VK_OEM_MINUS)
    } else if c == '.' || c == '>' {
        Some(VK_OEM_PERIOD)
    } else if c == '/' || c == '?' {
        Some(VK_OEM_2)
    } else if c == '`' || c == '~' {
        Some(VK_OEM_3)
    } else if c == '[' || c == '{' {
        Some(VK_OEM_4)
    } else if c == '\\' || c == '|' {
        Some(VK_OEM_5)
    } else if c == ']' || c == '}' {
        Some(VK_OEM_6)
    } else if c == '\'' || c == '"' {
        Some(VK_OEM_7)
    } else {
        None
    }
}

/// The character keys of the US keyboard layout, as the Win32 documentation
/// names their virtual keys: each entry is the character a key types, the
/// character it types with Shift, and the key's virtual key (`0x30` to
/// `0x39` for the digit row, the `VK_OEM_*` keys for punctuation).
pub open spec fn spec_us_character_keys() -> Seq<(char, char, u16)> {
    seq![
        ('0', ')', 0x30),
        ('1', '!', 0x31),
        ('2', '@', 0x32),
        ('3', '#', 0x33),
        ('4', '$', 0x34),
        ('5', '%', 0x35),
        ('6', '^', 0x36),
        ('7', '&', 0x37),
        ('8', '*', 0x38),
        ('9', '(', 0x39),
        (';', ':', 0xBA),
        ('=', '+', 0xBB),
        (',', '<', 0xBC),
        ('-', '_', 0xBD),
        ('.', '>', 0xBE),
        ('/', '?', 0xBF),
        ('`', '~', 0xC0),
        ('[', '{', 0xDB),
        ('\\', '|', 0xDC),
        (']', '}', 0xDD),
        ('\'', '"', 0xDE)
    ]
}

/// The position in [`spec_us_character_keys`] of the key with virtual key
/// `vk`, read from the key code ranges.
spec fn spec_us_key_position(vk: u16) -> int {
    if 0x30 <= vk <= 0x39 {
        vk - 0x30
    } else if 0xBA <= vk <= 0xC0 {
        vk - 0xBA + 10
    } else if 0xDB <= vk <= 0xDE {
        vk - 0xDB + 17
    } else {
        -1
    }
}

proof fn lemma_us_character_key(i: int)
    requires
        0 <= i < spec_us_character_keys().len(),
    ensures
        spec_char_to_vk(spec_us_character_keys()[i].0) == Some(spec_us_character_keys()[i].2),
        spec_char_to_vk(spec_us_character_keys()[i].1) == Some(spec_us_character_keys()[i].2),
        spec_us_key_position(spec_us_character_keys()[i].2) == i,
{
    let keys = spec_us_character_keys();
    assert(keys.len() == 21);
    if i == 0 {
    } else if i == 1 {
    } else if i == 2 {
    } else if i == 3 {
    } else if i == 4 {
    } else if i == 5 {
    } else if i == 6 {
    } else if i == 7 {
    } else if i == 8 {
    } else if i == 9 {
    } else if i == 10 {
    } else if i == 11 {
    } else if i == 12 {
    } else if i == 13 {
    } else if i == 14 {
    } else if i == 15 {
    } else if i == 16 {
    } else if i == 17 {
    } else if i == 18 {
    } else if i == 19 {
    } else if i == 20 {
    }
}

/// A law of key mapping: the two characters of each US-layout key (with
/// and without Shift) map to that key's virtual key, as typed characters
/// and as key codes.
pub proof fn law_us_characters_map_to_their_keys(i: int)
    requires
        0 <= i < spec_us_character_keys().len(),
    ensures
        spec_char_to_vk(spec_us_character_keys()[i].0) == Some(spec_us_character_keys()[i].2),
        spec_char_to_vk(spec_us_character_keys()[i].1) == Some(spec_us_character_keys()[i].2),
        spec_keycode_to_vk(KeyCode::Char(spec_us_character_keys()[i].0)) == Some(
            spec_us_character_keys()[i].2,
        ),
        spec_keycode_to_vk(KeyCode::Char(spec_us_character_keys()[i].1)) == Some(
            spec_us_character_keys()[i].2,
        ),
{
    lemma_us_character_key(i);
}

/// A law of key mapping: characters typed on different US-layout keys map
/// to different virtual keys, with or without Shift.
pub proof fn law_distinct_keys_get_distinct_virtual_keys(i: int, j: int, shifted_i: bool, shifted_j: bool)
    requires
        0 <= i < spec_us_character_keys().len(),
        0 <= j < spec_us_character_keys().len(),
        i != j,
    ensures
        spec_char_to_vk(
            if shifted_i {
                spec_us_character_keys()[i].1
            } else {
                spec_us_character_keys()[i].0
            },
        ) != spec_char_to_vk(
            if shifted_j {
                spec_us_character_keys()[j].1
            } else {
                spec_us_character_keys()[j].0
            },
        ),
{
    lemma_us_character_key(i);
    lemma_us_character_key(j);
}

/// A law of key mapping: a letter maps to the virtual key of its capital,
/// `0x41` (`A`) to `0x5A` (`Z`) in alphabetical order, whether typed in
/// lower or upper case.
pub proof fn law_letters_map_to_their_capitals(k: int)
    requires
        0 <= k < 26,
    ensures
        spec_char_to_vk(('a' as int + k) as char) == Some((0x41 + k) as u16),
        spec_char_to_vk(('A' as int + k) as char) == Some((0x41 + k) as u16),
{
}

/// The Win32 virtual key of a local key: function keys 1 to 24 from `F1`
/// on, typed characters as [`spec_char_to_vk`] maps them.
pub open spec fn spec_keycode_to_vk(keycode: KeyCode) -> Option<u16> {
    match keycode {
        KeyCode::Unknown => None,
        KeyCode::Escape => Some(VK_ESCAPE),
        KeyCode::Enter => Some(VK_RETURN),
        KeyCode::Tab => Some(VK_TAB),
        KeyCode::Backspace => Some(VK_BACK),
        KeyCode::Space => Some(VK_SPACE),
        KeyCode::Left => Some(VK_LEFT),
        KeyCode::Right => Some(VK_RIGHT),
        KeyCode::Up => Some(VK_UP),
        KeyCode::Down => Some(VK_DOWN),
        KeyCode::Home => Some(VK_HOME),
        KeyCode::End => Some(VK_END),
        KeyCode::PageUp => Some(VK_PRIOR),
        KeyCode::PageDown => Some(VK_NEXT),
        KeyCode::Insert => Some(VK_INSERT),
        KeyCode::Delete => Some(VK_DELETE),
        KeyCode::F(n) => if 1 <= n <= 24 {
            Some((VK_F1 + n - 1) as u16)
        } else {
            None
        },
        KeyCode::Char(c) => spec_char_to_vk(c),
    }
}

/// The Win32 virtual key of a local key.
pub fn keycode_to_vk(keycode: KeyCode) -> (res: Option<u16>)
    ensures
        res == spec_keycode_to_vk(keycode),
{
    match keycode {
        KeyCode::Unknown => None,
        KeyCode::Escape => Some(VK_ESCAPE),
        KeyCode::Enter => Some(VK_RETURN),
        KeyCode::Tab => Some(VK_TAB),
        KeyCode::Backspace => Some(VK_BACK),
        KeyCode::Space => Some(VK_SPACE),
        KeyCode::Left => Some(VK_LEFT),
        KeyCode::Right => Some(VK_RIGHT),
        KeyCode::Up => Some(VK_UP),
        KeyCode::Down => Some(VK_DOWN),
        KeyCode::Home => Some(VK_HOME),
        KeyCode::End => Some(VK_END),
        KeyCode::PageUp => Some(VK_PRIOR),
        KeyCode::PageDown => Some(VK_NEXT),
        KeyCode::Insert => Some(VK_INSERT),
        KeyCode::Delete => Some(VK_DELETE),
        KeyCode::F(n) => if 1 <= n && n <= 24 {
            Some(VK_F1 + (n as u16) - 1)
        } else {
            None
        },
        KeyCode::Char(c) => char_to_vk(c),
    }
}

/// The remote modifier flags for local modifiers (Super is Meta).
pub fn remote_modifiers(modifiers: KeyModifiers) -> (res: KeyboardModifiers)
    ensures
        res@ == spec_modifier_bits(modifiers.shift, modifiers.control, modifiers.alt, modifiers.super_key),
{
    KeyboardModifiers::new(modifiers.shift, modifiers.control, modifiers.alt, modifiers.super_key)
}

/// Whether the modifiers are those of the client's shortcuts:
/// Ctrl+Alt+Shift.
pub fn shortcut_modifiers(modifiers: KeyModifiers) -> (res: bool)
    ensures
        res == (modifiers.shift && modifiers.control && modifiers.alt),
{
    modifiers.shift && modifiers.control && modifiers.alt
}

/// The remote button for a local one.
pub fn remote_mouse_button(button: PointerButton) -> (res: MouseButton)
    ensures
        res == match button {
            PointerButton::Left => MouseButton::Left,
            PointerButton::Middle => MouseButton::Middle,
            PointerButton::Right => MouseButton::Right,
        },
{
    match button {
        PointerButton::Left => MouseButton::Left,
        PointerButton::Middle => MouseButton::Middle,
        PointerButton::Right => MouseButton::Right,
    }
}

/// The bit that records a held local button.
pub open spec fn spec_button_bit(button: PointerButton) -> u8 {
    match button {
        PointerButton::Left => 0x01,
        PointerButton::Middle => 0x02,
        PointerButton::Right => 0x04,
    }
}

/// The bit that records a held local button.
pub fn mouse_button_bit(button: PointerButton) -> (res: u8)
    ensures
        res == spec_button_bit(button),
{
    match button {
        PointerButton::Left => 0x01,
        PointerButton::Middle => 0x02,
        PointerButton::Right => 0x04,
    }
}

/// `value` clamped to the range of an `i16`.
pub open spec fn spec_clamp_i16(value: int) -> i16 {
    if value < i16::MIN {
        i16::MIN
    } else if value > i16::MAX {
        i16::MAX
    } else {
        value as i16
    }
}

/// Relative mouse motion clamped to what one packet carries.
pub fn clamp_i16(value: i32) -> (res: i16)
    ensures
        res == spec_clamp_i16(value as int),
{
    if value < -32768 {
        -32768
    } else if value > 32767 {
        32767
    } else {
        value as i16
    }
}

/// Local wheel units in Windows units, rounded to the nearest unit (halves
/// away from zero) and clamped to an `i16`.
pub open spec fn spec_wheel_units(value: int) -> i16 {
    let scaled: int = value * 120;
    let rounded: int = if scaled >= 0 {
        (scaled + 16) / 32
    } else {
        -((-scaled + 16) / 32)
    };
    spec_clamp_i16(rounded)
}

/// Local wheel units in Windows units, where one detent is 120.
pub fn wheel_units(value: i32) -> (res: i16)
    ensures
        res == spec_wheel_units(value as int),
{
    let scaled: i64 = (value as i64) * WINDOWS_WHEEL_UNITS;
    let rounded: i64 = if scaled >= 0 {
        (scaled + LOCAL_WHEEL_UNITS / 2) / LOCAL_WHEEL_UNITS
    } else {
        -((-scaled + LOCAL_WHEEL_UNITS / 2) / LOCAL_WHEEL_UNITS)
    };
    if rounded < -32768 {
        -32768
    } else if rounded > 32767 {
        32767
    } else {
        rounded as i16
    }
}

/// An `i16` negated, with the most negative value going to the largest.
pub open spec fn spec_saturating_neg(v: i16) -> i16 {
    if v == i16::MIN {
        i16::MAX
    } else {
        (-v) as i16
    }
}

/// The remote scroll amounts for a local wheel motion: horizontal, then
/// vertical, whose direction is reversed.
pub fn wheel_scroll(delta_x: i32, delta_y: i32) -> (res: (i16, i16))
    ensures
        res.0 == spec_wheel_units(delta_x as int),
        res.1 == spec_saturating_neg(spec_wheel_units(delta_y as int)),
{
    let horizontal = wheel_units(delta_x);
    let vertical_units = wheel_units(delta_y);
    let vertical = if vertical_units == -32768 {
        32767
    } else {
        -vertical_units
    };
    (horizontal, vertical)
}

/// The remote key transition for a local key event: its virtual key, the
/// action and the modifiers; none for typed characters and unmapped keys.
pub fn key_transition(event: KeyEvent) -> (res: Option<(u16, InputAction, KeyboardModifiers)>)
    ensures
        match event {
            KeyEvent::Pressed { keycode, modifiers } => match spec_keycode_to_vk(keycode) {
                Some(vk) => res matches Some((v, a, m)) && v == vk && a == InputAction::Press && m@
                    == spec_modifier_bits(modifiers.shift, modifiers.control, modifiers.alt, modifiers.super_key),
                None => res is None,
            },
            KeyEvent::Released { keycode, modifiers } => match spec_keycode_to_vk(keycode) {
                Some(vk) => res matches Some((v, a, m)) && v == vk && a == InputAction::Release && m@
                    == spec_modifier_bits(modifiers.shift, modifiers.control, modifiers.alt, modifiers.super_key),
                None => res is None,
            },
            KeyEvent::Char { .. } => res is None,
        },
{
    let (keycode, modifiers, action) = match event {
        KeyEvent::Pressed { keycode, modifiers } => (keycode, modifiers, InputAction::Press),
        KeyEvent::Released { keycode, modifiers } => (keycode, modifiers, InputAction::Release),
        KeyEvent::Char { .. } => return None,
    };
    match keycode_to_vk(keycode) {
        Some(vk) => Some((vk, action, remote_modifiers(modifiers))),
        None => None,
    }
}

} // verus!
