use vstd::prelude::*;

verus! {

// The numbers the host gives the keys of its keyboard. A key without a
// label of its own gets a number of 1000 or more from the host.

pub const KEY_ESCAPE: u64 = 0;
pub const KEY_BACKQUOTE: u64 = 1;
pub const KEY_DIGIT1: u64 = 2;
pub const KEY_DIGIT2: u64 = 3;
pub const KEY_DIGIT3: u64 = 4;
pub const KEY_DIGIT4: u64 = 5;
pub const KEY_DIGIT5: u64 = 6;
pub const KEY_DIGIT6: u64 = 7;
pub const KEY_DIGIT7: u64 = 8;
pub const KEY_DIGIT8: u64 = 9;
pub const KEY_DIGIT9: u64 = 10;
pub const KEY_DIGIT0: u64 = 11;
pub const KEY_MINUS: u64 = 12;
pub const KEY_EQUAL: u64 = 13;
pub const KEY_BACKSPACE: u64 = 14;
pub const KEY_TAB: u64 = 15;
pub const KEY_Q: u64 = 16;
pub const KEY_W: u64 = 17;
pub const KEY_E: u64 = 18;
pub const KEY_R: u64 = 19;
pub const KEY_T: u64 = 20;
pub const KEY_Y: u64 = 21;
pub const KEY_U: u64 = 22;
pub const KEY_I: u64 = 23;
pub const KEY_O: u64 = 24;
pub const KEY_P: u64 = 25;
pub const KEY_BRACKET_LEFT: u64 = 26;
pub const KEY_BRACKET_RIGHT: u64 = 27;
pub const KEY_BACKSLASH: u64 = 28;
pub const KEY_CAPS_LOCK: u64 = 29;
pub const KEY_A: u64 = 30;
pub const KEY_S: u64 = 31;
pub const KEY_D: u64 = 32;
pub const KEY_F: u64 = 33;
pub const KEY_G: u64 = 34;
pub const KEY_H: u64 = 35;
pub const KEY_J: u64 = 36;
pub const KEY_K: u64 = 37;
pub const KEY_L: u64 = 38;
pub const KEY_SEMICOLON: u64 = 39;
pub const KEY_QUOTE: u64 = 40;
pub const KEY_ENTER: u64 = 41;
pub const KEY_SHIFT_LEFT: u64 = 42;
pub const KEY_Z: u64 = 43;
pub const KEY_X: u64 = 44;
pub const KEY_C: u64 = 45;
pub const KEY_V: u64 = 46;
pub const KEY_B: u64 = 47;
pub const KEY_N: u64 = 48;
pub const KEY_M: u64 = 49;
pub const KEY_COMMA: u64 = 50;
pub const KEY_PERIOD: u64 = 51;
pub const KEY_SLASH: u64 = 52;
pub const KEY_SHIFT_RIGHT: u64 = 53;
pub const KEY_CONTROL_LEFT: u64 = 54;
pub const KEY_SUPER_LEFT: u64 = 55;
pub const KEY_ALT_LEFT: u64 = 56;
pub const KEY_SPACE: u64 = 57;
pub const KEY_META: u64 = 58;
pub const KEY_HYPER: u64 = 59;
pub const KEY_ALT_RIGHT: u64 = 60;
pub const KEY_SUPER_RIGHT: u64 = 61;
pub const KEY_CONTEXT_MENU: u64 = 62;
pub const KEY_CONTROL_RIGHT: u64 = 63;
pub const KEY_F1: u64 = 64;
pub const KEY_F2: u64 = 65;
pub const KEY_F3: u64 = 66;
pub const KEY_F4: u64 = 67;
pub const KEY_F5: u64 = 68;
pub const KEY_F6: u64 = 69;
pub const KEY_F7: u64 = 70;
pub const KEY_F8: u64 = 71;
pub const KEY_F9: u64 = 72;
pub const KEY_F10: u64 = 73;
pub const KEY_F11: u64 = 74;
pub const KEY_F12: u64 = 75;
pub const KEY_INSERT: u64 = 76;
pub const KEY_DELETE: u64 = 77;
pub const KEY_HOME: u64 = 78;
pub const KEY_END: u64 = 79;
pub const KEY_PAGE_UP: u64 = 80;
pub const KEY_PAGE_DOWN: u64 = 81;
pub const KEY_ARROW_UP: u64 = 82;
pub const KEY_ARROW_DOWN: u64 = 83;
pub const KEY_ARROW_LEFT: u64 = 84;
pub const KEY_ARROW_RIGHT: u64 = 85;
pub const KEY_NUM_LOCK: u64 = 86;
pub const KEY_NUMPAD_DIVIDE: u64 = 87;
pub const KEY_NUMPAD_MULTIPLY: u64 = 88;
pub const KEY_NUMPAD_SUBTRACT: u64 = 89;
pub const KEY_NUMPAD_ADD: u64 = 90;
pub const KEY_NUMPAD_ENTER: u64 = 91;
pub const KEY_NUMPAD1: u64 = 92;
pub const KEY_NUMPAD2: u64 = 93;
pub const KEY_NUMPAD3: u64 = 94;
pub const KEY_NUMPAD4: u64 = 95;
pub const KEY_NUMPAD5: u64 = 96;
pub const KEY_NUMPAD6: u64 = 97;
pub const KEY_NUMPAD7: u64 = 98;
pub const KEY_NUMPAD8: u64 = 99;
pub const KEY_NUMPAD9: u64 = 100;
pub const KEY_NUMPAD0: u64 = 101;
pub const KEY_NUMPAD_DECIMAL: u64 = 102;

/// The first number free for keys without a label of their own.
pub const FIRST_UNLABELLED_KEY: u64 = 1000;

/// The glyphs of the system's modifier keys.
#[derive(Debug, Copy, Clone, PartialEq, Eq, Structural)]
pub enum KeyGlyphs {
    Windows,
    Apple,
    Other,
}

/// The label shown for key `code`: its legend, `?` for a key without one.
pub open spec fn key_label_spec(code: u64, glyphs: KeyGlyphs) -> &'static str {
    match code {
        KEY_BACKQUOTE => "`",
        KEY_DIGIT1 => "1",
        KEY_DIGIT2 => "2",
        KEY_DIGIT3 => "3",
        KEY_DIGIT4 => "4",
        KEY_DIGIT5 => "5",
        KEY_DIGIT6 => "6",
        KEY_DIGIT7 => "7",
        KEY_DIGIT8 => "8",
        KEY_DIGIT9 => "9",
        KEY_DIGIT0 => "0",
        KEY_MINUS => "-",
        KEY_EQUAL => "=",
        KEY_BACKSPACE => "⌫",
        KEY_TAB => "⭾",
        KEY_Q => "Q",
        KEY_W => "W",
        KEY_E => "E",
        KEY_R => "R",
        KEY_T => "T",
        KEY_Y => "Y",
        KEY_U => "U",
        KEY_I => "I",
        KEY_O => "O",
        KEY_P => "P",
        KEY_BRACKET_LEFT => "[",
        KEY_BRACKET_RIGHT => "]",
        KEY_BACKSLASH => "\\",
        KEY_CAPS_LOCK => "⇪",
        KEY_A => "A",
        KEY_S => "S",
        KEY_D => "D",
        KEY_F => "F",
        KEY_G => "G",
        KEY_H => "H",
        KEY_J => "J",
        KEY_K => "K",
        KEY_L => "L",
        KEY_SEMICOLON => ";",
        KEY_QUOTE => "'",
        KEY_ENTER => "⏎",
        KEY_SHIFT_LEFT => "L⇧",
        KEY_Z => "Z",
        KEY_X => "X",
        KEY_C => "C",
        KEY_V => "V",
        KEY_B => "B",
        KEY_N => "N",
        KEY_M => "M",
        KEY_COMMA => ",",
        KEY_PERIOD => ".",
        KEY_SLASH => "/",
        KEY_SHIFT_RIGHT => "R⇧",
        KEY_CONTROL_LEFT => "L⌃",
        KEY_SUPER_LEFT => match glyphs {
            KeyGlyphs::Windows => "L⊞",
            KeyGlyphs::Apple => "L⌘",
            KeyGlyphs::Other => "L❖",
        },
        KEY_ALT_LEFT => match glyphs {
            KeyGlyphs::Windows => "L⎇",
            KeyGlyphs::Apple => "L⌥",
            KeyGlyphs::Other => "L⎇",
        },
        KEY_SPACE => "␣",
        KEY_META => match glyphs {
            KeyGlyphs::Windows => "⊞",
            KeyGlyphs::Apple => "⌘",
            KeyGlyphs::Other => "❖",
        },
        KEY_HYPER => match glyphs {
            KeyGlyphs::Windows => "⊞",
            KeyGlyphs::Apple => "⌘",
            KeyGlyphs::Other => "❖",
        },
        KEY_ALT_RIGHT => match glyphs {
            KeyGlyphs::Windows => "R⎇",
            KeyGlyphs::Apple => "R⌥",
            KeyGlyphs::Other => "R⎇",
        },
        KEY_SUPER_RIGHT => match glyphs {
            KeyGlyphs::Windows => "R⊞",
            KeyGlyphs::Apple => "R⌘",
            KeyGlyphs::Other => "R❖",
        },
        KEY_CONTEXT_MENU => "fn",
        KEY_CONTROL_RIGHT => "R⌃",
        KEY_F1 => "F1",
        KEY_F2 => "F2",
        KEY_F3 => "F3",
        KEY_F4 => "F4",
        KEY_F5 => "F5",
        KEY_F6 => "F6",
        KEY_F7 => "F7",
        KEY_F8 => "F8",
        KEY_F9 => "F9",
        KEY_F10 => "F10",
        KEY_F11 => "F11",
        KEY_F12 => "F12",
        KEY_INSERT => "⎀",
        KEY_DELETE => "⌦",
        KEY_HOME => "⇱",
        KEY_END => "⇲",
        KEY_PAGE_UP => "⇞",
        KEY_PAGE_DOWN => "⇟",
        KEY_ARROW_UP => "↑",
        KEY_ARROW_DOWN => "↓",
        KEY_ARROW_LEFT => "←",
        KEY_ARROW_RIGHT => "→",
        KEY_NUM_LOCK => "N🔒",
        KEY_NUMPAD_DIVIDE => "N/",
        KEY_NUMPAD_MULTIPLY => "N*",
        KEY_NUMPAD_SUBTRACT => "N-",
        KEY_NUMPAD_ADD => "N+",
        KEY_NUMPAD_ENTER => "N⏎",
        KEY_NUMPAD1 => "N1",
        KEY_NUMPAD2 => "N2",
        KEY_NUMPAD3 => "N3",
        KEY_NUMPAD4 => "N4",
        KEY_NUMPAD5 => "N5",
        KEY_NUMPAD6 => "N6",
        KEY_NUMPAD7 => "N7",
        KEY_NUMPAD8 => "N8",
        KEY_NUMPAD9 => "N9",
        KEY_NUMPAD0 => "N0",
        KEY_NUMPAD_DECIMAL => "N.",
        _ => "?",
    }
}

/// The label shown for key `code`: its legend, `?` for a key without one.
pub fn key_label(code: u64, glyphs: KeyGlyphs) -> (r: &'static str)
    ensures
        r@ == key_label_spec(code, glyphs)@,
{
    match code {
        KEY_BACKQUOTE => "`",
        KEY_DIGIT1 => "1",
        KEY_DIGIT2 => "2",
        KEY_DIGIT3 => "3",
        KEY_DIGIT4 => "4",
        KEY_DIGIT5 => "5",
        KEY_DIGIT6 => "6",
        KEY_DIGIT7 => "7",
        KEY_DIGIT8 => "8",
        KEY_DIGIT9 => "9",
        KEY_DIGIT0 => "0",
        KEY_MINUS => "-",
        KEY_EQUAL => "=",
        KEY_BACKSPACE => "⌫",
        KEY_TAB => "⭾",
        KEY_Q => "Q",
        KEY_W => "W",
        KEY_E => "E",
        KEY_R => "R",
        KEY_T => "T",
        KEY_Y => "Y",
        KEY_U => "U",
        KEY_I => "I",
        KEY_O => "O",
        KEY_P => "P",
        KEY_BRACKET_LEFT => "[",
        KEY_BRACKET_RIGHT => "]",
        KEY_BACKSLASH => "\\",
        KEY_CAPS_LOCK => "⇪",
        KEY_A => "A",
        KEY_S => "S",
        KEY_D => "D",
        KEY_F => "F",
        KEY_G => "G",
        KEY_H => "H",
        KEY_J => "J",
        KEY_K => "K",
        KEY_L => "L",
        KEY_SEMICOLON => ";",
        KEY_QUOTE => "'",
        KEY_ENTER => "⏎",
        KEY_SHIFT_LEFT => "L⇧",
        KEY_Z => "Z",
        KEY_X => "X",
        KEY_C => "C",
        KEY_V => "V",
        KEY_B => "B",
        KEY_N => "N",
        KEY_M => "M",
        KEY_COMMA => ",",
        KEY_PERIOD => ".",
        KEY_SLASH => "/",
        KEY_SHIFT_RIGHT => "R⇧",
        KEY_CONTROL_LEFT => "L⌃",
        KEY_SUPER_LEFT => match glyphs {
            KeyGlyphs::Windows => "L⊞",
            KeyGlyphs::Apple => "L⌘",
            KeyGlyphs::Other => "L❖",
        },
        KEY_ALT_LEFT => match glyphs {
            KeyGlyphs::Windows => "L⎇",
            KeyGlyphs::Apple => "L⌥",
            KeyGlyphs::Other => "L⎇",
        },
        KEY_SPACE => "␣",
        KEY_META => match glyphs {
            KeyGlyphs::Windows => "⊞",
            KeyGlyphs::Apple => "⌘",
            KeyGlyphs::Other => "❖",
        },
        KEY_HYPER => match glyphs {
            KeyGlyphs::Windows => "⊞",
            KeyGlyphs::Apple => "⌘",
            KeyGlyphs::Other => "❖",
        },
        KEY_ALT_RIGHT => match glyphs {
            KeyGlyphs::Windows => "R⎇",
            KeyGlyphs::Apple => "R⌥",
            KeyGlyphs::Other => "R⎇",
        },
        KEY_SUPER_RIGHT => match glyphs {
            KeyGlyphs::Windows => "R⊞",
            KeyGlyphs::Apple => "R⌘",
            KeyGlyphs::Other => "R❖",
        },
        KEY_CONTEXT_MENU => "fn",
        KEY_CONTROL_RIGHT => "R⌃",
        KEY_F1 => "F1",
        KEY_F2 => "F2",
        KEY_F3 => "F3",
        KEY_F4 => "F4",
        KEY_F5 => "F5",
        KEY_F6 => "F6",
        KEY_F7 => "F7",
        KEY_F8 => "F8",
        KEY_F9 => "F9",
        KEY_F10 => "F10",
        KEY_F11 => "F11",
        KEY_F12 => "F12",
        KEY_INSERT => "⎀",
        KEY_DELETE => "⌦",
        KEY_HOME => "⇱",
        KEY_END => "⇲",
        KEY_PAGE_UP => "⇞",
        KEY_PAGE_DOWN => "⇟",
        KEY_ARROW_UP => "↑",
        KEY_ARROW_DOWN => "↓",
        KEY_ARROW_LEFT => "←",
        KEY_ARROW_RIGHT => "→",
        KEY_NUM_LOCK => "N🔒",
        KEY_NUMPAD_DIVIDE => "N/",
        KEY_NUMPAD_MULTIPLY => "N*",
        KEY_NUMPAD_SUBTRACT => "N-",
        KEY_NUMPAD_ADD => "N+",
        KEY_NUMPAD_ENTER => "N⏎",
        KEY_NUMPAD1 => "N1",
        KEY_NUMPAD2 => "N2",
        KEY_NUMPAD3 => "N3",
        KEY_NUMPAD4 => "N4",
        KEY_NUMPAD5 => "N5",
        KEY_NUMPAD6 => "N6",
        KEY_NUMPAD7 => "N7",
        KEY_NUMPAD8 => "N8",
        KEY_NUMPAD9 => "N9",
        KEY_NUMPAD0 => "N0",
        KEY_NUMPAD_DECIMAL => "N.",
        _ => "?",
    }
}

} // verus!
