//! The closed set of physical keys an accelerator can name.
//!
//! Each key has one canonical token (the text that `render` emits and that
//! the human-readable shortcut format uses), recognized case-insensitively
//! by the parser, and one virtual-key code for the native accelerator table.

use vstd::prelude::*;

verus! {

/// A key from the standard physical-key enumeration that the accelerator
/// codec supports: the letters, the digits, the function keys, and the
/// editing keys that commonly carry menu shortcuts.
#[derive(Clone, Copy, Debug, PartialEq, Eq, Structural)]
pub enum KeyCode {
    KeyA,
    KeyB,
    KeyC,
    KeyD,
    KeyE,
    KeyF,
    KeyG,
    KeyH,
    KeyI,
    KeyJ,
    KeyK,
    KeyL,
    KeyM,
    KeyN,
    KeyO,
    KeyP,
    KeyQ,
    KeyR,
    KeyS,
    KeyT,
    KeyU,
    KeyV,
    KeyW,
    KeyX,
    KeyY,
    KeyZ,
    Digit0,
    Digit1,
    Digit2,
    Digit3,
    Digit4,
    Digit5,
    Digit6,
    Digit7,
    Digit8,
    Digit9,
    F1,
    F2,
    F3,
    F4,
    F5,
    F6,
    F7,
    F8,
    F9,
    F10,
    F11,
    F12,
    Space,
    Enter,
    Tab,
    Escape,
    Delete,
    Backspace,
}

/// The upper-case form of an ASCII letter; any other character is itself.
pub open spec fn spec_upper_char(c: char) -> char {
    match c {
        'a' => 'A',
        'b' => 'B',
        'c' => 'C',
        'd' => 'D',
        'e' => 'E',
        'f' => 'F',
        'g' => 'G',
        'h' => 'H',
        'i' => 'I',
        'j' => 'J',
        'k' => 'K',
        'l' => 'L',
        'm' => 'M',
        'n' => 'N',
        'o' => 'O',
        'p' => 'P',
        'q' => 'Q',
        'r' => 'R',
        's' => 'S',
        't' => 'T',
        'u' => 'U',
        'v' => 'V',
        'w' => 'W',
        'x' => 'X',
        'y' => 'Y',
        'z' => 'Z',
        _ => c,
    }
}

/// Folds an ASCII letter to upper case, so that tokens match
/// case-insensitively.
pub fn upper_char(c: char) -> (r: char)
    ensures
        r == spec_upper_char(c),
{
    match c {
        'a' => 'A',
        'b' => 'B',
        'c' => 'C',
        'd' => 'D',
        'e' => 'E',
        'f' => 'F',
        'g' => 'G',
        'h' => 'H',
        'i' => 'I',
        'j' => 'J',
        'k' => 'K',
        'l' => 'L',
        'm' => 'M',
        'n' => 'N',
        'o' => 'O',
        'p' => 'P',
        'q' => 'Q',
        'r' => 'R',
        's' => 'S',
        't' => 'T',
        'u' => 'U',
        'v' => 'V',
        'w' => 'W',
        'x' => 'X',
        'y' => 'Y',
        'z' => 'Z',
        _ => c,
    }
}

impl KeyCode {
    /// The canonical token for this key in the textual shortcut format.
    pub open spec fn spec_name(self) -> Seq<char> {
        match self {
        KeyCode::KeyA => "A"@,
        KeyCode::KeyB => "B"@,
        KeyCode::KeyC => "C"@,
        KeyCode::KeyD => "D"@,
        KeyCode::KeyE => "E"@,
        KeyCode::KeyF => "F"@,
        KeyCode::KeyG => "G"@,
        KeyCode::KeyH => "H"@,
        KeyCode::KeyI => "I"@,
        KeyCode::KeyJ => "J"@,
        KeyCode::KeyK => "K"@,
        KeyCode::KeyL => "L"@,
        KeyCode::KeyM => "M"@,
        KeyCode::KeyN => "N"@,
        KeyCode::KeyO => "O"@,
        KeyCode::KeyP => "P"@,
        KeyCode::KeyQ => "Q"@,
        KeyCode::KeyR => "R"@,
        KeyCode::KeyS => "S"@,
        KeyCode::KeyT => "T"@,
        KeyCode::KeyU => "U"@,
        KeyCode::KeyV => "V"@,
        KeyCode::KeyW => "W"@,
        KeyCode::KeyX => "X"@,
        KeyCode::KeyY => "Y"@,
        KeyCode::KeyZ => "Z"@,
        KeyCode::Digit0 => "0"@,
        KeyCode::Digit1 => "1"@,
        KeyCode::Digit2 => "2"@,
        KeyCode::Digit3 => "3"@,
        KeyCode::Digit4 => "4"@,
        KeyCode::Digit5 => "5"@,
        KeyCode::Digit6 => "6"@,
        KeyCode::Digit7 => "7"@,
        KeyCode::Digit8 => "8"@,
        KeyCode::Digit9 => "9"@,
        KeyCode::F1 => "F1"@,
        KeyCode::F2 => "F2"@,
        KeyCode::F3 => "F3"@,
        KeyCode::F4 => "F4"@,
        KeyCode::F5 => "F5"@,
        KeyCode::F6 => "F6"@,
        KeyCode::F7 => "F7"@,
        KeyCode::F8 => "F8"@,
        KeyCode::F9 => "F9"@,
        KeyCode::F10 => "F10"@,
        KeyCode::F11 => "F11"@,
        KeyCode::F12 => "F12"@,
        KeyCode::Space => "Space"@,
        KeyCode::Enter => "Enter"@,
        KeyCode::Tab => "Tab"@,
        KeyCode::Escape => "Escape"@,
        KeyCode::Delete => "Delete"@,
        KeyCode::Backspace => "Backspace"@,
        }
    }

    /// Returns the canonical token for this key, e.g. `"S"` or `"Enter"`.
    pub fn name(&self) -> (r: &'static str)
        ensures
            r@ == self.spec_name(),
    {
        match self {
        KeyCode::KeyA => "A",
        KeyCode::KeyB => "B",
        KeyCode::KeyC => "C",
        KeyCode::KeyD => "D",
        KeyCode::KeyE => "E",
        KeyCode::KeyF => "F",
        KeyCode::KeyG => "G",
        KeyCode::KeyH => "H",
        KeyCode::KeyI => "I",
        KeyCode::KeyJ => "J",
        KeyCode::KeyK => "K",
        KeyCode::KeyL => "L",
        KeyCode::KeyM => "M",
        KeyCode::KeyN => "N",
        KeyCode::KeyO => "O",
        KeyCode::KeyP => "P",
        KeyCode::KeyQ => "Q",
        KeyCode::KeyR => "R",
        KeyCode::KeyS => "S",
        KeyCode::KeyT => "T",
        KeyCode::KeyU => "U",
        KeyCode::KeyV => "V",
        KeyCode::KeyW => "W",
        KeyCode::KeyX => "X",
        KeyCode::KeyY => "Y",
        KeyCode::KeyZ => "Z",
        KeyCode::Digit0 => "0",
        KeyCode::Digit1 => "1",
        KeyCode::Digit2 => "2",
        KeyCode::Digit3 => "3",
        KeyCode::Digit4 => "4",
        KeyCode::Digit5 => "5",
        KeyCode::Digit6 => "6",
        KeyCode::Digit7 => "7",
        KeyCode::Digit8 => "8",
        KeyCode::Digit9 => "9",
        KeyCode::F1 => "F1",
        KeyCode::F2 => "F2",
        KeyCode::F3 => "F3",
        KeyCode::F4 => "F4",
        KeyCode::F5 => "F5",
        KeyCode::F6 => "F6",
        KeyCode::F7 => "F7",
        KeyCode::F8 => "F8",
        KeyCode::F9 => "F9",
        KeyCode::F10 => "F10",
        KeyCode::F11 => "F11",
        KeyCode::F12 => "F12",
        KeyCode::Space => "Space",
        KeyCode::Enter => "Enter",
        KeyCode::Tab => "Tab",
        KeyCode::Escape => "Escape",
        KeyCode::Delete => "Delete",
        KeyCode::Backspace => "Backspace",
        }
    }

    /// The virtual-key code registered for this key in a native
    /// accelerator-table entry.
    pub open spec fn spec_virtual_key(self) -> u16 {
        match self {
        KeyCode::KeyA => 0x41,
        KeyCode::KeyB => 0x42,
        KeyCode::KeyC => 0x43,
        KeyCode::KeyD => 0x44,
        KeyCode::KeyE => 0x45,
        KeyCode::KeyF => 0x46,
        KeyCode::KeyG => 0x47,
        KeyCode::KeyH => 0x48,
        KeyCode::KeyI => 0x49,
        KeyCode::KeyJ => 0x4a,
        KeyCode::KeyK => 0x4b,
        KeyCode::KeyL => 0x4c,
        KeyCode::KeyM => 0x4d,
        KeyCode::KeyN => 0x4e,
        KeyCode::KeyO => 0x4f,
        KeyCode::KeyP => 0x50,
        KeyCode::KeyQ => 0x51,
        KeyCode::KeyR => 0x52,
        KeyCode::KeyS => 0x53,
        KeyCode::KeyT => 0x54,
        KeyCode::KeyU => 0x55,
        KeyCode::KeyV => 0x56,
        KeyCode::KeyW => 0x57,
        KeyCode::KeyX => 0x58,
        KeyCode::KeyY => 0x59,
        KeyCode::KeyZ => 0x5a,
        KeyCode::Digit0 => 0x30,
        KeyCode::Digit1 => 0x31,
        KeyCode::Digit2 => 0x32,
        KeyCode::Digit3 => 0x33,
        KeyCode::Digit4 => 0x34,
        KeyCode::Digit5 => 0x35,
        KeyCode::Digit6 => 0x36,
        KeyCode::Digit7 => 0x37,
        KeyCode::Digit8 => 0x38,
        KeyCode::Digit9 => 0x39,
        KeyCode::F1 => 0x70,
        KeyCode::F2 => 0x71,
        KeyCode::F3 => 0x72,
        KeyCode::F4 => 0x73,
        KeyCode::F5 => 0x74,
        KeyCode::F6 => 0x75,
        KeyCode::F7 => 0x76,
        KeyCode::F8 => 0x77,
        KeyCode::F9 => 0x78,
        KeyCode::F10 => 0x79,
        KeyCode::F11 => 0x7a,
        KeyCode::F12 => 0x7b,
        KeyCode::Space => 0x20,
        KeyCode::Enter => 0x0d,
        KeyCode::Tab => 0x09,
        KeyCode::Escape => 0x1b,
        KeyCode::Delete => 0x2e,
        KeyCode::Backspace => 0x08,
        }
    }

    /// Returns the virtual-key code for this key.
    pub fn virtual_key(&self) -> (r: u16)
        ensures
            r == self.spec_virtual_key(),
    {
        match self {
        KeyCode::KeyA => 0x41,
        KeyCode::KeyB => 0x42,
        KeyCode::KeyC => 0x43,
        KeyCode::KeyD => 0x44,
        KeyCode::KeyE => 0x45,
        KeyCode::KeyF => 0x46,
        KeyCode::KeyG => 0x47,
        KeyCode::KeyH => 0x48,
        KeyCode::KeyI => 0x49,
        KeyCode::KeyJ => 0x4a,
        KeyCode::KeyK => 0x4b,
        KeyCode::KeyL => 0x4c,
        KeyCode::KeyM => 0x4d,
        KeyCode::KeyN => 0x4e,
        KeyCode::KeyO => 0x4f,
        KeyCode::KeyP => 0x50,
        KeyCode::KeyQ => 0x51,
        KeyCode::KeyR => 0x52,
        KeyCode::KeyS => 0x53,
        KeyCode::KeyT => 0x54,
        KeyCode::KeyU => 0x55,
        KeyCode::KeyV => 0x56,
        KeyCode::KeyW => 0x57,
        KeyCode::KeyX => 0x58,
        KeyCode::KeyY => 0x59,
        KeyCode::KeyZ => 0x5a,
        KeyCode::Digit0 => 0x30,
        KeyCode::Digit1 => 0x31,
        KeyCode::Digit2 => 0x32,
        KeyCode::Digit3 => 0x33,
        KeyCode::Digit4 => 0x34,
        KeyCode::Digit5 => 0x35,
        KeyCode::Digit6 => 0x36,
        KeyCode::Digit7 => 0x37,
        KeyCode::Digit8 => 0x38,
        KeyCode::Digit9 => 0x39,
        KeyCode::F1 => 0x70,
        KeyCode::F2 => 0x71,
        KeyCode::F3 => 0x72,
        KeyCode::F4 => 0x73,
        KeyCode::F5 => 0x74,
        KeyCode::F6 => 0x75,
        KeyCode::F7 => 0x76,
        KeyCode::F8 => 0x77,
        KeyCode::F9 => 0x78,
        KeyCode::F10 => 0x79,
        KeyCode::F11 => 0x7a,
        KeyCode::F12 => 0x7b,
        KeyCode::Space => 0x20,
        KeyCode::Enter => 0x0d,
        KeyCode::Tab => 0x09,
        KeyCode::Escape => 0x1b,
        KeyCode::Delete => 0x2e,
        KeyCode::Backspace => 0x08,
        }
    }
}

/// The key named by a single upper-case character, if any.
pub open spec fn spec_key_of_char(c: char) -> Option<KeyCode> {
    match c {
        'A' => Some(KeyCode::KeyA),
        'B' => Some(KeyCode::KeyB),
        'C' => Some(KeyCode::KeyC),
        'D' => Some(KeyCode::KeyD),
        'E' => Some(KeyCode::KeyE),
        'F' => Some(KeyCode::KeyF),
        'G' => Some(KeyCode::KeyG),
        'H' => Some(KeyCode::KeyH),
        'I' => Some(KeyCode::KeyI),
        'J' => Some(KeyCode::KeyJ),
        'K' => Some(KeyCode::KeyK),
        'L' => Some(KeyCode::KeyL),
        'M' => Some(KeyCode::KeyM),
        'N' => Some(KeyCode::KeyN),
        'O' => Some(KeyCode::KeyO),
        'P' => Some(KeyCode::KeyP),
        'Q' => Some(KeyCode::KeyQ),
        'R' => Some(KeyCode::KeyR),
        'S' => Some(KeyCode::KeyS),
        'T' => Some(KeyCode::KeyT),
        'U' => Some(KeyCode::KeyU),
        'V' => Some(KeyCode::KeyV),
        'W' => Some(KeyCode::KeyW),
        'X' => Some(KeyCode::KeyX),
        'Y' => Some(KeyCode::KeyY),
        'Z' => Some(KeyCode::KeyZ),
        '0' => Some(KeyCode::Digit0),
        '1' => Some(KeyCode::Digit1),
        '2' => Some(KeyCode::Digit2),
        '3' => Some(KeyCode::Digit3),
        '4' => Some(KeyCode::Digit4),
        '5' => Some(KeyCode::Digit5),
        '6' => Some(KeyCode::Digit6),
        '7' => Some(KeyCode::Digit7),
        '8' => Some(KeyCode::Digit8),
        '9' => Some(KeyCode::Digit9),
        _ => None,
    }
}

fn key_of_char(c: char) -> (r: Option<KeyCode>)
    ensures
        r == spec_key_of_char(c),
{
    match c {
        'A' => Some(KeyCode::KeyA),
        'B' => Some(KeyCode::KeyB),
        'C' => Some(KeyCode::KeyC),
        'D' => Some(KeyCode::KeyD),
        'E' => Some(KeyCode::KeyE),
        'F' => Some(KeyCode::KeyF),
        'G' => Some(KeyCode::KeyG),
        'H' => Some(KeyCode::KeyH),
        'I' => Some(KeyCode::KeyI),
        'J' => Some(KeyCode::KeyJ),
        'K' => Some(KeyCode::KeyK),
        'L' => Some(KeyCode::KeyL),
        'M' => Some(KeyCode::KeyM),
        'N' => Some(KeyCode::KeyN),
        'O' => Some(KeyCode::KeyO),
        'P' => Some(KeyCode::KeyP),
        'Q' => Some(KeyCode::KeyQ),
        'R' => Some(KeyCode::KeyR),
        'S' => Some(KeyCode::KeyS),
        'T' => Some(KeyCode::KeyT),
        'U' => Some(KeyCode::KeyU),
        'V' => Some(KeyCode::KeyV),
        'W' => Some(KeyCode::KeyW),
        'X' => Some(KeyCode::KeyX),
        'Y' => Some(KeyCode::KeyY),
        'Z' => Some(KeyCode::KeyZ),
        '0' => Some(KeyCode::Digit0),
        '1' => Some(KeyCode::Digit1),
        '2' => Some(KeyCode::Digit2),
        '3' => Some(KeyCode::Digit3),
        '4' => Some(KeyCode::Digit4),
        '5' => Some(KeyCode::Digit5),
        '6' => Some(KeyCode::Digit6),
        '7' => Some(KeyCode::Digit7),
        '8' => Some(KeyCode::Digit8),
        '9' => Some(KeyCode::Digit9),
        _ => None,
    }
}

/// The key named by a token of the textual shortcut format, compared
/// case-insensitively against each key's canonical token.
pub open spec fn spec_key_of_token(t: Seq<char>) -> Option<KeyCode> {
    if t.len() == 1 {
        spec_key_of_char(spec_upper_char(t[0]))
    } else if t.len() == 2 && spec_upper_char(t[0]) == 'F' {
        match t[1] {
            '1' => Some(KeyCode::F1),
            '2' => Some(KeyCode::F2),
            '3' => Some(KeyCode::F3),
            '4' => Some(KeyCode::F4),
            '5' => Some(KeyCode::F5),
            '6' => Some(KeyCode::F6),
            '7' => Some(KeyCode::F7),
            '8' => Some(KeyCode::F8),
            '9' => Some(KeyCode::F9),
            _ => None,
        }
    } else if t.len() == 3 && spec_upper_char(t[0]) == 'F' && t[1] == '1' {
        match t[2] {
            '0' => Some(KeyCode::F10),
            '1' => Some(KeyCode::F11),
            '2' => Some(KeyCode::F12),
            _ => None,
        }
    } else if t.len() == 3 && spec_upper_char(t[0]) == 'T' && spec_upper_char(t[1]) == 'A'
        && spec_upper_char(t[2]) == 'B' {
        Some(KeyCode::Tab)
    } else if t.len() == 5 && spec_upper_char(t[0]) == 'S' && spec_upper_char(t[1]) == 'P'
        && spec_upper_char(t[2]) == 'A' && spec_upper_char(t[3]) == 'C'
        && spec_upper_char(t[4]) == 'E' {
        Some(KeyCode::Space)
    } else if t.len() == 5 && spec_upper_char(t[0]) == 'E' && spec_upper_char(t[1]) == 'N'
        && spec_upper_char(t[2]) == 'T' && spec_upper_char(t[3]) == 'E'
        && spec_upper_char(t[4]) == 'R' {
        Some(KeyCode::Enter)
    } else if t.len() == 6 && spec_upper_char(t[0]) == 'E' && spec_upper_char(t[1]) == 'S'
        && spec_upper_char(t[2]) == 'C' && spec_upper_char(t[3]) == 'A'
        && spec_upper_char(t[4]) == 'P' && spec_upper_char(t[5]) == 'E' {
        Some(KeyCode::Escape)
    } else if t.len() == 6 && spec_upper_char(t[0]) == 'D' && spec_upper_char(t[1]) == 'E'
        && spec_upper_char(t[2]) == 'L' && spec_upper_char(t[3]) == 'E'
        && spec_upper_char(t[4]) == 'T' && spec_upper_char(t[5]) == 'E' {
        Some(KeyCode::Delete)
    } else if t.len() == 9 && spec_upper_char(t[0]) == 'B' && spec_upper_char(t[1]) == 'A'
        && spec_upper_char(t[2]) == 'C' && spec_upper_char(t[3]) == 'K'
        && spec_upper_char(t[4]) == 'S' && spec_upper_char(t[5]) == 'P'
        && spec_upper_char(t[6]) == 'A' && spec_upper_char(t[7]) == 'C'
        && spec_upper_char(t[8]) == 'E' {
        Some(KeyCode::Backspace)
    } else {
        None
    }
}

/// Recognizes a key token of the textual shortcut format,
/// case-insensitively.
pub fn key_of_token(t: &Vec<char>) -> (r: Option<KeyCode>)
    ensures
        r == spec_key_of_token(t@),
{
    let n = t.len();
    if n == 1 {
        key_of_char(upper_char(t[0]))
    } else if n == 2 && upper_char(t[0]) == 'F' {
        match t[1] {
            '1' => Some(KeyCode::F1),
            '2' => Some(KeyCode::F2),
            '3' => Some(KeyCode::F3),
            '4' => Some(KeyCode::F4),
            '5' => Some(KeyCode::F5),
            '6' => Some(KeyCode::F6),
            '7' => Some(KeyCode::F7),
            '8' => Some(KeyCode::F8),
            '9' => Some(KeyCode::F9),
            _ => None,
        }
    } else if n == 3 && upper_char(t[0]) == 'F' && t[1] == '1' {
        match t[2] {
            '0' => Some(KeyCode::F10),
            '1' => Some(KeyCode::F11),
            '2' => Some(KeyCode::F12),
            _ => None,
        }
    } else if n == 3 && upper_char(t[0]) == 'T' && upper_char(t[1]) == 'A'
        && upper_char(t[2]) == 'B' {
        Some(KeyCode::Tab)
    } else if n == 5 && upper_char(t[0]) == 'S' && upper_char(t[1]) == 'P'
        && upper_char(t[2]) == 'A' && upper_char(t[3]) == 'C' && upper_char(t[4]) == 'E' {
        Some(KeyCode::Space)
    } else if n == 5 && upper_char(t[0]) == 'E' && upper_char(t[1]) == 'N'
        && upper_char(t[2]) == 'T' && upper_char(t[3]) == 'E' && upper_char(t[4]) == 'R' {
        Some(KeyCode::Enter)
    } else if n == 6 && upper_char(t[0]) == 'E' && upper_char(t[1]) == 'S'
        && upper_char(t[2]) == 'C' && upper_char(t[3]) == 'A' && upper_char(t[4]) == 'P'
        && upper_char(t[5]) == 'E' {
        Some(KeyCode::Escape)
    } else if n == 6 && upper_char(t[0]) == 'D' && upper_char(t[1]) == 'E'
        && upper_char(t[2]) == 'L' && upper_char(t[3]) == 'E' && upper_char(t[4]) == 'T'
        && upper_char(t[5]) == 'E' {
        Some(KeyCode::Delete)
    } else if n == 9 && upper_char(t[0]) == 'B' && upper_char(t[1]) == 'A'
        && upper_char(t[2]) == 'C' && upper_char(t[3]) == 'K' && upper_char(t[4]) == 'S'
        && upper_char(t[5]) == 'P' && upper_char(t[6]) == 'A' && upper_char(t[7]) == 'C'
        && upper_char(t[8]) == 'E' {
        Some(KeyCode::Backspace)
    } else {
        None
    }
}

/// No character of a canonical key token is the separator, so joining
/// tokens with `+` never makes a token ambiguous.
pub open spec fn spec_token_has_no_separator(t: Seq<char>) -> bool {
    forall|i: int| 0 <= i < t.len() ==> t[i] != '+'
}


/// Every key's canonical token is separator-free and is recognized back as
/// exactly that key.
pub proof fn lemma_key_token_roundtrip(k: KeyCode)
    ensures
        spec_token_has_no_separator(k.spec_name()),
        spec_key_of_token(k.spec_name()) == Some(k),
{
    match k {
        KeyCode::KeyA => {
            reveal_strlit("A");
            assert(spec_token_has_no_separator(k.spec_name()));
            assert(spec_key_of_token(k.spec_name()) == Some(k));
        },
        KeyCode::KeyB => {
            reveal_strlit("B");
            assert(spec_token_has_no_separator(k.spec_name()));
            assert(spec_key_of_token(k.spec_name()) == Some(k));
        },
        KeyCode::KeyC => {
            reveal_strlit("C");
            assert(spec_token_has_no_separator(k.spec_name()));
            assert(spec_key_of_token(k.spec_name()) == Some(k));
        },
        KeyCode::KeyD => {
            reveal_strlit("D");
            assert(spec_token_has_no_separator(k.spec_name()));
            assert(spec_key_of_token(k.spec_name()) == Some(k));
        },
        KeyCode::KeyE => {
            reveal_strlit("E");
            assert(spec_token_has_no_separator(k.spec_name()));
            assert(spec_key_of_token(k.spec_name()) == Some(k));
        },
        KeyCode::KeyF => {
            reveal_strlit("F");
            assert(spec_token_has_no_separator(k.spec_name()));
            assert(spec_key_of_token(k.spec_name()) == Some(k));
        },
        KeyCode::KeyG => {
            reveal_strlit("G");
            assert(spec_token_has_no_separator(k.spec_name()));
            assert(spec_key_of_token(k.spec_name()) == Some(k));
        },
        KeyCode::KeyH => {
            reveal_strlit("H");
            assert(spec_token_has_no_separator(k.spec_name()));
            assert(spec_key_of_token(k.spec_name()) == Some(k));
        },
        KeyCode::KeyI => {
            reveal_strlit("I");
            assert(spec_token_has_no_separator(k.spec_name()));
            assert(spec_key_of_token(k.spec_name()) == Some(k));
        },
        KeyCode::KeyJ => {
            reveal_strlit("J");
            assert(spec_token_has_no_separator(k.spec_name()));
            assert(spec_key_of_token(k.spec_name()) == Some(k));
        },
        KeyCode::KeyK => {
            reveal_strlit("K");
            assert(spec_token_has_no_separator(k.spec_name()));
            assert(spec_key_of_token(k.spec_name()) == Some(k));
        },
        KeyCode::KeyL => {
            reveal_strlit("L");
            assert(spec_token_has_no_separator(k.spec_name()));
            assert(spec_key_of_token(k.spec_name()) == Some(k));
        },
        KeyCode::KeyM => {
            reveal_strlit("M");
            assert(spec_token_has_no_separator(k.spec_name()));
            assert(spec_key_of_token(k.spec_name()) == Some(k));
        },
        KeyCode::KeyN => {
            reveal_strlit("N");
            assert(spec_token_has_no_separator(k.spec_name()));
            assert(spec_key_of_token(k.spec_name()) == Some(k));
        },
        KeyCode::KeyO => {
            reveal_strlit("O");
            assert(spec_token_has_no_separator(k.spec_name()));
            assert(spec_key_of_token(k.spec_name()) == Some(k));
        },
        KeyCode::KeyP => {
            reveal_strlit("P");
            assert(spec_token_has_no_separator(k.spec_name()));
            assert(spec_key_of_token(k.spec_name()) == Some(k));
        },
        KeyCode::KeyQ => {
            reveal_strlit("Q");
            assert(spec_token_has_no_separator(k.spec_name()));
            assert(spec_key_of_token(k.spec_name()) == Some(k));
        },
        KeyCode::KeyR => {
            reveal_strlit("R");
            assert(spec_token_has_no_separator(k.spec_name()));
            assert(spec_key_of_token(k.spec_name()) == Some(k));
        },
        KeyCode::KeyS => {
            reveal_strlit("S");
            assert(spec_token_has_no_separator(k.spec_name()));
            assert(spec_key_of_token(k.spec_name()) == Some(k));
        },
        KeyCode::KeyT => {
            reveal_strlit("T");
            assert(spec_token_has_no_separator(k.spec_name()));
            assert(spec_key_of_token(k.spec_name()) == Some(k));
        },
        KeyCode::KeyU => {
            reveal_strlit("U");
            assert(spec_token_has_no_separator(k.spec_name()));
            assert(spec_key_of_token(k.spec_name()) == Some(k));
        },
        KeyCode::KeyV => {
            reveal_strlit("V");
            assert(spec_token_has_no_separator(k.spec_name()));
            assert(spec_key_of_token(k.spec_name()) == Some(k));
        },
        KeyCode::KeyW => {
            reveal_strlit("W");
            assert(spec_token_has_no_separator(k.spec_name()));
            assert(spec_key_of_token(k.spec_name()) == Some(k));
        },
        KeyCode::KeyX => {
            reveal_strlit("X");
            assert(spec_token_has_no_separator(k.spec_name()));
            assert(spec_key_of_token(k.spec_name()) == Some(k));
        },
        KeyCode::KeyY => {
            reveal_strlit("Y");
            assert(spec_token_has_no_separator(k.spec_name()));
            assert(spec_key_of_token(k.spec_name()) == Some(k));
        },
        KeyCode::KeyZ => {
            reveal_strlit("Z");
            assert(spec_token_has_no_separator(k.spec_name()));
            assert(spec_key_of_token(k.spec_name()) == Some(k));
        },
        KeyCode::Digit0 => {
            reveal_strlit("0");
            assert(spec_token_has_no_separator(k.spec_name()));
            assert(spec_key_of_token(k.spec_name()) == Some(k));
        },
        KeyCode::Digit1 => {
            reveal_strlit("1");
            assert(spec_token_has_no_separator(k.spec_name()));
            assert(spec_key_of_token(k.spec_name()) == Some(k));
        },
        KeyCode::Digit2 => {
            reveal_strlit("2");
            assert(spec_token_has_no_separator(k.spec_name()));
            assert(spec_key_of_token(k.spec_name()) == Some(k));
        },
        KeyCode::Digit3 => {
            reveal_strlit("3");
            assert(spec_token_has_no_separator(k.spec_name()));
            assert(spec_key_of_token(k.spec_name()) == Some(k));
        },
        KeyCode::Digit4 => {
            reveal_strlit("4");
            assert(spec_token_has_no_separator(k.spec_name()));
            assert(spec_key_of_token(k.spec_name()) == Some(k));
        },
        KeyCode::Digit5 => {
            reveal_strlit("5");
            assert(spec_token_has_no_separator(k.spec_name()));
            assert(spec_key_of_token(k.spec_name()) == Some(k));
        },
        KeyCode::Digit6 => {
            reveal_strlit("6");
            assert(spec_token_has_no_separator(k.spec_name()));
            assert(spec_key_of_token(k.spec_name()) == Some(k));
        },
        KeyCode::Digit7 => {
            reveal_strlit("7");
            assert(spec_token_has_no_separator(k.spec_name()));
            assert(spec_key_of_token(k.spec_name()) == Some(k));
        },
        KeyCode::Digit8 => {
            reveal_strlit("8");
            assert(spec_token_has_no_separator(k.spec_name()));
            assert(spec_key_of_token(k.spec_name()) == Some(k));
        },
        KeyCode::Digit9 => {
            reveal_strlit("9");
            assert(spec_token_has_no_separator(k.spec_name()));
            assert(spec_key_of_token(k.spec_name()) == Some(k));
        },
        KeyCode::F1 => {
            reveal_strlit("F1");
            assert(spec_token_has_no_separator(k.spec_name()));
            assert(spec_key_of_token(k.spec_name()) == Some(k));
        },
        KeyCode::F2 => {
            reveal_strlit("F2");
            assert(spec_token_has_no_separator(k.spec_name()));
            assert(spec_key_of_token(k.spec_name()) == Some(k));
        },
        KeyCode::F3 => {
            reveal_strlit("F3");
            assert(spec_token_has_no_separator(k.spec_name()));
            assert(spec_key_of_token(k.spec_name()) == Some(k));
        },
        KeyCode::F4 => {
            reveal_strlit("F4");
            assert(spec_token_has_no_separator(k.spec_name()));
            assert(spec_key_of_token(k.spec_name()) == Some(k));
        },
        KeyCode::F5 => {
            reveal_strlit("F5");
            assert(spec_token_has_no_separator(k.spec_name()));
            assert(spec_key_of_token(k.spec_name()) == Some(k));
        },
        KeyCode::F6 => {
            reveal_strlit("F6");
            assert(spec_token_has_no_separator(k.spec_name()));
            assert(spec_key_of_token(k.spec_name()) == Some(k));
        },
        KeyCode::F7 => {
            reveal_strlit("F7");
            assert(spec_token_has_no_separator(k.spec_name()));
            assert(spec_key_of_token(k.spec_name()) == Some(k));
        },
        KeyCode::F8 => {
            reveal_strlit("F8");
            assert(spec_token_has_no_separator(k.spec_name()));
            assert(spec_key_of_token(k.spec_name()) == Some(k));
        },
        KeyCode::F9 => {
            reveal_strlit("F9");
            assert(spec_token_has_no_separator(k.spec_name()));
            assert(spec_key_of_token(k.spec_name()) == Some(k));
        },
        KeyCode::F10 => {
            reveal_strlit("F10");
            assert(spec_token_has_no_separator(k.spec_name()));
            assert(spec_key_of_token(k.spec_name()) == Some(k));
        },
        KeyCode::F11 => {
            reveal_strlit("F11");
            assert(spec_token_has_no_separator(k.spec_name()));
            assert(spec_key_of_token(k.spec_name()) == Some(k));
        },
        KeyCode::F12 => {
            reveal_strlit("F12");
            assert(spec_token_has_no_separator(k.spec_name()));
            assert(spec_key_of_token(k.spec_name()) == Some(k));
        },
        KeyCode::Space => {
            reveal_strlit("Space");
            assert(spec_token_has_no_separator(k.spec_name()));
            assert(spec_key_of_token(k.spec_name()) == Some(k));
        },
        KeyCode::Enter => {
            reveal_strlit("Enter");
            assert(spec_token_has_no_separator(k.spec_name()));
            assert(spec_key_of_token(k.spec_name()) == Some(k));
        },
        KeyCode::Tab => {
            reveal_strlit("Tab");
            assert(spec_token_has_no_separator(k.spec_name()));
            assert(spec_key_of_token(k.spec_name()) == Some(k));
        },
        KeyCode::Escape => {
            reveal_strlit("Escape");
            assert(spec_token_has_no_separator(k.spec_name()));
            assert(spec_key_of_token(k.spec_name()) == Some(k));
        },
        KeyCode::Delete => {
            reveal_strlit("Delete");
            assert(spec_token_has_no_separator(k.spec_name()));
            assert(spec_key_of_token(k.spec_name()) == Some(k));
        },
        KeyCode::Backspace => {
            reveal_strlit("Backspace");
            assert(spec_token_has_no_separator(k.spec_name()));
            assert(spec_key_of_token(k.spec_name()) == Some(k));
        },
    }
}

} // verus!
