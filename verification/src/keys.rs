//! The logical key vocabulary and the raw-to-logical key mapping table.
//!
//! A raw key is what the platform reports for one keyboard event: either the
//! character the key produced under the current layout and modifiers, or a
//! named non-character key.  The mapping resolves it to a fixed logical key,
//! with a layout-mode switch that decides whether shifted punctuation
//! variants collapse onto their unshifted key.

use vstd::prelude::*;

verus! {

/// Settings for whether to ignore modifiers and use a standard keyboard
/// layout instead.
///
/// Without knowing the user's keyboard layout there is no single coherent way
/// of generating key codes for shifted punctuation; this switch selects
/// between the two tradeoffs.
#[derive(Copy, Clone, PartialEq, Eq, Structural, Debug)]
pub enum KeyboardIgnoreModifiers {
    /// Keep the key codes that are affected by modifiers: a shifted symbol
    /// such as `@` maps to its own logical key, distinct from `2`.
    Keep,
    /// Assume a standard English layout: shifted number and punctuation
    /// variants collapse onto their unshifted logical key, giving
    /// layout-independent physical-key semantics.
    AbcKeyCode,
}

/// The logical keys this backend can report.
///
/// Unrecognized raw keys resolve to [`Key::Unknown`], never to an error.
#[derive(Copy, Clone, PartialEq, Eq, Structural, Debug)]
pub enum Key {
    A,
    B,
    C,
    D,
    E,
    F,
    G,
    H,
    I,
    J,
    K,
    L,
    M,
    N,
    O,
    P,
    Q,
    R,
    S,
    T,
    U,
    V,
    W,
    X,
    Y,
    Z,
    D0,
    D1,
    D2,
    D3,
    D4,
    D5,
    D6,
    D7,
    D8,
    D9,
    RightParen,
    NumPadExclam,
    At,
    Hash,
    Dollar,
    Percent,
    Caret,
    Ampersand,
    Asterisk,
    LeftParen,
    Quote,
    Quotedbl,
    Semicolon,
    Colon,
    LeftBracket,
    NumPadLeftBrace,
    RightBracket,
    NumPadRightBrace,
    Backslash,
    NumPadVerticalBar,
    Comma,
    Less,
    Period,
    Greater,
    Slash,
    Question,
    Backquote,
    Escape,
    F1,
    F2,
    F3,
    F4,
    F5,
    F6,
    F7,
    F8,
    F9,
    F10,
    F11,
    F12,
    F13,
    F14,
    F15,
    Delete,
    Left,
    Up,
    Right,
    Down,
    Backspace,
    Return,
    Space,
    LAlt,
    RAlt,
    LCtrl,
    Menu,
    LShift,
    Tab,
    Unknown,
}

/// A named (non-character) key as the platform reports it.
///
/// Only the named keys that the mapping table resolves are listed; every
/// other named key is [`RawNamedKey::Other`].
#[derive(Copy, Clone, PartialEq, Eq, Structural, Debug)]
pub enum RawNamedKey {
    Escape,
    F1,
    F2,
    F3,
    F4,
    F5,
    F6,
    F7,
    F8,
    F9,
    F10,
    F11,
    F12,
    F13,
    F14,
    F15,
    Delete,
    ArrowLeft,
    ArrowUp,
    ArrowRight,
    ArrowDown,
    Backspace,
    Enter,
    Space,
    Alt,
    AltGraph,
    Control,
    Super,
    Shift,
    Tab,
    /// Any named key the table does not resolve.
    Other,
}

/// A raw key identifier, as delivered with one platform keyboard event.
#[derive(Clone, PartialEq, Eq, Structural, Debug)]
pub enum RawKey {
    /// The key produced a single character under the current layout.
    Character(char),
    /// The key is a named non-character key.
    Named(RawNamedKey),
    /// The platform could not identify the key (including keys whose
    /// character form is not a single character).
    Unidentified,
}

/// The mapping table for character keys.
///
/// In [`KeyboardIgnoreModifiers::AbcKeyCode`] mode, shifted number and
/// punctuation variants collapse onto their unshifted logical key; otherwise
/// each shifted symbol keeps a logical key of its own.
pub open spec fn spec_map_char_key(c: char, kim: KeyboardIgnoreModifiers) -> Key {
    let abc = kim is AbcKeyCode;
    match c {
        '0' => Key::D0,
        ')' => if abc { Key::D0 } else { Key::RightParen },
        '1' => Key::D1,
        '!' => if abc { Key::D1 } else { Key::NumPadExclam },
        '2' => Key::D2,
        '@' => if abc { Key::D2 } else { Key::At },
        '3' => Key::D3,
        '#' => if abc { Key::D3 } else { Key::Hash },
        '4' => Key::D4,
        '$' => if abc { Key::D4 } else { Key::Dollar },
        '5' => Key::D5,
        '%' => if abc { Key::D5 } else { Key::Percent },
        '6' => Key::D6,
        '^' => if abc { Key::D6 } else { Key::Caret },
        '7' => Key::D7,
        '&' => if abc { Key::D7 } else { Key::Ampersand },
        '8' => Key::D8,
        '*' => if abc { Key::D8 } else { Key::Asterisk },
        '9' => Key::D9,
        '(' => if abc { Key::D9 } else { Key::LeftParen },
        'a' | 'A' => Key::A,
        'b' | 'B' => Key::B,
        'c' | 'C' => Key::C,
        'd' | 'D' => Key::D,
        'e' | 'E' => Key::E,
        'f' | 'F' => Key::F,
        'g' | 'G' => Key::G,
        'h' | 'H' => Key::H,
        'i' | 'I' => Key::I,
        'j' | 'J' => Key::J,
        'k' | 'K' => Key::K,
        'l' | 'L' => Key::L,
        'm' | 'M' => Key::M,
        'n' | 'N' => Key::N,
        'o' | 'O' => Key::O,
        'p' | 'P' => Key::P,
        'q' | 'Q' => Key::Q,
        'r' | 'R' => Key::R,
        's' | 'S' => Key::S,
        't' | 'T' => Key::T,
        'u' | 'U' => Key::U,
        'v' | 'V' => Key::V,
        'w' | 'W' => Key::W,
        'x' | 'X' => Key::X,
        'y' | 'Y' => Key::Y,
        'z' | 'Z' => Key::Z,
        '\'' => Key::Quote,
        '"' => if abc { Key::Quote } else { Key::Quotedbl },
        ';' => Key::Semicolon,
        ':' => if abc { Key::Semicolon } else { Key::Colon },
        '[' => Key::LeftBracket,
        '{' => if abc { Key::LeftBracket } else { Key::NumPadLeftBrace },
        ']' => Key::RightBracket,
        '}' => if abc { Key::RightBracket } else { Key::NumPadRightBrace },
        '\\' => Key::Backslash,
        '|' => if abc { Key::Backslash } else { Key::NumPadVerticalBar },
        ',' => Key::Comma,
        '<' => if abc { Key::Comma } else { Key::Less },
        '.' => Key::Period,
        '>' => if abc { Key::Period } else { Key::Greater },
        '/' => Key::Slash,
        '?' => if abc { Key::Slash } else { Key::Question },
        '`' => Key::Backquote,
        '~' => if abc { Key::Backquote } else { Key::Unknown },
        _ => Key::Unknown,
    }
}

/// The mapping table for named keys; it does not depend on the layout mode.
pub open spec fn spec_map_named_key(n: RawNamedKey) -> Key {
    match n {
        RawNamedKey::Escape => Key::Escape,
        RawNamedKey::F1 => Key::F1,
        RawNamedKey::F2 => Key::F2,
        RawNamedKey::F3 => Key::F3,
        RawNamedKey::F4 => Key::F4,
        RawNamedKey::F5 => Key::F5,
        RawNamedKey::F6 => Key::F6,
        RawNamedKey::F7 => Key::F7,
        RawNamedKey::F8 => Key::F8,
        RawNamedKey::F9 => Key::F9,
        RawNamedKey::F10 => Key::F10,
        RawNamedKey::F11 => Key::F11,
        RawNamedKey::F12 => Key::F12,
        RawNamedKey::F13 => Key::F13,
        RawNamedKey::F14 => Key::F14,
        RawNamedKey::F15 => Key::F15,
        RawNamedKey::Delete => Key::Delete,
        RawNamedKey::ArrowLeft => Key::Left,
        RawNamedKey::ArrowUp => Key::Up,
        RawNamedKey::ArrowRight => Key::Right,
        RawNamedKey::ArrowDown => Key::Down,
        RawNamedKey::Backspace => Key::Backspace,
        RawNamedKey::Enter => Key::Return,
        RawNamedKey::Space => Key::Space,
        RawNamedKey::Alt => Key::LAlt,
        RawNamedKey::AltGraph => Key::RAlt,
        RawNamedKey::Control => Key::LCtrl,
        RawNamedKey::Super => Key::Menu,
        RawNamedKey::Shift => Key::LShift,
        RawNamedKey::Tab => Key::Tab,
        RawNamedKey::Other => Key::Unknown,
    }
}

/// The full raw-to-logical key mapping: a pure function of the raw key and
/// the layout mode.
pub open spec fn spec_map_key(k: RawKey, kim: KeyboardIgnoreModifiers) -> Key {
    match k {
        RawKey::Character(c) => spec_map_char_key(c, kim),
        RawKey::Named(n) => spec_map_named_key(n),
        RawKey::Unidentified => Key::Unknown,
    }
}

/// Maps a raw key identifier to the logical key it stands for.
pub fn map_key(key: &RawKey, kim: KeyboardIgnoreModifiers) -> (r: Key)
    ensures
        r == spec_map_key(*key, kim),
{
    let abc = matches!(kim, KeyboardIgnoreModifiers::AbcKeyCode);
    match key {
        RawKey::Character(c) => match *c {
            '0' => Key::D0,
            ')' => if abc { Key::D0 } else { Key::RightParen },
            '1' => Key::D1,
            '!' => if abc { Key::D1 } else { Key::NumPadExclam },
            '2' => Key::D2,
            '@' => if abc { Key::D2 } else { Key::At },
            '3' => Key::D3,
            '#' => if abc { Key::D3 } else { Key::Hash },
            '4' => Key::D4,
            '$' => if abc { Key::D4 } else { Key::Dollar },
            '5' => Key::D5,
            '%' => if abc { Key::D5 } else { Key::Percent },
            '6' => Key::D6,
            '^' => if abc { Key::D6 } else { Key::Caret },
            '7' => Key::D7,
            '&' => if abc { Key::D7 } else { Key::Ampersand },
            '8' => Key::D8,
            '*' => if abc { Key::D8 } else { Key::Asterisk },
            '9' => Key::D9,
            '(' => if abc { Key::D9 } else { Key::LeftParen },
            'a' | 'A' => Key::A,
            'b' | 'B' => Key::B,
            'c' | 'C' => Key::C,
            'd' | 'D' => Key::D,
            'e' | 'E' => Key::E,
            'f' | 'F' => Key::F,
            'g' | 'G' => Key::G,
            'h' | 'H' => Key::H,
            'i' | 'I' => Key::I,
            'j' | 'J' => Key::J,
            'k' | 'K' => Key::K,
            'l' | 'L' => Key::L,
            'm' | 'M' => Key::M,
            'n' | 'N' => Key::N,
            'o' | 'O' => Key::O,
            'p' | 'P' => Key::P,
            'q' | 'Q' => Key::Q,
            'r' | 'R' => Key::R,
            's' | 'S' => Key::S,
            't' | 'T' => Key::T,
            'u' | 'U' => Key::U,
            'v' | 'V' => Key::V,
            'w' | 'W' => Key::W,
            'x' | 'X' => Key::X,
            'y' | 'Y' => Key::Y,
            'z' | 'Z' => Key::Z,
            '\'' => Key::Quote,
            '"' => if abc { Key::Quote } else { Key::Quotedbl },
            ';' => Key::Semicolon,
            ':' => if abc { Key::Semicolon } else { Key::Colon },
            '[' => Key::LeftBracket,
            '{' => if abc { Key::LeftBracket } else { Key::NumPadLeftBrace },
            ']' => Key::RightBracket,
            '}' => if abc { Key::RightBracket } else { Key::NumPadRightBrace },
            '\\' => Key::Backslash,
            '|' => if abc { Key::Backslash } else { Key::NumPadVerticalBar },
            ',' => Key::Comma,
            '<' => if abc { Key::Comma } else { Key::Less },
            '.' => Key::Period,
            '>' => if abc { Key::Period } else { Key::Greater },
            '/' => Key::Slash,
            '?' => if abc { Key::Slash } else { Key::Question },
            '`' => Key::Backquote,
            '~' => if abc { Key::Backquote } else { Key::Unknown },
            _ => Key::Unknown,
        },
        RawKey::Named(n) => match n {
            RawNamedKey::Escape => Key::Escape,
            RawNamedKey::F1 => Key::F1,
            RawNamedKey::F2 => Key::F2,
            RawNamedKey::F3 => Key::F3,
            RawNamedKey::F4 => Key::F4,
            RawNamedKey::F5 => Key::F5,
            RawNamedKey::F6 => Key::F6,
            RawNamedKey::F7 => Key::F7,
            RawNamedKey::F8 => Key::F8,
            RawNamedKey::F9 => Key::F9,
            RawNamedKey::F10 => Key::F10,
            RawNamedKey::F11 => Key::F11,
            RawNamedKey::F12 => Key::F12,
            RawNamedKey::F13 => Key::F13,
            RawNamedKey::F14 => Key::F14,
            RawNamedKey::F15 => Key::F15,
            RawNamedKey::Delete => Key::Delete,
            RawNamedKey::ArrowLeft => Key::Left,
            RawNamedKey::ArrowUp => Key::Up,
            RawNamedKey::ArrowRight => Key::Right,
            RawNamedKey::ArrowDown => Key::Down,
            RawNamedKey::Backspace => Key::Backspace,
            RawNamedKey::Enter => Key::Return,
            RawNamedKey::Space => Key::Space,
            RawNamedKey::Alt => Key::LAlt,
            RawNamedKey::AltGraph => Key::RAlt,
            RawNamedKey::Control => Key::LCtrl,
            RawNamedKey::Super => Key::Menu,
            RawNamedKey::Shift => Key::LShift,
            RawNamedKey::Tab => Key::Tab,
            RawNamedKey::Other => Key::Unknown,
        },
        RawKey::Unidentified => Key::Unknown,
    }
}

} // verus!
