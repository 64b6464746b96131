//! Tests for the raw-to-logical key and mouse-button tables.

use winit_window::keys::{map_key, Key, KeyboardIgnoreModifiers, RawKey, RawNamedKey};
use winit_window::mouse::{map_mouse, MouseButton, RawMouseButton};

#[test]
fn digits_map_the_same_in_both_modes() {
    for (c, expected) in [
        ('0', Key::D0),
        ('1', Key::D1),
        ('2', Key::D2),
        ('3', Key::D3),
        ('4', Key::D4),
        ('5', Key::D5),
        ('6', Key::D6),
        ('7', Key::D7),
        ('8', Key::D8),
        ('9', Key::D9),
    ] {
        assert_eq!(map_key(&RawKey::Character(c), KeyboardIgnoreModifiers::Keep), expected);
        assert_eq!(map_key(&RawKey::Character(c), KeyboardIgnoreModifiers::AbcKeyCode), expected);
    }
}

#[test]
fn shifted_symbols_stay_distinct_in_keep_mode() {
    let kim = KeyboardIgnoreModifiers::Keep;
    assert_eq!(map_key(&RawKey::Character(')'), kim), Key::RightParen);
    assert_eq!(map_key(&RawKey::Character('!'), kim), Key::NumPadExclam);
    assert_eq!(map_key(&RawKey::Character('@'), kim), Key::At);
    assert_eq!(map_key(&RawKey::Character('#'), kim), Key::Hash);
    assert_eq!(map_key(&RawKey::Character('$'), kim), Key::Dollar);
    assert_eq!(map_key(&RawKey::Character('%'), kim), Key::Percent);
    assert_eq!(map_key(&RawKey::Character('^'), kim), Key::Caret);
    assert_eq!(map_key(&RawKey::Character('&'), kim), Key::Ampersand);
    assert_eq!(map_key(&RawKey::Character('*'), kim), Key::Asterisk);
    assert_eq!(map_key(&RawKey::Character('('), kim), Key::LeftParen);
    assert_eq!(map_key(&RawKey::Character('"'), kim), Key::Quotedbl);
    assert_eq!(map_key(&RawKey::Character(':'), kim), Key::Colon);
    assert_eq!(map_key(&RawKey::Character('{'), kim), Key::NumPadLeftBrace);
    assert_eq!(map_key(&RawKey::Character('}'), kim), Key::NumPadRightBrace);
    assert_eq!(map_key(&RawKey::Character('|'), kim), Key::NumPadVerticalBar);
    assert_eq!(map_key(&RawKey::Character('<'), kim), Key::Less);
    assert_eq!(map_key(&RawKey::Character('>'), kim), Key::Greater);
    assert_eq!(map_key(&RawKey::Character('?'), kim), Key::Question);
    assert_eq!(map_key(&RawKey::Character('~'), kim), Key::Unknown);
}

#[test]
fn shifted_symbols_collapse_in_abc_mode() {
    let kim = KeyboardIgnoreModifiers::AbcKeyCode;
    assert_eq!(map_key(&RawKey::Character(')'), kim), Key::D0);
    assert_eq!(map_key(&RawKey::Character('!'), kim), Key::D1);
    assert_eq!(map_key(&RawKey::Character('@'), kim), Key::D2);
    assert_eq!(map_key(&RawKey::Character('#'), kim), Key::D3);
    assert_eq!(map_key(&RawKey::Character('$'), kim), Key::D4);
    assert_eq!(map_key(&RawKey::Character('%'), kim), Key::D5);
    assert_eq!(map_key(&RawKey::Character('^'), kim), Key::D6);
    assert_eq!(map_key(&RawKey::Character('&'), kim), Key::D7);
    assert_eq!(map_key(&RawKey::Character('*'), kim), Key::D8);
    assert_eq!(map_key(&RawKey::Character('('), kim), Key::D9);
    assert_eq!(map_key(&RawKey::Character('"'), kim), Key::Quote);
    assert_eq!(map_key(&RawKey::Character(':'), kim), Key::Semicolon);
    assert_eq!(map_key(&RawKey::Character('{'), kim), Key::LeftBracket);
    assert_eq!(map_key(&RawKey::Character('}'), kim), Key::RightBracket);
    assert_eq!(map_key(&RawKey::Character('|'), kim), Key::Backslash);
    assert_eq!(map_key(&RawKey::Character('<'), kim), Key::Comma);
    assert_eq!(map_key(&RawKey::Character('>'), kim), Key::Period);
    assert_eq!(map_key(&RawKey::Character('?'), kim), Key::Slash);
    assert_eq!(map_key(&RawKey::Character('~'), kim), Key::Backquote);
}

#[test]
fn letters_map_case_insensitively() {
    for kim in [KeyboardIgnoreModifiers::Keep, KeyboardIgnoreModifiers::AbcKeyCode] {
        assert_eq!(map_key(&RawKey::Character('a'), kim), Key::A);
        assert_eq!(map_key(&RawKey::Character('A'), kim), Key::A);
        assert_eq!(map_key(&RawKey::Character('m'), kim), Key::M);
        assert_eq!(map_key(&RawKey::Character('M'), kim), Key::M);
        assert_eq!(map_key(&RawKey::Character('z'), kim), Key::Z);
        assert_eq!(map_key(&RawKey::Character('Z'), kim), Key::Z);
    }
}

#[test]
fn named_keys_map_to_their_logical_keys() {
    let kim = KeyboardIgnoreModifiers::Keep;
    assert_eq!(map_key(&RawKey::Named(RawNamedKey::Escape), kim), Key::Escape);
    assert_eq!(map_key(&RawKey::Named(RawNamedKey::F1), kim), Key::F1);
    assert_eq!(map_key(&RawKey::Named(RawNamedKey::F15), kim), Key::F15);
    assert_eq!(map_key(&RawKey::Named(RawNamedKey::Delete), kim), Key::Delete);
    assert_eq!(map_key(&RawKey::Named(RawNamedKey::ArrowLeft), kim), Key::Left);
    assert_eq!(map_key(&RawKey::Named(RawNamedKey::ArrowUp), kim), Key::Up);
    assert_eq!(map_key(&RawKey::Named(RawNamedKey::ArrowRight), kim), Key::Right);
    assert_eq!(map_key(&RawKey::Named(RawNamedKey::ArrowDown), kim), Key::Down);
    assert_eq!(map_key(&RawKey::Named(RawNamedKey::Backspace), kim), Key::Backspace);
    assert_eq!(map_key(&RawKey::Named(RawNamedKey::Enter), kim), Key::Return);
    assert_eq!(map_key(&RawKey::Named(RawNamedKey::Space), kim), Key::Space);
    assert_eq!(map_key(&RawKey::Named(RawNamedKey::Alt), kim), Key::LAlt);
    assert_eq!(map_key(&RawKey::Named(RawNamedKey::AltGraph), kim), Key::RAlt);
    assert_eq!(map_key(&RawKey::Named(RawNamedKey::Control), kim), Key::LCtrl);
    assert_eq!(map_key(&RawKey::Named(RawNamedKey::Super), kim), Key::Menu);
    assert_eq!(map_key(&RawKey::Named(RawNamedKey::Shift), kim), Key::LShift);
    assert_eq!(map_key(&RawKey::Named(RawNamedKey::Tab), kim), Key::Tab);
    assert_eq!(map_key(&RawKey::Named(RawNamedKey::Other), kim), Key::Unknown);
}

#[test]
fn unidentified_keys_map_to_unknown() {
    assert_eq!(
        map_key(&RawKey::Unidentified, KeyboardIgnoreModifiers::Keep),
        Key::Unknown
    );
    assert_eq!(
        map_key(&RawKey::Character('\u{e9}'), KeyboardIgnoreModifiers::Keep),
        Key::Unknown
    );
}

#[test]
fn key_mapping_is_deterministic() {
    for kim in [KeyboardIgnoreModifiers::Keep, KeyboardIgnoreModifiers::AbcKeyCode] {
        for raw in [
            RawKey::Character('@'),
            RawKey::Character('a'),
            RawKey::Named(RawNamedKey::Escape),
            RawKey::Unidentified,
        ] {
            assert_eq!(map_key(&raw, kim), map_key(&raw, kim));
        }
    }
}

#[test]
fn mouse_buttons_map_by_table_position() {
    assert_eq!(map_mouse(RawMouseButton::Left), MouseButton::Left);
    assert_eq!(map_mouse(RawMouseButton::Right), MouseButton::Right);
    assert_eq!(map_mouse(RawMouseButton::Middle), MouseButton::Middle);
    assert_eq!(map_mouse(RawMouseButton::Other(0)), MouseButton::X1);
    assert_eq!(map_mouse(RawMouseButton::Other(1)), MouseButton::X2);
    assert_eq!(map_mouse(RawMouseButton::Other(2)), MouseButton::Button6);
    assert_eq!(map_mouse(RawMouseButton::Other(3)), MouseButton::Button7);
    assert_eq!(map_mouse(RawMouseButton::Other(4)), MouseButton::Button8);
    assert_eq!(map_mouse(RawMouseButton::Other(5)), MouseButton::Unknown);
    assert_eq!(map_mouse(RawMouseButton::Other(u16::MAX)), MouseButton::Unknown);
    assert_eq!(map_mouse(RawMouseButton::Back), MouseButton::Unknown);
    assert_eq!(map_mouse(RawMouseButton::Forward), MouseButton::Unknown);
}
