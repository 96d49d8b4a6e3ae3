use pongxelflut::color::Color;
use pongxelflut::key::Key;

#[test]
fn as_hex_white_and_red() {
    assert_eq!(Color::from(0xff, 0xff, 0xff, 0xff).as_hex(), "FFFFFFFF");
    assert_eq!(Color::from(0xff, 0x00, 0x00, 0xff).as_hex(), "FF0000FF");
}

#[test]
fn as_hex_object_color() {
    assert_eq!(Color::from(0xff, 0x00, 0xff, 0xff).as_hex(), "FF00FFFF");
}

#[test]
fn as_hex_mixed_digits() {
    assert_eq!(Color::from(0x12, 0xab, 0x07, 0x00).as_hex(), "12AB0700");
    assert_eq!(Color::from(0, 0, 0, 0).as_hex(), "00000000");
}

#[test]
fn key_codes_decode() {
    assert_eq!(Key::try_from(17), Ok(Key::W));
    assert_eq!(Key::try_from(31), Ok(Key::S));
    assert_eq!(Key::try_from(103), Ok(Key::Up));
    assert_eq!(Key::try_from(108), Ok(Key::Down));
    assert_eq!(Key::try_from(57), Ok(Key::Space));
}

#[test]
fn unknown_key_codes_are_rejected() {
    assert_eq!(Key::try_from(0), Err(()));
    assert_eq!(Key::try_from(16), Err(()));
    assert_eq!(Key::try_from(u32::MAX), Err(()));
}
