use rsmedia::colors::{blue, crimson, green, red, Color};

#[test]
fn test_color_to_hex() {
    let color = Color::from_rgb(255, 0, 0);
    assert_eq!(color.hex(true), "#FF0000FF");

    let color = Color::from_rgb(0, 255, 0);
    assert_eq!(color.hex(true), "#00FF00FF");

    let color = Color::from_rgb(0, 0, 255);
    assert_eq!(color.hex(true), "#0000FFFF");

    let color = Color::from_rgb(255, 255, 0);
    assert_eq!(color.hex(false), "#ffff00ff");
}

#[test]
fn test_hex_to_color() {
    assert_eq!(Color::try_from("#FF0000").unwrap(), Color::from_rgb(255, 0, 0));
    assert_eq!(Color::try_from("00FF00").unwrap(), Color::from_rgb(0, 255, 0));
    assert_eq!(Color::try_from("#0000FF").unwrap(), Color::from_rgb(0, 0, 255));
}

#[test]
fn test_color_constants() {
    assert_eq!(red(), Color::from_rgb(255, 0, 0));
    assert_eq!(green(), Color::from_rgb(0, 128, 0));
    assert_eq!(blue(), Color::from_rgb(0, 0, 255));
}

#[test]
fn test_color_macro_tuple_and_rgba_forms() {
    // 3-element form: opaque alpha.
    assert_eq!(crimson(), Color::from_rgba(220, 20, 60, 0xFF));
    // 4-element form: explicit alpha.
    let ghost = Color::from_rgba(248, 248, 255, 128);
    assert_eq!(ghost, Color::from_rgba(248, 248, 255, 128));
    assert_eq!(ghost.a, 128);
}

#[test]
fn hex_round_trips_through_parsing() {
    for c in [
        Color::from_rgba(0, 0, 0, 0),
        Color::from_rgba(1, 2, 3, 4),
        Color::from_rgba(255, 254, 16, 15),
        crimson(),
    ] {
        assert_eq!(Color::try_from(c.hex(true).as_str()), Ok(c));
        assert_eq!(Color::try_from(c.hex(false).as_str()), Ok(c));
    }
}

#[test]
fn parsing_rejects_bad_lengths_and_digits() {
    assert_eq!(
        Color::try_from("#12345"),
        Err("Failed to convert `Color` from str: invalid length")
    );
    assert_eq!(
        Color::try_from("#12345g"),
        Err("Failed to convert `Color` from str: invalid hex")
    );
    // One leading `#` is optional; a second one is no hexadecimal digit.
    assert_eq!(Color::try_from("11223344"), Ok(Color::from_rgba(0x11, 0x22, 0x33, 0x44)));
    assert_eq!(Color::try_from("#abcdef"), Ok(Color::from_rgba(0xAB, 0xCD, 0xEF, 0xFF)));
    assert_eq!(
        Color::try_from("##FF0000"),
        Err("Failed to convert `Color` from str: invalid length")
    );
    assert_eq!(
        Color::try_from("##FF000"),
        Err("Failed to convert `Color` from str: invalid hex")
    );
    // A sign is no hexadecimal digit.
    assert_eq!(
        Color::try_from("+FFFFFFF"),
        Err("Failed to convert `Color` from str: invalid hex")
    );
}

#[test]
fn packed_word_unpacks_red_first() {
    assert_eq!(Color::from(0x11223344u32), Color::from_rgba(0x11, 0x22, 0x33, 0x44));
    assert_eq!(Color::from((1u8, 2u8, 3u8)), Color::from_rgb(1, 2, 3));
    assert_eq!(Color::from([1u8, 2, 3, 4]), Color::from_rgba(1, 2, 3, 4));
    let t: (u8, u8, u8, u8) = Color::from_rgba(9, 8, 7, 6).into();
    assert_eq!(t, (9, 8, 7, 6));
    let a: [u8; 3] = Color::from_rgba(9, 8, 7, 6).into();
    assert_eq!(a, [9, 8, 7]);
}

#[test]
fn channel_accessors_and_alpha() {
    let c = Color::from_rgb(10, 20, 30).with_alpha(40);
    assert_eq!((c.r(), c.g(), c.b(), c.a()), (10, 20, 30, 40));
    assert_eq!(c.rgba(), (10, 20, 30, 40));
    assert_eq!(c.rgb(), (10, 20, 30));
    assert_eq!(c.as_array(), [10, 20, 30, 40]);
    assert_eq!(c.as_tuple(), (10, 20, 30, 40));
    assert_eq!(Color::default(), Color::from_rgba(0, 0, 0, 0));
}

#[test]
fn hsv_with_zero_value_is_black() {
    assert_eq!(Color::from_hsv(200, 50, 0), Color::from_rgb(0, 0, 0));
    // A pure red hue at full saturation and value.
    assert_eq!(Color::from_hsv(0, 100, 100), Color::from_rgb(255, 0, 0));
}

#[test]
fn hsl_converts_through_colorutils() {
    // Green at full saturation and half lightness.
    assert_eq!(Color::from_hsl(120, 100, 50), Color::from_rgb(0, 255, 0));
    assert_eq!(Color::from_hsl(0, 0, 100), Color::from_rgb(255, 255, 255));
}
