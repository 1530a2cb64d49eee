use raytrace::color::{channel_to_byte, encode_pixels, linear_to_gamma, write_color, COLOR_ONE};
use raytrace::ppm::Ppm;

#[test]
fn gamma_keeps_the_extremes() {
    assert_eq!(linear_to_gamma(0), 0);
    assert_eq!(linear_to_gamma(COLOR_ONE), COLOR_ONE);
    assert_eq!(linear_to_gamma(-3), 0);
}

#[test]
fn gamma_is_a_square_root() {
    assert_eq!(linear_to_gamma(COLOR_ONE / 4), COLOR_ONE / 2);
    assert_eq!(linear_to_gamma(COLOR_ONE / 16), COLOR_ONE / 4);
}

#[test]
fn channel_bytes() {
    assert_eq!(channel_to_byte(0), 0);
    assert_eq!(channel_to_byte(-100), 0);
    assert_eq!(channel_to_byte(COLOR_ONE / 4), 128);
    assert_eq!(channel_to_byte(COLOR_ONE), 255);
    assert_eq!(channel_to_byte(4 * COLOR_ONE), 255);
}

#[test]
fn pixel_to_three_bytes() {
    assert_eq!(write_color((COLOR_ONE, 0, COLOR_ONE / 4)), vec![255, 0, 128]);
}

#[test]
fn four_pixel_image_text() {
    let one = COLOR_ONE;
    let pixels = vec![(one, 0, 0), (0, one, 0), (0, 0, one), (one, one, one)];
    let data = encode_pixels(&pixels);
    assert_eq!(data, vec![255, 0, 0, 0, 255, 0, 0, 0, 255, 255, 255, 255]);
    let text = Ppm::new(2, 2, 255, data).encode();
    assert_eq!(
        String::from_utf8(text).unwrap(),
        "P3\n2 2\n255\n255 0 0 0 255 0\n0 0 255 255 255 255\n"
    );
}

#[test]
fn image_text_with_short_last_row() {
    let text = Ppm::new(1, 2, 255, vec![10, 20, 30, 7]).encode();
    assert_eq!(String::from_utf8(text).unwrap(), "P3\n1 2\n255\n10 20 30\n7\n");
}

#[test]
fn empty_image_text() {
    let text = Ppm::new(3, 0, 255, vec![]).encode();
    assert_eq!(String::from_utf8(text).unwrap(), "P3\n3 0\n255\n");
}
