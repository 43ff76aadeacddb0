use trapcore::render::pixel::{bgr_24, bgr_32, no_op, rgb_24, rgb_32, u8};
use trapcore::render::Color;

fn orange() -> Color {
    Color { red: 250, green: 120, blue: 10 }
}

#[test]
fn no_op_leaves_the_buffer() {
    let mut buffer = [7u8; 6];
    no_op(2, &mut buffer, orange());
    assert_eq!(buffer, [7, 7, 7, 7, 7, 7]);
}

#[test]
fn no_op_takes_any_offset() {
    let mut buffer = [7u8; 2];
    no_op(100, &mut buffer, orange());
    assert_eq!(buffer, [7, 7]);
}

#[test]
fn rgb_24_writes_red_green_blue() {
    let mut buffer = [7u8; 6];
    rgb_24(1, &mut buffer, orange());
    assert_eq!(buffer, [7, 250, 120, 10, 7, 7]);
}

#[test]
fn rgb_24_fills_the_last_three_bytes() {
    let mut buffer = [7u8; 4];
    rgb_24(1, &mut buffer, orange());
    assert_eq!(buffer, [7, 250, 120, 10]);
}

#[test]
fn rgb_32_leaves_the_reserved_byte_zero() {
    let mut buffer = [7u8; 6];
    rgb_32(1, &mut buffer, orange());
    assert_eq!(buffer, [7, 0, 250, 120, 10, 7]);
}

#[test]
fn bgr_24_writes_blue_green_red() {
    let mut buffer = [7u8; 6];
    bgr_24(0, &mut buffer, orange());
    assert_eq!(buffer, [10, 120, 250, 7, 7, 7]);
}

#[test]
fn bgr_32_leaves_the_reserved_byte_zero() {
    let mut buffer = [7u8; 6];
    bgr_32(2, &mut buffer, orange());
    assert_eq!(buffer, [7, 7, 0, 10, 120, 250]);
}

#[test]
fn u8_writes_the_average() {
    let mut buffer = [7u8; 3];
    u8(1, &mut buffer, Color { red: 10, green: 20, blue: 33 });
    assert_eq!(buffer, [7, 21, 7]);
}

#[test]
fn u8_rounds_the_average_down() {
    let mut buffer = [7u8; 1];
    u8(0, &mut buffer, Color { red: 1, green: 1, blue: 0 });
    assert_eq!(buffer, [0]);
}

#[test]
fn u8_averages_bright_colors_without_wrapping() {
    let mut buffer = [7u8; 2];
    u8(0, &mut buffer, orange());
    u8(1, &mut buffer, Color::white());
    assert_eq!(buffer, [126, 255]);
}

#[test]
fn writers_compose_over_one_buffer() {
    let mut buffer = vec![0u8; 8];
    rgb_32(0, &mut buffer, Color::alert());
    bgr_32(4, &mut buffer, Color::alert());
    assert_eq!(buffer, vec![0, 255, 0, 0, 0, 0, 0, 255]);
}

#[test]
fn named_colors() {
    assert_eq!(Color::alert(), Color { red: 255, green: 0, blue: 0 });
    assert_eq!(Color::white(), Color { red: 255, green: 255, blue: 255 });
    assert_eq!(Color::black(), Color { red: 0, green: 0, blue: 0 });
}
