use posture_ai_oc::canvas::{draw_text, from_u8_rgb, status_color, Canvas};

#[test]
fn plot_writes_one_pixel_in_bounds() {
    let mut canvas = Canvas::new(4, 3);
    canvas.plot(2, 1, 0xABCDEF);
    for y in 0..3 {
        for x in 0..4 {
            let expected = if (x, y) == (2, 1) { 0xABCDEF } else { 0 };
            assert_eq!(canvas.buffer[y * 4 + x], expected);
        }
    }
}

#[test]
fn plot_ignores_out_of_bounds_coordinates() {
    let mut canvas = Canvas::new(4, 3);
    canvas.plot(-1, 0, 7);
    canvas.plot(0, -1, 7);
    canvas.plot(4, 0, 7);
    canvas.plot(0, 3, 7);
    assert!(canvas.buffer.iter().all(|&p| p == 0));
}

#[test]
fn draw_line_paints_a_horizontal_row() {
    let mut canvas = Canvas::new(5, 5);
    canvas.draw_line(0, 2, 4, 2, 9);
    for x in 0..5 {
        assert_eq!(canvas.buffer[2 * 5 + x], 9);
    }
    // Nothing off the row was touched.
    assert_eq!(canvas.buffer.iter().filter(|&&p| p == 9).count(), 5);
}

#[test]
fn draw_line_paints_a_diagonal() {
    let mut canvas = Canvas::new(4, 4);
    canvas.draw_line(0, 0, 3, 3, 5);
    for i in 0..4 {
        assert_eq!(canvas.buffer[i * 4 + i], 5);
    }
    assert_eq!(canvas.buffer.iter().filter(|&&p| p == 5).count(), 4);
}

#[test]
fn draw_line_clips_to_the_canvas() {
    let mut canvas = Canvas::new(3, 3);
    canvas.draw_line(-2, 1, 5, 1, 6);
    for x in 0..3 {
        assert_eq!(canvas.buffer[5 + x - 2], 6);
    }
    assert_eq!(canvas.buffer.iter().filter(|&&p| p == 6).count(), 3);
}

#[test]
fn draw_line_single_point() {
    let mut canvas = Canvas::new(3, 3);
    canvas.draw_line(1, 1, 1, 1, 8);
    assert_eq!(canvas.buffer[4], 8);
    assert_eq!(canvas.buffer.iter().filter(|&&p| p == 8).count(), 1);
}

#[test]
fn from_u8_rgb_packs_channels() {
    assert_eq!(from_u8_rgb(1, 2, 3), 0x010203);
    assert_eq!(from_u8_rgb(255, 255, 255), 0x00FF_FFFF);
    assert_eq!(from_u8_rgb(0, 0, 0), 0);
    assert_eq!(from_u8_rgb(0x12, 0x34, 0x56), 0x123456);
}

#[test]
fn status_color_encodes_the_three_zones() {
    let deviation = 10;
    assert_eq!(status_color(11, deviation), 0xFFFF0000); // slouching: red
    assert_eq!(status_color(10, deviation), 0xFFFFFF00); // drifting: yellow
    assert_eq!(status_color(1, deviation), 0xFFFFFF00);
    assert_eq!(status_color(0, deviation), 0xFF00FF00); // good: green
    assert_eq!(status_color(-50, deviation), 0xFF00FF00);
}

#[test]
fn draw_text_fills_one_block_per_character() {
    let mut canvas = Canvas::new(20, 10);
    draw_text(&mut canvas, "ab", 0, 0, 3);
    // One 6x8 block per character, 8 pixels of advance.
    for ch in 0..2 {
        for dy in 0..8 {
            for dx in 0..6 {
                assert_eq!(canvas.buffer[dy * 20 + ch * 8 + dx], 3);
            }
        }
    }
    assert_eq!(canvas.buffer.iter().filter(|&&p| p == 3).count(), 2 * 6 * 8);
}

#[test]
fn draw_text_empty_string_paints_nothing() {
    let mut canvas = Canvas::new(8, 8);
    draw_text(&mut canvas, "", 0, 0, 3);
    assert!(canvas.buffer.iter().all(|&p| p == 0));
}
