use led_preview::render::{pixel_rect, render, DrawOp, PixelRect, OPS_PER_PIXEL};
use led_preview::Color;

fn ramp(pixel_count: usize) -> Vec<Color> {
    let mut frame = Vec::new();
    for i in 0..pixel_count {
        let v = (i % 256) as u8;
        frame.push(Color::new(v, 255 - v, v / 2));
    }
    frame
}

fn rect_of(op: &DrawOp) -> PixelRect {
    match op {
        DrawOp::Rectangle(rect) => *rect,
        other => panic!("expected a rectangle, found {:?}", other),
    }
}

fn left(rect: &PixelRect) -> f64 {
    rect.left_numerator as f64 / rect.divisor as f64
}

fn width(rect: &PixelRect) -> f64 {
    rect.width_numerator as f64 / rect.divisor as f64
}

#[test]
fn fifty_five_pixels_on_a_canvas_of_640() {
    let ops = render(&ramp(55), 640, 100);
    assert_eq!(ops.len(), 220);
    let first = rect_of(&ops[1]);
    let last = rect_of(&ops[4 * 54 + 1]);
    assert!((width(&first) - 11.636).abs() < 0.001);
    assert_eq!(left(&first), 0.0);
    assert!((left(&last) - 628.36).abs() < 0.01);
    assert_eq!(left(&last), 54.0 * 640.0 / 55.0);
    assert_eq!(width(&first), 640.0 / 55.0);
    assert_eq!(first.height, 100);
    assert_eq!(last.height, 100);
}

#[test]
fn each_pixel_is_coloured_outlined_and_filled_in_order() {
    let frame = ramp(9);
    let ops = render(&frame, 90, 20);
    assert_eq!(ops.len(), OPS_PER_PIXEL * 9);
    for (i, colour) in frame.iter().enumerate() {
        assert_eq!(ops[4 * i], DrawOp::SetSource(*colour));
        assert_eq!(
            ops[4 * i + 1],
            DrawOp::Rectangle(PixelRect {
                left_numerator: (i as i128) * 90,
                width_numerator: 90,
                divisor: 9,
                height: 20,
            })
        );
        assert_eq!(ops[4 * i + 2], DrawOp::StrokePreserve);
        assert_eq!(ops[4 * i + 3], DrawOp::Fill);
    }
}

#[test]
fn rectangles_tile_the_canvas() {
    let ops = render(&ramp(55), 640, 100);
    let mut edge: i128 = 0;
    for i in 0..55 {
        let rect = rect_of(&ops[4 * i + 1]);
        assert_eq!(rect.left_numerator, edge);
        assert_eq!(rect.divisor, 55);
        edge = rect.left_numerator + rect.width_numerator as i128;
    }
    assert_eq!(edge, 640 * 55);
}

#[test]
fn rendering_twice_gives_the_same_list() {
    let frame = ramp(55);
    assert_eq!(render(&frame, 640, 100), render(&frame, 640, 100));
    assert_ne!(render(&frame, 640, 100), render(&frame, 641, 100));
    assert_ne!(render(&frame, 640, 100), render(&frame, 640, 101));
}

#[test]
fn an_empty_frame_draws_nothing() {
    let ops = render(&Vec::new(), 640, 100);
    assert!(ops.is_empty());
}

#[test]
fn a_canvas_without_extent_still_gets_every_pixel() {
    let ops = render(&ramp(3), 0, 0);
    assert_eq!(ops.len(), 12);
    for i in 0..3 {
        let rect = rect_of(&ops[4 * i + 1]);
        assert_eq!(rect.left_numerator, 0);
        assert_eq!(rect.width_numerator, 0);
        assert_eq!(rect.height, 0);
    }
}

#[test]
fn negative_sizes_are_carried_through() {
    let ops = render(&ramp(4), -8, -5);
    let third = rect_of(&ops[4 * 2 + 1]);
    assert_eq!(third.left_numerator, -16);
    assert_eq!(third.width_numerator, -8);
    assert_eq!(third.divisor, 4);
    assert_eq!(third.height, -5);
    assert_eq!(left(&third), -4.0);
}

#[test]
fn pixel_rect_is_exact_at_the_extremes() {
    let rect = pixel_rect(usize::MAX, usize::MAX, i32::MIN, i32::MAX);
    assert_eq!(rect.left_numerator, (usize::MAX as i128) * (i32::MIN as i128));
    assert_eq!(rect.width_numerator, i32::MIN);
    assert_eq!(rect.divisor, usize::MAX);
    assert_eq!(rect.height, i32::MAX);
    let wide = pixel_rect(usize::MAX, usize::MAX, i32::MAX, 0);
    assert_eq!(wide.left_numerator, (usize::MAX as i128) * (i32::MAX as i128));
}

#[test]
fn pixel_rect_of_one_column() {
    assert_eq!(
        pixel_rect(3, 10, 200, 50),
        PixelRect { left_numerator: 600, width_numerator: 200, divisor: 10, height: 50 }
    );
}
