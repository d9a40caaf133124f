use hallowden::extraction::{
    is_marker, read_collision_rect, read_map_collisions, try_read_map_collisions, ExtractionError,
};
use hallowden::raster::{get_pixel, height, is_consistent, set_pixel, width, Rgba};
use hallowden::rect::Rect;
use hallowden::solid::Solid;
use macroquad::color::Color;
use macroquad::texture::Image;

const MARKER: Rgba = Rgba { r: 255, g: 0, b: 0, a: 255 };
const BLANK: Rgba = Rgba { r: 0, g: 0, b: 0, a: 0 };

fn blank_image(width: u16, height: u16) -> Image {
    Image::gen_image_color(width, height, Color::from_rgba(0, 0, 0, 0))
}

fn mark(image: &mut Image, x: u32, y: u32) {
    image.set_pixel(x, y, Color::from_rgba(255, 0, 0, 255));
}

fn solid(x: i32, y: i32, w: i32, h: i32) -> Solid {
    Solid { collider: Rect { x, y, w, h } }
}

#[test]
fn single_rectangle_is_read_with_its_corners() {
    let mut image = blank_image(8, 10);
    mark(&mut image, 2, 3);
    mark(&mut image, 5, 3);
    mark(&mut image, 2, 7);
    mark(&mut image, 5, 7);
    let solids = read_map_collisions(image).unwrap();
    assert_eq!(solids, vec![solid(2, 3, 4, 5)]);
}

#[test]
fn marker_without_right_bound_fails() {
    let mut image = blank_image(8, 10);
    mark(&mut image, 2, 3);
    mark(&mut image, 2, 7);
    assert_eq!(
        read_map_collisions(image),
        Err(ExtractionError::MissingRightBound { left: 2, top: 3 })
    );
}

#[test]
fn marker_in_the_last_column_has_no_right_bound() {
    let mut image = blank_image(4, 4);
    mark(&mut image, 3, 0);
    mark(&mut image, 0, 1);
    assert_eq!(
        read_map_collisions(image),
        Err(ExtractionError::MissingRightBound { left: 3, top: 0 })
    );
}

#[test]
fn marker_without_bottom_bound_fails() {
    let mut image = blank_image(8, 10);
    mark(&mut image, 2, 3);
    mark(&mut image, 5, 3);
    mark(&mut image, 5, 7);
    assert_eq!(
        read_map_collisions(image),
        Err(ExtractionError::MissingBottomBound { left: 2, right: 5, top: 3 })
    );
}

#[test]
fn image_without_markers_has_no_obstacles() {
    assert_eq!(read_map_collisions(blank_image(16, 9)), Ok(vec![]));
    assert_eq!(read_map_collisions(blank_image(0, 0)), Ok(vec![]));
    assert_eq!(read_map_collisions(blank_image(5, 0)), Ok(vec![]));
    assert_eq!(read_map_collisions(blank_image(0, 5)), Ok(vec![]));
}

#[test]
fn other_colours_are_not_markers() {
    let mut image = Image::gen_image_color(6, 6, Color::from_rgba(254, 0, 0, 255));
    image.set_pixel(1, 1, Color::from_rgba(255, 0, 0, 254));
    image.set_pixel(2, 2, Color::from_rgba(255, 1, 0, 255));
    image.set_pixel(3, 3, Color::from_rgba(255, 0, 1, 255));
    assert_eq!(read_map_collisions(image), Ok(vec![]));
    assert!(is_marker(MARKER));
    assert!(!is_marker(BLANK));
    assert!(!is_marker(Rgba { r: 255, g: 0, b: 0, a: 0 }));
}

#[test]
fn rectangles_come_in_reading_order() {
    let mut image = blank_image(12, 12);
    let corners = [
        (5, 2), (9, 2), (5, 6), (9, 6), (1, 1), (3, 1), (1, 4), (3, 4), (0, 8), (11, 8), (0, 11),
        (11, 11),
    ];
    for (x, y) in corners {
        mark(&mut image, x, y);
    }
    assert_eq!(
        read_map_collisions(image),
        Ok(vec![solid(1, 1, 3, 4), solid(5, 2, 5, 5), solid(0, 8, 12, 4)])
    );
}

#[test]
fn rectangles_side_by_side_in_the_same_rows() {
    let mut image = blank_image(10, 5);
    for (x, y) in [(0, 1), (2, 1), (4, 1), (7, 1), (0, 3), (2, 3), (4, 3), (7, 3)] {
        mark(&mut image, x, y);
    }
    assert_eq!(read_map_collisions(image), Ok(vec![solid(0, 1, 3, 3), solid(4, 1, 4, 3)]));
}

#[test]
fn smallest_rectangle_is_two_by_two() {
    let mut image = blank_image(3, 3);
    for (x, y) in [(1, 1), (2, 1), (1, 2), (2, 2)] {
        mark(&mut image, x, y);
    }
    assert_eq!(read_map_collisions(image), Ok(vec![solid(1, 1, 2, 2)]));
}

#[test]
fn width_and_height_are_not_confused() {
    let mut image = blank_image(9, 3);
    for (x, y) in [(0, 0), (8, 0), (0, 2), (8, 2)] {
        mark(&mut image, x, y);
    }
    assert_eq!(width(&image), 9);
    assert_eq!(height(&image), 3);
    assert_eq!(read_map_collisions(image), Ok(vec![solid(0, 0, 9, 3)]));
}

#[test]
fn reading_a_rectangle_clears_its_corners() {
    let mut image = blank_image(8, 10);
    mark(&mut image, 2, 3);
    mark(&mut image, 5, 3);
    mark(&mut image, 2, 7);
    mark(&mut image, 6, 7);
    let rect = read_collision_rect(&mut image, 2, 3);
    assert_eq!(rect, Ok(Rect { x: 2, y: 3, w: 4, h: 5 }));
    assert_eq!(get_pixel(&image, 2, 3), BLANK);
    assert_eq!(get_pixel(&image, 5, 3), BLANK);
    assert_eq!(get_pixel(&image, 2, 7), BLANK);
    assert_eq!(get_pixel(&image, 5, 7), BLANK);
    assert_eq!(get_pixel(&image, 6, 7), MARKER);
    assert_eq!(get_pixel(&image, 0, 0), BLANK);
}

#[test]
fn failed_reading_leaves_the_image() {
    let mut image = blank_image(8, 10);
    mark(&mut image, 2, 3);
    mark(&mut image, 5, 3);
    let before = image.bytes.clone();
    assert_eq!(
        read_collision_rect(&mut image, 2, 3),
        Err(ExtractionError::MissingBottomBound { left: 2, right: 5, top: 3 })
    );
    assert_eq!(image.bytes, before);
    assert_eq!(
        read_collision_rect(&mut image, 5, 3),
        Err(ExtractionError::MissingRightBound { left: 5, top: 3 })
    );
    assert_eq!(image.bytes, before);
}

#[test]
fn every_byte_value_survives_writing_and_reading() {
    let mut image = blank_image(4, 2);
    for v in 0..=255u8 {
        let p = Rgba { r: v, g: 255 - v, b: v ^ 0x55, a: v.wrapping_mul(7) };
        set_pixel(&mut image, 3, 1, p);
        assert_eq!(get_pixel(&image, 3, 1), p);
        assert_eq!(&image.bytes[28..32], &[p.r, p.g, p.b, p.a]);
    }
    assert_eq!(&image.bytes[..28], &[0u8; 28]);
    assert_eq!(image.width, 4);
    assert_eq!(image.height, 2);
}

#[test]
fn pixels_are_stored_row_after_row() {
    let mut image = blank_image(3, 2);
    set_pixel(&mut image, 1, 0, Rgba { r: 1, g: 2, b: 3, a: 4 });
    set_pixel(&mut image, 0, 1, Rgba { r: 5, g: 6, b: 7, a: 8 });
    assert_eq!(
        image.bytes,
        vec![0, 0, 0, 0, 1, 2, 3, 4, 0, 0, 0, 0, 5, 6, 7, 8, 0, 0, 0, 0, 0, 0, 0, 0]
    );
    let raw = Image { bytes: (0..24).collect(), width: 3, height: 2 };
    assert_eq!(get_pixel(&raw, 2, 0), Rgba { r: 8, g: 9, b: 10, a: 11 });
    assert_eq!(get_pixel(&raw, 1, 1), Rgba { r: 16, g: 17, b: 18, a: 19 });
}

#[test]
fn consistency_compares_buffer_and_size() {
    assert!(is_consistent(&blank_image(7, 5)));
    assert!(is_consistent(&Image { bytes: vec![], width: 0, height: 9 }));
    assert!(!is_consistent(&Image { bytes: vec![0; 7], width: 2, height: 2 }));
    assert!(!is_consistent(&Image { bytes: vec![0; 16], width: 2, height: 3 }));
    assert!(!is_consistent(&Image { bytes: vec![0; 4], width: 0, height: 0 }));
}

#[test]
fn inconsistent_image_is_not_read() {
    let image = Image { bytes: vec![0; 7], width: 2, height: 2 };
    assert_eq!(try_read_map_collisions(image), None);
}

#[test]
fn consistent_image_is_read() {
    let mut image = blank_image(8, 10);
    mark(&mut image, 2, 3);
    mark(&mut image, 5, 3);
    mark(&mut image, 2, 7);
    mark(&mut image, 5, 7);
    assert_eq!(try_read_map_collisions(image), Some(Ok(vec![solid(2, 3, 4, 5)])));
    let mut broken = blank_image(8, 10);
    mark(&mut broken, 2, 3);
    assert_eq!(
        try_read_map_collisions(broken),
        Some(Err(ExtractionError::MissingRightBound { left: 2, top: 3 }))
    );
}
