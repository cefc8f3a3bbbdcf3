use dots_wallpaper::canvas::{RandomDotsWallpaper, SCALE};
use dots_wallpaper::color::Color;
use dots_wallpaper::config::{background, RESOLUTION_HD};

const BG: Color = Color { r: 20, g: 20, b: 20 };
const RED: Color = Color { r: 255, g: 0, b: 0 };

fn small_canvas() -> RandomDotsWallpaper {
    RandomDotsWallpaper::new((10, 10), BG)
}

fn assert_all_background(wp: &RandomDotsWallpaper, except: &[(u32, u32, Color)]) {
    for x in 0u32..wp.width() {
        for y in 0u32..wp.height() {
            let want: Color = except
                .iter()
                .find(|e| e.0 == x && e.1 == y)
                .map(|e| e.2)
                .unwrap_or(BG);
            assert_eq!(wp.pixel_at(x, y), want, "pixel ({x}, {y})");
        }
    }
}

#[test]
fn new_fills_every_pixel_with_background() {
    let wp = small_canvas();
    assert_eq!(wp.width(), 10);
    assert_eq!(wp.height(), 10);
    assert_all_background(&wp, &[]);
}

#[test]
fn preset_resolution_canvas_reports_its_size() {
    let wp = RandomDotsWallpaper::new(RESOLUTION_HD, background());
    assert_eq!(wp.width(), 1280);
    assert_eq!(wp.height(), 720);
    assert_eq!(wp.pixel_at(0, 0), background());
    assert_eq!(wp.pixel_at(1279, 719), background());
}

#[test]
fn center_dot_lands_on_half_dimensions() {
    let mut wp = small_canvas();
    wp.add_dot((0, 0), RED);
    assert_all_background(&wp, &[(5, 5, RED)]);
}

#[test]
fn center_dot_on_odd_dimensions_truncates() {
    let mut wp = RandomDotsWallpaper::new((9, 7), BG);
    wp.add_dot((0, 0), RED);
    assert_eq!(wp.pixel_at(4, 3), RED);
}

#[test]
fn dots_outside_the_square_are_dropped() {
    let mut wp = small_canvas();
    wp.add_dot((-SCALE - 1, 0), RED);
    wp.add_dot((SCALE, 0), RED);
    wp.add_dot((0, -SCALE - 1), RED);
    wp.add_dot((0, SCALE), RED);
    wp.add_dot((5 * SCALE, 5 * SCALE), RED);
    wp.add_dot((i64::MIN, i64::MAX), RED);
    assert_all_background(&wp, &[]);
}

#[test]
fn lower_edge_is_drawable_and_upper_edge_is_not() {
    let mut wp = small_canvas();
    // Exactly -1 maps to pixel zero and is written; exactly 1 maps to the
    // dimension itself and is dropped.
    wp.add_dot((-SCALE, 0), RED);
    assert_all_background(&wp, &[(0, 5, RED)]);
}

#[test]
fn just_under_the_upper_edge_hits_the_last_pixel() {
    let mut wp = small_canvas();
    wp.add_dot((SCALE - 1, SCALE - 1), RED);
    assert_all_background(&wp, &[(9, 9, RED)]);
}

#[test]
fn later_writes_overwrite_earlier_ones() {
    let green = Color { r: 0, g: 255, b: 0 };
    let mut wp = small_canvas();
    wp.add_dot((0, 0), RED);
    wp.add_dot((0, 0), green);
    assert_all_background(&wp, &[(5, 5, green)]);
}

#[test]
fn dot_sequence_matches_single_writes() {
    let dots: Vec<(i64, i64, Color)> = vec![
        (0, 0, RED),
        (-SCALE, -SCALE, Color { r: 1, g: 2, b: 3 }),
        (2 * SCALE, 0, RED),
        (500_000, -500_000, Color { r: 9, g: 8, b: 7 }),
        (0, 0, Color { r: 0, g: 255, b: 0 }),
    ];
    let mut by_sequence = small_canvas();
    by_sequence.add_dots(&dots);
    let mut one_by_one = small_canvas();
    for d in &dots {
        one_by_one.add_dot((d.0, d.1), d.2);
    }
    for x in 0u32..10 {
        for y in 0u32..10 {
            assert_eq!(by_sequence.pixel_at(x, y), one_by_one.pixel_at(x, y));
        }
    }
}

#[test]
fn identical_runs_give_identical_pixels() {
    let dots: Vec<(i64, i64, Color)> = vec![
        (123_456, -654_321, Color { r: 10, g: 200, b: 30 }),
        (-999_999, 999_999, RED),
        (0, 0, Color { r: 77, g: 66, b: 55 }),
    ];
    let mut first = small_canvas();
    first.add_dots(&dots);
    let mut second = small_canvas();
    second.add_dots(&dots);
    for x in 0u32..10 {
        for y in 0u32..10 {
            assert_eq!(first.pixel_at(x, y), second.pixel_at(x, y));
        }
    }
}

#[test]
fn saved_image_round_trips_through_the_encoder() {
    let mut wp = small_canvas();
    wp.add_dot((0, 0), RED);
    let path = "/tmp/dots_wallpaper_roundtrip.png";
    wp.into_store().img.save(path).unwrap();
    let decoded = image::open(path).unwrap().into_rgb8();
    assert_eq!(decoded.width(), 10);
    assert_eq!(decoded.height(), 10);
    for x in 0u32..10 {
        for y in 0u32..10 {
            let p = decoded.get_pixel(x, y);
            if x == 5 && y == 5 {
                assert_eq!(p.0, [255, 0, 0]);
            } else {
                assert_eq!(p.0, [20, 20, 20]);
            }
        }
    }
}
