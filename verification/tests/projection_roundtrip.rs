// Round-trip tests: every virtual pixel inside the visible volume, projected
// through the emitted matrix and mapped back through the standard
// NDC-to-pixel transform, must land on the expected physical pixel.

use pixel_camera::{Frac, ProjectionVolume};

fn frac_to_f32(f: Frac) -> f32 {
    (f.num as f32) / (f.den as f32)
}

fn projection_test_for_width_height_zoom(width: i32, height: i32, zoom: i32) {
    let mut volume = ProjectionVolume::default();
    volume.update(width as u32, height as u32, zoom as u32);
    let matrix = volume.get_projection_matrix();
    let m00 = frac_to_f32(matrix.m00);
    let m11 = frac_to_f32(matrix.m11);
    let m30 = frac_to_f32(matrix.m30);
    let m31 = frac_to_f32(matrix.m31);

    let virtual_width = width / zoom;
    let virtual_height = height / zoom;

    let mut vertical: Vec<(i32, f32, f32)> = Vec::new();
    for y in -(virtual_height / 2)..(virtual_height - virtual_height / 2) {
        let clip_y = (y as f32) * m11 + m31;
        let computed = ((clip_y + 1.0) * (height as f32) * 0.5).round();
        let expected = ((y as f32) + ((virtual_height / 2) as f32)) * (zoom as f32);
        vertical.push((y, computed, expected));
    }

    for x in -(virtual_width / 2)..(virtual_width - virtual_width / 2) {
        let clip_x = (x as f32) * m00 + m30;
        let computed_x = ((clip_x + 1.0) * (width as f32) * 0.5).round();
        let expected_x = ((x as f32) + ((virtual_width / 2) as f32)) * (zoom as f32);
        for &(y, computed_y, expected_y) in &vertical {
            if computed_x != expected_x || computed_y != expected_y {
                panic!(
                    "Resolution {}x{} Zoom {} Pixel ({}, {}): got ({}, {}), expected ({}, {})",
                    width, height, zoom, x, y, computed_x, computed_y, expected_x, expected_y,
                );
            }
        }
    }
}

#[test]
fn projection_test_around_240x240() {
    for width in 230..250 {
        for height in 230..250 {
            for zoom in 1..5 {
                projection_test_for_width_height_zoom(width, height, zoom);
            }
        }
    }
}

#[test]
fn projection_test_around_1280x720() {
    for width in 1275..1285 {
        for height in 715..725 {
            for zoom in 2..6 {
                projection_test_for_width_height_zoom(width, height, zoom);
            }
        }
    }
}

#[test]
fn projection_test_around_1920x1080() {
    for width in 1915..1925 {
        for height in 1075..1085 {
            for zoom in 2..6 {
                projection_test_for_width_height_zoom(width, height, zoom);
            }
        }
    }
}

#[test]
fn projection_test_around_3840x2160() {
    for width in 3836..3844 {
        for height in 2156..2164 {
            for zoom in 3..6 {
                projection_test_for_width_height_zoom(width, height, zoom);
            }
        }
    }
}
