use terrain_engine::png_loader::PngLoader;
use terrain_engine::terrain_grid::{normal_sample_points, GridPoint, HeightField, HALF_PIXEL_COLOUR};

fn uniform_image(side: usize, r: u8, g: u8, b: u8) -> PngLoader {
    let mut pixels = Vec::new();
    for _ in 0..side * side {
        pixels.push(r);
        pixels.push(g);
        pixels.push(b);
    }
    let mut image = PngLoader::new();
    assert!(image.load_pixels(side, side, pixels).is_ok());
    image
}

fn gp(x: usize, z: usize) -> GridPoint {
    GridPoint { x, z }
}

#[test]
fn mid_gray_heightmap_sits_just_above_the_middle() {
    let image = uniform_image(3, 128, 128, 128);
    let field = HeightField::from_image(0, 0, &image).unwrap();
    for x in 0..3 {
        for z in 0..3 {
            assert_eq!(field.get_sample(x, z), Some(0x808080 - HALF_PIXEL_COLOUR));
            assert_eq!(field.get_sample(x, z), Some(32896));
        }
    }
}

#[test]
fn samples_span_half_the_colour_range_each_way() {
    let black = HeightField::from_image(0, 0, &uniform_image(2, 0, 0, 0)).unwrap();
    assert_eq!(black.get_sample(1, 1), Some(-8388608));
    let white = HeightField::from_image(0, 0, &uniform_image(2, 255, 255, 255)).unwrap();
    assert_eq!(white.get_sample(0, 1), Some(8388607));
}

#[test]
fn sample_x_is_the_pixel_column_and_z_the_row() {
    // 2 x 2 image, pixel (column, row) has blue = 10 * column + row.
    let pixels = vec![0, 0, 0, 0, 0, 10, 0, 0, 1, 0, 0, 11];
    let mut image = PngLoader::new();
    image.load_pixels(2, 2, pixels).unwrap();
    let field = HeightField::from_image(3, -2, &image).unwrap();
    assert_eq!(field.get_tile_x(), 3);
    assert_eq!(field.get_tile_z(), -2);
    assert_eq!(field.get_vertex_count(), 2);
    assert_eq!(field.get_sample(0, 0), Some(-HALF_PIXEL_COLOUR));
    assert_eq!(field.get_sample(1, 0), Some(10 - HALF_PIXEL_COLOUR));
    assert_eq!(field.get_sample(0, 1), Some(1 - HALF_PIXEL_COLOUR));
    assert_eq!(field.get_sample(1, 1), Some(11 - HALF_PIXEL_COLOUR));
}

#[test]
fn samples_outside_the_grid_are_absent() {
    let field = HeightField::from_image(0, 0, &uniform_image(3, 1, 2, 3)).unwrap();
    assert_eq!(field.get_sample(3, 0), None);
    assert_eq!(field.get_sample(0, 3), None);
    assert_eq!(field.get_sample(2, 2), Some(66051 - HALF_PIXEL_COLOUR));
}

#[test]
fn non_square_or_tiny_heightmaps_are_refused() {
    let mut wide = PngLoader::new();
    wide.load_pixels(3, 2, vec![0; 18]).unwrap();
    assert!(HeightField::from_image(0, 0, &wide).is_none());
    assert!(HeightField::from_image(0, 0, &uniform_image(1, 5, 5, 5)).is_none());
    assert!(HeightField::from_image(0, 0, &PngLoader::new()).is_none());
}

#[test]
fn two_by_two_grid_has_one_cell_of_two_triangles() {
    let field = HeightField::from_image(0, 0, &uniform_image(2, 0, 0, 0)).unwrap();
    assert_eq!(field.generate_indices(), vec![0, 2, 1, 1, 2, 3]);
}

#[test]
fn three_by_three_grid_indices_go_cell_by_cell_row_by_row() {
    let field = HeightField::from_image(0, 0, &uniform_image(3, 0, 0, 0)).unwrap();
    let indices = field.generate_indices();
    assert_eq!(indices.len(), 24);
    assert_eq!(&indices[0..6], &[0, 3, 1, 1, 3, 4]);
    assert_eq!(&indices[6..12], &[1, 4, 2, 2, 4, 5]);
    assert_eq!(&indices[12..18], &[3, 6, 4, 4, 6, 7]);
    assert_eq!(&indices[18..24], &[4, 7, 5, 5, 7, 8]);
}

#[test]
fn triangle_corners_follow_the_diagonal_split() {
    let field = HeightField::from_image(0, 0, &uniform_image(4, 0, 0, 0)).unwrap();
    assert_eq!(field.triangle_at(1, 2, true), Some((gp(1, 2), gp(2, 2), gp(1, 3))));
    assert_eq!(field.triangle_at(1, 2, false), Some((gp(2, 2), gp(2, 3), gp(1, 3))));
    assert_eq!(field.triangle_at(0, 0, true), Some((gp(0, 0), gp(1, 0), gp(0, 1))));
}

#[test]
fn cells_on_or_past_the_last_vertex_have_no_triangle() {
    let field = HeightField::from_image(0, 0, &uniform_image(4, 0, 0, 0)).unwrap();
    assert_eq!(field.triangle_at(3, 0, true), None);
    assert_eq!(field.triangle_at(0, 3, false), None);
    assert_eq!(field.triangle_at(i64::MAX, 1, true), None);
    assert!(field.triangle_at(2, 2, false).is_some());
}

#[test]
fn triangle_choice_is_the_same_on_every_call() {
    let field = HeightField::from_image(0, 0, &uniform_image(4, 9, 9, 9)).unwrap();
    for _ in 0..3 {
        assert_eq!(field.triangle_at(2, 1, true), field.triangle_at(2, 1, true));
        assert_eq!(field.get_sample(2, 1), field.get_sample(2, 1));
    }
}

#[test]
fn normal_samples_clamp_at_the_edge() {
    assert_eq!(normal_sample_points(0, 0), (gp(0, 0), gp(0, 0), gp(0, 0), gp(0, 0)));
    assert_eq!(normal_sample_points(5, 7), (gp(4, 7), gp(5, 7), gp(5, 6), gp(5, 7)));
}

#[test]
fn decoded_heightmap_builds_a_field() {
    let mut bytes = Vec::new();
    image::png::PNGEncoder::new(&mut bytes)
        .encode(&[128, 128, 128, 0, 0, 0, 255, 255, 255, 128, 0, 0], 2, 2, image::ColorType::RGB(8))
        .unwrap();
    let rgb = image::load_from_memory(&bytes).unwrap().to_rgb();
    let (width, height) = rgb.dimensions();
    let mut image = PngLoader::new();
    image.load_pixels(width as usize, height as usize, rgb.into_raw()).unwrap();
    let field = HeightField::from_image(0, 0, &image).unwrap();
    assert_eq!(field.get_sample(0, 0), Some(32896));
    assert_eq!(field.get_sample(1, 0), Some(-8388608));
    assert_eq!(field.get_sample(0, 1), Some(8388607));
    assert_eq!(field.get_sample(1, 1), Some(0));
}

#[test]
fn query_triangles_are_the_drawn_triangles() {
    let field = HeightField::from_image(0, 0, &uniform_image(3, 0, 0, 0)).unwrap();
    let indices = field.generate_indices();
    let n = field.get_vertex_count();
    let index = |p: GridPoint| (p.z * n + p.x) as u32;
    for gz in 0..2i64 {
        for gx in 0..2i64 {
            let base = 6 * (gz * 2 + gx) as usize;
            let (a, b, c) = field.triangle_at(gx, gz, true).unwrap();
            assert_eq!(
                (index(a), index(b), index(c)),
                (indices[base], indices[base + 2], indices[base + 1])
            );
            let (a, b, c) = field.triangle_at(gx, gz, false).unwrap();
            assert_eq!(
                (index(a), index(b), index(c)),
                (indices[base + 3], indices[base + 5], indices[base + 4])
            );
        }
    }
}

#[test]
fn cells_before_the_first_vertex_have_no_triangle() {
    let field = HeightField::from_image(0, 0, &uniform_image(4, 0, 0, 0)).unwrap();
    assert_eq!(field.triangle_at(-1, 0, true), None);
    assert_eq!(field.triangle_at(0, -1, false), None);
    assert_eq!(field.triangle_at(i64::MIN, i64::MIN, true), None);
}
