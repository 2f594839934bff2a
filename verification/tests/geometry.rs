use nine_slice::geometry::{
    calculate_nine_slice_destinations, calculate_nine_slice_uvs, check_geometry,
    derive_border_thickness, DegenerateGeometryError, Pos2, Rect, TextureSize, UvRect, Vec2,
    NINE_SLICE_BORDER_SIZE_FROM_TEXTURE_SIZE_CONVERSION_FACTOR, UNITS_PER_PIXEL,
};

fn rect(x0: i64, y0: i64, x1: i64, y1: i64) -> Rect {
    Rect { min: Pos2 { x: x0, y: y0 }, max: Pos2 { x: x1, y: y1 } }
}

fn uv(x0: i64, y0: i64, x1: i64, y1: i64, w: i64, h: i64) -> UvRect {
    UvRect { min: Pos2 { x: x0, y: y0 }, max: Pos2 { x: x1, y: y1 }, size: Vec2 { x: w, y: h } }
}

fn degenerate(horizontal: bool, vertical: bool) -> DegenerateGeometryError {
    DegenerateGeometryError { horizontal, vertical }
}

fn width(r: &Rect) -> i64 {
    r.max.x - r.min.x
}

fn height(r: &Rect) -> i64 {
    r.max.y - r.min.y
}

fn holds(r: &Rect, x: i64, y: i64) -> bool {
    r.min.x <= x && x < r.max.x && r.min.y <= y && y < r.max.y
}

#[test]
fn constants_are_four() {
    assert_eq!(UNITS_PER_PIXEL, 4);
    assert_eq!(NINE_SLICE_BORDER_SIZE_FROM_TEXTURE_SIZE_CONVERSION_FACTOR, 4);
}

#[test]
fn rect_from_min_max_keeps_corners() {
    let r = Rect::from_min_max(Pos2 { x: 1, y: 2 }, Pos2 { x: 3, y: 5 });
    assert_eq!(r, rect(1, 2, 3, 5));
}

#[test]
fn texture_extent_is_in_layout_units() {
    let size = TextureSize { width: 64, height: 10 };
    assert_eq!(size.extent(), Vec2 { x: 256, y: 40 });
    let largest = TextureSize { width: u32::MAX, height: u32::MAX };
    assert_eq!(largest.extent().x, 4 * (u32::MAX as i64));
}

#[test]
fn border_thickness_is_a_quarter_of_the_texture() {
    let border = derive_border_thickness(&TextureSize { width: 64, height: 64 });
    assert_eq!(border, Vec2 { x: 64, y: 64 });
    assert_eq!(border.x as f64 / UNITS_PER_PIXEL as f64, 16.0);
    assert_eq!(border.y as f64 / UNITS_PER_PIXEL as f64, 16.0);
}

#[test]
fn border_thickness_is_exact_for_sizes_not_divisible_by_four() {
    let border = derive_border_thickness(&TextureSize { width: 10, height: 7 });
    assert_eq!(border, Vec2 { x: 10, y: 7 });
    assert_eq!(border.x as f64 / UNITS_PER_PIXEL as f64, 2.5);
    assert_eq!(border.y as f64 / UNITS_PER_PIXEL as f64, 1.75);
}

#[test]
fn border_thickness_of_an_empty_texture_is_zero() {
    let border = derive_border_thickness(&TextureSize { width: 0, height: 0 });
    assert_eq!(border, Vec2 { x: 0, y: 0 });
}

#[test]
fn destinations_of_a_hundred_square_with_border_ten() {
    let regions =
        calculate_nine_slice_destinations(&rect(0, 0, 100, 100), &Vec2 { x: 10, y: 10 }).unwrap();
    assert_eq!(
        regions,
        vec![
            rect(0, 0, 10, 10),
            rect(10, 0, 90, 10),
            rect(90, 0, 100, 10),
            rect(0, 10, 10, 90),
            rect(10, 10, 90, 90),
            rect(90, 10, 100, 90),
            rect(0, 90, 10, 100),
            rect(10, 90, 90, 100),
            rect(90, 90, 100, 100),
        ]
    );
    for corner in [0usize, 2, 6, 8] {
        assert_eq!((width(&regions[corner]), height(&regions[corner])), (10, 10));
    }
    for edge in [1usize, 7] {
        assert_eq!((width(&regions[edge]), height(&regions[edge])), (80, 10));
    }
    for edge in [3usize, 5] {
        assert_eq!((width(&regions[edge]), height(&regions[edge])), (10, 80));
    }
}

#[test]
fn destinations_follow_an_offset_target() {
    let regions =
        calculate_nine_slice_destinations(&rect(-30, 5, 70, 45), &Vec2 { x: 8, y: 3 }).unwrap();
    assert_eq!(regions.len(), 9);
    assert_eq!(regions[0], rect(-30, 5, -22, 8));
    assert_eq!(regions[4], rect(-22, 8, 62, 42));
    assert_eq!(regions[5], rect(62, 8, 70, 42));
    assert_eq!(regions[8], rect(62, 42, 70, 45));
}

#[test]
fn destinations_with_no_border_are_the_centre_alone() {
    let target = rect(3, 4, 30, 40);
    let regions = calculate_nine_slice_destinations(&target, &Vec2 { x: 0, y: 0 }).unwrap();
    assert_eq!(regions[4], target);
    assert_eq!(regions[0], rect(3, 4, 3, 4));
    assert_eq!(regions[8], rect(30, 40, 30, 40));
}

#[test]
fn destinations_tile_the_target() {
    let target = rect(-3, 2, 9, 13);
    let regions = calculate_nine_slice_destinations(&target, &Vec2 { x: 2, y: 4 }).unwrap();
    let mut area = 0;
    for r in &regions {
        assert!(r.min.x <= r.max.x && r.min.y <= r.max.y);
        area += width(r) * height(r);
    }
    assert_eq!(area, width(&target) * height(&target));
    for x in -5..12 {
        for y in 0..16 {
            let count = regions.iter().filter(|r| holds(r, x, y)).count();
            let expected = if holds(&target, x, y) { 1 } else { 0 };
            assert_eq!(count, expected);
        }
    }
}

#[test]
fn destinations_reach_the_ends_of_the_integers() {
    let target = rect(i64::MIN, i64::MIN, i64::MAX, i64::MAX);
    let regions =
        calculate_nine_slice_destinations(&target, &Vec2 { x: i64::MAX, y: 1 }).unwrap();
    assert_eq!(regions[4], rect(-1, i64::MIN + 1, 0, i64::MAX - 1));
    assert_eq!(regions[0], rect(i64::MIN, i64::MIN, -1, i64::MIN + 1));
}

#[test]
fn border_of_half_the_width_collapses_the_centre_column() {
    let regions =
        calculate_nine_slice_destinations(&rect(0, 0, 20, 100), &Vec2 { x: 10, y: 10 }).unwrap();
    assert_eq!(regions[4], rect(10, 10, 10, 90));
    assert_eq!(width(&regions[1]), 0);
    assert_eq!(width(&regions[7]), 0);
    for r in &regions {
        assert!(r.min.x <= r.max.x);
        assert!(r.min.y <= r.max.y);
    }
}

#[test]
fn border_of_half_the_height_collapses_the_centre_row() {
    let regions =
        calculate_nine_slice_destinations(&rect(0, 0, 100, 20), &Vec2 { x: 10, y: 10 }).unwrap();
    assert_eq!(regions[4], rect(10, 10, 90, 10));
    for r in &regions {
        assert!(r.min.x <= r.max.x);
        assert!(r.min.y <= r.max.y);
    }
}

#[test]
fn border_beyond_half_is_refused() {
    assert_eq!(
        calculate_nine_slice_destinations(&rect(0, 0, 10, 10), &Vec2 { x: 6, y: 1 }),
        Err(degenerate(true, false))
    );
    assert_eq!(
        calculate_nine_slice_destinations(&rect(0, 0, 10, 10), &Vec2 { x: 1, y: 6 }),
        Err(degenerate(false, true))
    );
    assert_eq!(
        calculate_nine_slice_destinations(&rect(0, 0, 10, 10), &Vec2 { x: 6, y: 6 }),
        Err(degenerate(true, true))
    );
}

#[test]
fn negative_border_is_refused() {
    assert_eq!(
        calculate_nine_slice_destinations(&rect(0, 0, 10, 10), &Vec2 { x: -1, y: 1 }),
        Err(degenerate(true, false))
    );
    assert_eq!(
        calculate_nine_slice_destinations(&rect(0, 0, 10, 10), &Vec2 { x: 1, y: i64::MIN }),
        Err(degenerate(false, true))
    );
}

#[test]
fn inverted_target_is_refused() {
    assert_eq!(
        calculate_nine_slice_destinations(&rect(10, 0, 0, 10), &Vec2 { x: 0, y: 0 }),
        Err(degenerate(true, false))
    );
    assert_eq!(
        calculate_nine_slice_destinations(
            &rect(i64::MAX, i64::MAX, i64::MIN, i64::MIN),
            &Vec2 { x: 0, y: 0 }
        ),
        Err(degenerate(true, true))
    );
}

#[test]
fn uvs_of_a_texture_of_sixty_four_pixels() {
    let size = TextureSize { width: 64, height: 64 };
    let uvs = calculate_nine_slice_uvs(&size.extent(), &derive_border_thickness(&size)).unwrap();
    assert_eq!(
        uvs,
        vec![
            uv(0, 0, 64, 64, 256, 256),
            uv(64, 0, 192, 64, 256, 256),
            uv(192, 0, 256, 64, 256, 256),
            uv(0, 64, 64, 192, 256, 256),
            uv(64, 64, 192, 192, 256, 256),
            uv(192, 64, 256, 192, 256, 256),
            uv(0, 192, 64, 256, 256, 256),
            uv(64, 192, 192, 256, 256, 256),
            uv(192, 192, 256, 256, 256, 256),
        ]
    );
    let top_left = uvs[0];
    assert_eq!(top_left.min.x as f64 / top_left.size.x as f64, 0.0);
    assert_eq!(top_left.min.y as f64 / top_left.size.y as f64, 0.0);
    assert_eq!(top_left.max.x as f64 / top_left.size.x as f64, 0.25);
    assert_eq!(top_left.max.y as f64 / top_left.size.y as f64, 0.25);
}

#[test]
fn uvs_with_a_free_border() {
    let uvs = calculate_nine_slice_uvs(&Vec2 { x: 100, y: 50 }, &Vec2 { x: 10, y: 20 }).unwrap();
    assert_eq!(uvs.len(), 9);
    assert_eq!(uvs[1], uv(10, 0, 90, 20, 100, 50));
    assert_eq!(uvs[4], uv(10, 20, 90, 30, 100, 50));
    assert_eq!(uvs[6], uv(0, 30, 10, 50, 100, 50));
}

#[test]
fn uvs_with_a_border_of_half_the_texture_have_an_empty_centre() {
    let uvs = calculate_nine_slice_uvs(&Vec2 { x: 100, y: 50 }, &Vec2 { x: 50, y: 10 }).unwrap();
    assert_eq!(uvs[4], uv(50, 10, 50, 40, 100, 50));
}

#[test]
fn uvs_of_a_texture_without_extent_are_refused() {
    assert_eq!(
        calculate_nine_slice_uvs(&Vec2 { x: 0, y: 256 }, &Vec2 { x: 0, y: 64 }),
        Err(degenerate(true, false))
    );
    assert_eq!(
        calculate_nine_slice_uvs(&Vec2 { x: 256, y: 0 }, &Vec2 { x: 64, y: 0 }),
        Err(degenerate(false, true))
    );
    assert_eq!(
        calculate_nine_slice_uvs(&Vec2 { x: -4, y: i64::MIN }, &Vec2 { x: 0, y: 0 }),
        Err(degenerate(true, true))
    );
}

#[test]
fn uvs_with_a_border_that_does_not_fit_are_refused() {
    assert_eq!(
        calculate_nine_slice_uvs(&Vec2 { x: 100, y: 50 }, &Vec2 { x: 51, y: 10 }),
        Err(degenerate(true, false))
    );
    assert_eq!(
        calculate_nine_slice_uvs(&Vec2 { x: 100, y: 50 }, &Vec2 { x: 10, y: -1 }),
        Err(degenerate(false, true))
    );
    assert_eq!(
        calculate_nine_slice_uvs(&Vec2 { x: i64::MAX, y: 1 }, &Vec2 { x: i64::MAX, y: 1 }),
        Err(degenerate(true, true))
    );
}

#[test]
fn texture_uvs_tile_the_unit_square_and_the_centre_is_a_quarter() {
    let size = TextureSize { width: 10, height: 6 };
    let extent = size.extent();
    let border = derive_border_thickness(&size);
    let uvs = calculate_nine_slice_uvs(&extent, &border).unwrap();
    let mut area = 0;
    for u in &uvs {
        assert_eq!(u.size, extent);
        assert!(0 <= u.min.x && u.min.x < u.max.x && u.max.x <= extent.x);
        assert!(0 <= u.min.y && u.min.y < u.max.y && u.max.y <= extent.y);
        area += (u.max.x - u.min.x) * (u.max.y - u.min.y);
    }
    assert_eq!(area, extent.x * extent.y);
    let centre = uvs[4];
    assert_eq!(centre.max.x - centre.min.x, extent.x - 2 * border.x);
    assert_eq!(centre.max.y - centre.min.y, extent.y - 2 * border.y);
    assert_eq!(centre.min.x as f64 / extent.x as f64, 0.25);
    assert_eq!(centre.max.y as f64 / extent.y as f64, 0.75);
    let share = ((centre.max.x - centre.min.x) as f64 / extent.x as f64)
        * ((centre.max.y - centre.min.y) as f64 / extent.y as f64);
    assert_eq!(share, 0.25);
}

#[test]
fn destination_and_uv_of_one_index_are_the_same_cell() {
    let texture = Vec2 { x: 256, y: 128 };
    let border = Vec2 { x: 64, y: 32 };
    let target = rect(100, 200, 900, 400);
    let uvs = calculate_nine_slice_uvs(&texture, &border).unwrap();
    let destinations = calculate_nine_slice_destinations(&target, &border).unwrap();
    let uv_x = [0, 64, 192, 256];
    let uv_y = [0, 32, 96, 128];
    let to_x = [100, 164, 836, 900];
    let to_y = [200, 232, 368, 400];
    for i in 0..9 {
        let (row, col) = (i / 3, i % 3);
        assert_eq!(uvs[i], uv(uv_x[col], uv_y[row], uv_x[col + 1], uv_y[row + 1], 256, 128));
        assert_eq!(destinations[i], rect(to_x[col], to_y[row], to_x[col + 1], to_y[row + 1]));
    }
}

#[test]
fn destination_is_similar_to_uv_where_the_target_is_as_large_as_the_texture() {
    let texture = Vec2 { x: 40, y: 24 };
    let border = Vec2 { x: 10, y: 6 };
    let target = rect(100, 200, 140, 224);
    let uvs = calculate_nine_slice_uvs(&texture, &border).unwrap();
    let destinations = calculate_nine_slice_destinations(&target, &border).unwrap();
    for i in 0..9 {
        let (d, u) = (destinations[i], uvs[i]);
        assert_eq!((d.min.x - target.min.x) * u.size.x, u.min.x * width(&target));
        assert_eq!((d.min.y - target.min.y) * u.size.y, u.min.y * height(&target));
        assert_eq!(width(&d) * u.size.x, (u.max.x - u.min.x) * width(&target));
        assert_eq!(height(&d) * u.size.y, (u.max.y - u.min.y) * height(&target));
    }
}

#[test]
fn centre_destination_for_a_texture_of_sixty_four_pixels() {
    let size = TextureSize { width: 64, height: 64 };
    let border = derive_border_thickness(&size);
    let target = rect(0, 0, 200 * UNITS_PER_PIXEL, 50 * UNITS_PER_PIXEL);
    let destinations = calculate_nine_slice_destinations(&target, &border).unwrap();
    let centre = destinations[4];
    assert_eq!(
        centre,
        rect(
            16 * UNITS_PER_PIXEL,
            16 * UNITS_PER_PIXEL,
            184 * UNITS_PER_PIXEL,
            34 * UNITS_PER_PIXEL
        )
    );
    let unit = UNITS_PER_PIXEL as f64;
    assert_eq!((centre.min.x as f64 / unit, centre.min.y as f64 / unit), (16.0, 16.0));
    assert_eq!((centre.max.x as f64 / unit, centre.max.y as f64 / unit), (184.0, 34.0));
}

#[test]
fn geometry_with_a_fitting_border_is_accepted() {
    assert_eq!(check_geometry(&rect(0, 0, 100, 100), &Vec2 { x: 10, y: 10 }), Ok(()));
    assert_eq!(check_geometry(&rect(0, 0, 100, 100), &Vec2 { x: 0, y: 0 }), Ok(()));
}

#[test]
fn geometry_with_a_border_of_exactly_half_is_accepted() {
    assert_eq!(check_geometry(&rect(0, 0, 20, 100), &Vec2 { x: 10, y: 10 }), Ok(()));
    assert_eq!(check_geometry(&rect(0, 0, 20, 20), &Vec2 { x: 10, y: 10 }), Ok(()));
    assert_eq!(check_geometry(&rect(5, 5, 5, 5), &Vec2 { x: 0, y: 0 }), Ok(()));
}

#[test]
fn geometry_degenerate_on_the_horizontal_axis_is_reported() {
    assert_eq!(
        check_geometry(&rect(0, 0, 19, 100), &Vec2 { x: 10, y: 10 }),
        Err(degenerate(true, false))
    );
    assert_eq!(
        check_geometry(&rect(0, 0, 100, 100), &Vec2 { x: -1, y: 10 }),
        Err(degenerate(true, false))
    );
}

#[test]
fn geometry_degenerate_on_the_vertical_axis_is_reported() {
    assert_eq!(
        check_geometry(&rect(0, 0, 100, 19), &Vec2 { x: 10, y: 10 }),
        Err(degenerate(false, true))
    );
    assert_eq!(
        check_geometry(&rect(0, 0, 100, 100), &Vec2 { x: 10, y: -1 }),
        Err(degenerate(false, true))
    );
}

#[test]
fn geometry_degenerate_on_both_axes_is_reported() {
    assert_eq!(
        check_geometry(&rect(0, 0, 10, 10), &Vec2 { x: 6, y: 6 }),
        Err(degenerate(true, true))
    );
}

#[test]
fn geometry_is_checked_at_the_ends_of_the_integers() {
    assert_eq!(
        check_geometry(
            &rect(i64::MIN, i64::MIN, i64::MAX, i64::MAX),
            &Vec2 { x: i64::MAX, y: i64::MAX }
        ),
        Ok(())
    );
    assert_eq!(
        check_geometry(&rect(i64::MIN, 0, i64::MAX, 10), &Vec2 { x: i64::MAX, y: 6 }),
        Err(degenerate(false, true))
    );
    assert_eq!(
        check_geometry(&rect(i64::MAX, 0, i64::MIN, 10), &Vec2 { x: i64::MIN, y: 1 }),
        Err(degenerate(true, false))
    );
    assert_eq!(
        check_geometry(&rect(0, 0, 0, 10), &Vec2 { x: i64::MAX, y: 1 }),
        Err(degenerate(true, false))
    );
}
