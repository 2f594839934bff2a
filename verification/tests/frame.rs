use nine_slice::frame::{frame_area, inner_area, Margin};
use nine_slice::geometry::{
    calculate_nine_slice_destinations, derive_border_thickness, Pos2, Rect, TextureSize, Vec2,
};

fn rect(x0: i64, y0: i64, x1: i64, y1: i64) -> Rect {
    Rect { min: Pos2 { x: x0, y: y0 }, max: Pos2 { x: x1, y: y1 } }
}

fn margin(left: i64, right: i64, top: i64, bottom: i64) -> Margin {
    Margin { left, right, top, bottom }
}

#[test]
fn margin_widens_by_the_border_on_all_sides() {
    let widened = margin(1, 2, 3, 4).widen(&Vec2 { x: 10, y: 20 });
    assert_eq!(widened, Some(margin(11, 12, 23, 24)));
    assert_eq!(margin(0, 0, 0, 0).widen(&Vec2 { x: 0, y: 0 }), Some(margin(0, 0, 0, 0)));
}

#[test]
fn margin_that_cannot_be_widened_is_refused() {
    assert_eq!(margin(i64::MAX, 0, 0, 0).widen(&Vec2 { x: 1, y: 0 }), None);
    assert_eq!(margin(0, 0, 0, i64::MAX).widen(&Vec2 { x: 0, y: 1 }), None);
    assert_eq!(
        margin(i64::MAX, 0, 0, 0).widen(&Vec2 { x: 0, y: 0 }),
        Some(margin(i64::MAX, 0, 0, 0))
    );
}

#[test]
fn expand_moves_every_side_outwards() {
    assert_eq!(rect(10, 10, 20, 20).expand(&margin(1, 2, 3, 4)), Some(rect(9, 7, 22, 24)));
    assert_eq!(rect(i64::MIN, 0, 0, 0).expand(&margin(1, 0, 0, 0)), None);
    assert_eq!(rect(0, 0, 0, i64::MAX).expand(&margin(0, 0, 0, 1)), None);
}

#[test]
fn shrink_moves_every_side_inwards() {
    assert_eq!(rect(10, 10, 20, 20).shrink(&margin(1, 2, 3, 4)), Some(rect(11, 13, 18, 16)));
    assert_eq!(rect(i64::MAX, 0, 0, 0).shrink(&margin(1, 0, 0, 0)), None);
    assert_eq!(rect(0, 0, i64::MIN, 0).shrink(&margin(0, 1, 0, 0)), None);
}

#[test]
fn inner_area_leaves_both_margins_free() {
    let area = inner_area(&rect(0, 0, 100, 100), &margin(10, 10, 10, 10), &margin(1, 2, 3, 4));
    assert_eq!(area, Some(rect(11, 13, 88, 86)));
    assert_eq!(
        inner_area(&rect(0, 0, i64::MIN, 0), &margin(0, 1, 0, 0), &margin(0, 0, 0, 0)),
        None
    );
    assert_eq!(
        inner_area(&rect(0, 0, i64::MIN, 0), &margin(0, 0, 0, 0), &margin(0, 1, 0, 0)),
        None
    );
}

#[test]
fn frame_area_adds_the_inner_margin_and_takes_the_outer_away() {
    let area = frame_area(&rect(20, 20, 80, 80), &margin(10, 10, 10, 10), &margin(1, 2, 3, 4));
    assert_eq!(area, Some(rect(11, 13, 88, 86)));
    assert_eq!(
        frame_area(&rect(i64::MIN, 0, 0, 0), &margin(1, 0, 0, 0), &margin(1, 0, 0, 0)),
        None
    );
}

#[test]
fn content_inside_a_widened_margin_stays_clear_of_the_border() {
    let size = TextureSize { width: 16, height: 8 };
    let border = derive_border_thickness(&size);
    let frame = rect(0, 0, 400, 200);
    let widened = margin(2, 2, 2, 2).widen(&border).unwrap();
    let content = frame.shrink(&widened).unwrap();
    let centre = calculate_nine_slice_destinations(&frame, &border).unwrap()[4];
    assert_eq!(content, rect(18, 10, 382, 190));
    assert!(centre.min.x <= content.min.x && content.max.x <= centre.max.x);
    assert!(centre.min.y <= content.min.y && content.max.y <= centre.max.y);
}
