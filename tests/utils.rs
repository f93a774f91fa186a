use infoband::utils::{OptionExt, Rect, ScaleBy, ScalingFactor, Size, Unscaled};

#[test]
fn with_right_edge_at() {
    let before = Rect { left: 1, top: 2, right: 11, bottom: 12 };
    let after = before.with_right_edge_at(20);
    assert_eq!(after.right, 20);
    assert_eq!(after.top, before.top);
    assert_eq!(after.size(), before.size());
}

#[test]
fn with_horizontal_midpoint_at() {
    let before = Rect { left: 1, top: 2, right: 11, bottom: 12 };
    let after = before.with_horizontal_midpoint_at(20);
    assert_eq!(after.left, 15);
    assert_eq!(after.top, before.top);
    assert_eq!(after.size(), before.size());
}

#[test]
fn with_horizontal_midpoint_at_odd_width() {
    let before = Rect { left: 1, top: 2, right: 10, bottom: 10 };
    let after = before.with_horizontal_midpoint_at(20);
    assert_eq!(after.left, 16);
    assert_eq!(after.top, before.top);
    assert_eq!(after.size(), before.size());
}

#[test]
fn with_vertical_midpoint_at() {
    let before = Rect { left: 1, top: 2, right: 11, bottom: 12 };
    let after = before.with_vertical_midpoint_at(20);
    assert_eq!(after.top, 15);
    assert_eq!(after.left, before.left);
    assert_eq!(after.size(), before.size());
}

#[test]
fn with_vertical_midpoint_at_odd_height() {
    let before = Rect { left: 2, top: 1, right: 10, bottom: 10 };
    let after = before.with_vertical_midpoint_at(20);
    assert_eq!(after.top, 16);
    assert_eq!(after.left, before.left);
    assert_eq!(after.size(), before.size());
}

#[test]
fn scaling_by_zero() {
    assert_eq!(0.scale_by(ScalingFactor::from_ratio(0, 1)), 0);
    assert_eq!(1.scale_by(ScalingFactor::from_ratio(0, 123)), 0);
    assert_eq!(u16::MAX.scale_by(ScalingFactor::from_ratio(0, 123)), 0);
    assert_eq!(u32::MAX.scale_by(ScalingFactor::from_ratio(0, 123)), 0);
}

#[test]
fn scaling_by_one() {
    assert_eq!(0.scale_by(ScalingFactor::one()), 0);
    assert_eq!(1.scale_by(ScalingFactor::one()), 1);
    assert_eq!(u16::MAX.scale_by(ScalingFactor::one()), u16::MAX);
    assert_eq!(
        u32::MAX.scale_by(ScalingFactor::from_ratio(123, 123)),
        u32::MAX
    );
    assert_eq!(123.scale_by(ScalingFactor::from_ratio(123, 123)), 123);
}

#[test]
fn scaling_by_ten() {
    assert_eq!(0.scale_by(ScalingFactor::from_ratio(10, 1)), 0);
    assert_eq!(1.scale_by(ScalingFactor::from_ratio(10, 1)), 10);
    assert_eq!(
        u32::from(u16::MAX).scale_by(ScalingFactor::from_ratio(10, 1)),
        655350
    );
    assert_eq!(123.scale_by(ScalingFactor::from_ratio(100, 10)), 1230);
}

#[test]
fn scaling_by_one_point_five() {
    assert_eq!(0.scale_by(ScalingFactor::from_ratio(144, 96)), 0);
    assert_eq!(1.scale_by(ScalingFactor::from_ratio(144, 96)), 1);
    assert_eq!(2.scale_by(ScalingFactor::from_ratio(144, 96)), 3);
    assert_eq!(100.scale_by(ScalingFactor::from_ratio(144, 96)), 150);
}

#[test]
fn scaling_negative_rounds_toward_zero() {
    assert_eq!((-3i32).scale_by(ScalingFactor::from_ratio(1, 2)), -1);
    assert_eq!((-100i16).scale_by(ScalingFactor::from_ratio(144, 96)), -150);
}

#[test]
fn scaling_factor_from_ratio_rounds_down() {
    assert_eq!(ScalingFactor::from_ratio(1, 3).as_fixed(), 21845);
    assert_eq!(ScalingFactor::one().as_fixed(), 65536);
}

#[test]
fn scaling_rect_and_size() {
    let by = ScalingFactor::from_ratio(3, 2);
    let r = Rect { left: 2, top: 4, right: 10, bottom: -6 }.scale_by(by);
    assert_eq!(r, Rect { left: 3, top: 6, right: 15, bottom: -9 });
    assert_eq!(Size { cx: 7, cy: 8 }.scale_by(by), Size { cx: 10, cy: 12 });
}

#[test]
fn unscaled_value() {
    let v = Unscaled::new(32i32);
    assert_eq!(*v.as_inner(), 32);
    assert_eq!(v.scale_by(ScalingFactor::from_ratio(144, 96)), 48);
}

#[test]
fn rect_edges_and_corners() {
    let r = Rect::from_size(Size { cx: 5, cy: 7 });
    assert_eq!(r, Rect { left: 0, top: 0, right: 5, bottom: 7 });
    let moved = r.with_left_edge_at(10).with_top_edge_at(-3);
    assert_eq!(moved, Rect { left: 10, top: -3, right: 15, bottom: 4 });
    assert_eq!(moved.top_left_corner().x, 10);
    assert_eq!(moved.top_left_corner().y, -3);
    assert_eq!(moved.width(), 5);
    assert_eq!(moved.height(), 7);
}

#[test]
fn get_or_insert_default_fills_empty_option() {
    let mut none: Option<Vec<u32>> = None;
    none.get_or_insert_default().push(3);
    assert_eq!(none, Some(vec![3]));
    let mut some = Some(5u32);
    *some.get_or_insert_default() += 1;
    assert_eq!(some, Some(6));
}
