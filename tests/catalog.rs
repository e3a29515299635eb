use tetris::{Dimensions, Figure, PointOffset, TetrisCellColor, ROLL_BUCKETS};

fn all() -> Vec<Figure> {
    vec![
    Figure::Cube,
    Figure::LineHorizontal,
    Figure::LineVertical,
    Figure::LeftL0,
    Figure::LeftL90,
    Figure::LeftL180,
    Figure::LeftL270,
    Figure::RightL0,
    Figure::RightL90,
    Figure::RightL180,
    Figure::RightL270,
    Figure::LeftZigzagHorizontal,
    Figure::LeftZigzagVertical,
    Figure::RightZigzagHorizontal,
    Figure::RightZigzagVertical,
    Figure::Pyramid0,
    Figure::Pyramid90,
    Figure::Pyramid180,
    Figure::Pyramid270,
    ]
}

fn period(f: Figure) -> usize {
    match f {
        Figure::Cube => 1,
        Figure::LineHorizontal
        | Figure::LineVertical
        | Figure::LeftZigzagHorizontal
        | Figure::LeftZigzagVertical
        | Figure::RightZigzagHorizontal
        | Figure::RightZigzagVertical => 2,
        _ => 4,
    }
}

#[test]
fn rotation_cycles_close() {
    for f in all() {
        let mut g = f;
        for k in 1..=period(f) {
            g = g.rotate_clockwise().1;
            if k < period(f) {
                assert_ne!(g, f);
            }
        }
        assert_eq!(g, f);
    }
}

#[test]
fn line_rotation_offsets_cancel() {
    let (a, v) = Figure::LineHorizontal.rotate_clockwise();
    let (b, h) = v.rotate_clockwise();
    assert_eq!(v, Figure::LineVertical);
    assert_eq!(h, Figure::LineHorizontal);
    assert_eq!(a, PointOffset(2, -2));
    assert_eq!(b, PointOffset(-2, 2));
    assert_eq!(Figure::Cube.rotate_clockwise(), (PointOffset(0, 0), Figure::Cube));
}

#[test]
fn bitmaps_cover_bounding_boxes() {
    for f in all() {
        let Dimensions(w, h) = f.dimensions();
        let bits = f.bitmap();
        assert_eq!(bits.len(), w * h);
        assert_eq!(bits.iter().filter(|b| **b).count(), 4);
    }
}

#[test]
fn left_l_shapes() {
    assert_eq!(Figure::LeftL0.bitmap(), vec![true, true, false, true, false, true]);
    assert_eq!(Figure::LeftL90.dimensions(), Dimensions(3, 2));
    assert_eq!(Figure::LeftL90.bitmap(), vec![false, false, true, true, true, true]);
    assert_eq!(Figure::LineVertical.dimensions(), Dimensions(1, 4));
}

#[test]
fn spawn_offsets_have_no_vertical_part() {
    for f in all() {
        assert_eq!(f.offset_from_top_center().1, 0);
    }
    assert_eq!(Figure::LineHorizontal.offset_from_top_center(), PointOffset(-2, 0));
    assert_eq!(Figure::LineVertical.offset_from_top_center(), PointOffset(0, 0));
    assert_eq!(Figure::Pyramid90.offset_from_top_center(), PointOffset(-1, 0));
}

#[test]
fn colors_follow_shape_families() {
    assert_eq!(Figure::Cube.color(), TetrisCellColor::Red);
    assert_eq!(Figure::LineVertical.color(), TetrisCellColor::Orange);
    assert_eq!(Figure::LeftL180.color(), TetrisCellColor::Yellow);
    assert_eq!(Figure::RightL90.color(), TetrisCellColor::Green);
    assert_eq!(Figure::LeftZigzagVertical.color(), TetrisCellColor::Blue);
    assert_eq!(Figure::RightZigzagHorizontal.color(), TetrisCellColor::DeepBlue);
    assert_eq!(Figure::Pyramid270.color(), TetrisCellColor::Purple);
}

#[test]
fn rgb_values() {
    assert_eq!(TetrisCellColor::Red.rgb(), (200, 0, 0));
    assert_eq!(TetrisCellColor::Orange.rgb(), (180, 130, 0));
    assert_eq!(TetrisCellColor::Blue.rgb(), (0, 180, 180));
    assert_eq!(TetrisCellColor::Purple.rgb(), (180, 0, 180));
}

#[test]
fn rolls_map_to_buckets() {
    assert_eq!(ROLL_BUCKETS, 28);
    for r in 0..4 {
        assert_eq!(Figure::from_roll(r), Figure::Cube);
    }
    assert_eq!(Figure::from_roll(4), Figure::LineHorizontal);
    assert_eq!(Figure::from_roll(7), Figure::LineVertical);
    assert_eq!(Figure::from_roll(8), Figure::LeftL0);
    assert_eq!(Figure::from_roll(15), Figure::RightL270);
    assert_eq!(Figure::from_roll(16), Figure::LeftZigzagHorizontal);
    assert_eq!(Figure::from_roll(23), Figure::RightZigzagVertical);
    assert_eq!(Figure::from_roll(27), Figure::Pyramid270);
    assert_eq!(Figure::from_roll(28), Figure::Cube);
    assert_eq!(Figure::from_roll(u32::MAX), Figure::from_roll(u32::MAX % 28));
}

#[test]
fn every_variant_is_drawn() {
    let mut seen = Vec::new();
    for r in 0..28 {
        let f = Figure::from_roll(r);
        if !seen.contains(&f) {
            seen.push(f);
        }
    }
    assert_eq!(seen.len(), 19);
}
