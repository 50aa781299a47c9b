use tilecore::geometry::{layout, Geometry, Point, Size};

fn rect(x: i32, y: i32, w: u32, h: u32) -> Geometry {
    Geometry { origin: Point { x, y }, size: Size { w, h } }
}

#[test]
fn layout_no_windows_is_empty() {
    let placements = layout(Size { w: 1920, h: 1080 }, &vec![]);
    assert!(placements.is_empty());
}

#[test]
fn layout_single_window_fills_output() {
    let placements = layout(Size { w: 1920, h: 1080 }, &vec![7]);
    assert_eq!(placements, vec![(7, rect(0, 0, 1920, 1080))]);
}

#[test]
fn layout_two_windows_split_into_columns() {
    let placements = layout(Size { w: 1920, h: 1080 }, &vec![1, 2]);
    assert_eq!(
        placements,
        vec![(1, rect(0, 0, 960, 1080)), (2, rect(960, 0, 960, 1080))]
    );
}

#[test]
fn layout_three_windows_two_rows_left_one_right() {
    let placements = layout(Size { w: 1920, h: 1080 }, &vec![1, 2, 3]);
    assert_eq!(
        placements,
        vec![
            (1, rect(0, 0, 960, 540)),
            (2, rect(960, 0, 960, 1080)),
            (3, rect(0, 540, 960, 540)),
        ]
    );
}

#[test]
fn layout_four_windows_two_rows_each() {
    let placements = layout(Size { w: 1920, h: 1080 }, &vec![1, 2, 3, 4]);
    assert_eq!(
        placements,
        vec![
            (1, rect(0, 0, 960, 540)),
            (2, rect(960, 0, 960, 540)),
            (3, rect(0, 540, 960, 540)),
            (4, rect(960, 540, 960, 540)),
        ]
    );
}

#[test]
fn layout_truncates_odd_resolution() {
    // 1081 / 2 truncates to 540: the bottom row is one unit short and the
    // remainder is not redistributed.
    let placements = layout(Size { w: 1921, h: 1081 }, &vec![1, 2, 3]);
    assert_eq!(
        placements,
        vec![
            (1, rect(0, 0, 960, 540)),
            (2, rect(960, 0, 960, 1081)),
            (3, rect(0, 540, 960, 540)),
        ]
    );
}
