use detbar::tiling::{get_screen_size, get_screen_work_area, promote_to_master, tile_desktop_windows, WindowPlacement};

fn rect(p: &WindowPlacement) -> (isize, i32, i32, i32, i32) {
    (p.hwnd, p.x, p.y, p.width, p.height)
}

#[test]
fn screen_and_work_area() {
    assert_eq!(get_screen_size(), (1920, 1080));
    assert_eq!(get_screen_work_area(48), (0, 0, 1920, 1032));
    assert_eq!(get_screen_work_area(0), (0, 0, 1920, 1080));
}

#[test]
fn no_windows_no_tiles() {
    assert!(tile_desktop_windows(&[], 48).is_empty());
    assert!(tile_desktop_windows(&[], i32::MIN).is_empty());
}

#[test]
fn single_window_fills_work_area() {
    let t = tile_desktop_windows(&[7], 48);
    assert_eq!(t.iter().map(rect).collect::<Vec<_>>(), vec![(7, 0, 0, 1920, 1032)]);
}

#[test]
fn two_windows_master_and_stack() {
    let t = tile_desktop_windows(&[1, 2], 48);
    assert_eq!(
        t.iter().map(rect).collect::<Vec<_>>(),
        vec![(1, 0, 0, 1152, 1032), (2, 1152, 0, 768, 1032)]
    );
}

#[test]
fn three_windows_split_stack_in_rows() {
    let t = tile_desktop_windows(&[1, 2, 3], 48);
    assert_eq!(
        t.iter().map(rect).collect::<Vec<_>>(),
        vec![(1, 0, 0, 1152, 1032), (2, 1152, 0, 768, 516), (3, 1152, 516, 768, 516)]
    );
}

#[test]
fn last_row_takes_the_remainder() {
    let t = tile_desktop_windows(&[1, 2, 3, 4], 49);
    // 1031 / 3 = 343 per row; the last row gets 1031 - 686 = 345
    assert_eq!(
        t.iter().map(rect).collect::<Vec<_>>(),
        vec![
            (1, 0, 0, 1152, 1031),
            (2, 1152, 0, 768, 343),
            (3, 1152, 343, 768, 343),
            (4, 1152, 686, 768, 345)
        ]
    );
}

#[test]
fn rows_are_at_least_100_pixels() {
    let t = tile_desktop_windows(&[1, 2, 3], 1000);
    assert_eq!(
        t.iter().map(rect).collect::<Vec<_>>(),
        vec![(1, 0, 0, 1152, 80), (2, 1152, 0, 768, 100), (3, 1152, 40, 768, 100)]
    );
}

#[test]
fn negative_work_area_divides_toward_zero() {
    let t = tile_desktop_windows(&[1, 2, 3, 4], 2000);
    assert_eq!(
        t.iter().map(rect).collect::<Vec<_>>(),
        vec![
            (1, 0, 0, 1152, -920),
            (2, 1152, 0, 768, 100),
            (3, 1152, -306, 768, 100),
            (4, 1152, -612, 768, 100)
        ]
    );
}

#[test]
fn promote_moves_first_occurrence_to_front() {
    let mut v = vec![1, 2, 3];
    promote_to_master(&mut v, 3);
    assert_eq!(v, vec![3, 1, 2]);
    let mut v = vec![1, 2, 2];
    promote_to_master(&mut v, 2);
    assert_eq!(v, vec![2, 1, 2]);
}

#[test]
fn promote_absent_or_first_changes_nothing() {
    let mut v = vec![1, 2, 3];
    promote_to_master(&mut v, 1);
    assert_eq!(v, vec![1, 2, 3]);
    promote_to_master(&mut v, 9);
    assert_eq!(v, vec![1, 2, 3]);
    let mut e: Vec<isize> = vec![];
    promote_to_master(&mut e, 1);
    assert!(e.is_empty());
}
