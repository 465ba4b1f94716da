use rect_layout::{horz_diff, reconcile_horz, reconcile_vert, vert_diff, InvalidArgument, Rect};

#[test]
fn vert_diff_is_negative_over_a_strip_left_uncovered() {
    assert_eq!(vert_diff(Rect::new(0, 0, 10, 10), Rect::new(0, 15, 10, 10)), Ok(-5));
}

#[test]
fn vert_diff_is_positive_over_an_overlap() {
    assert_eq!(vert_diff(Rect::new(0, 0, 10, 10), Rect::new(0, 7, 10, 10)), Ok(3));
}

#[test]
fn vert_diff_is_zero_where_the_pieces_touch() {
    assert_eq!(vert_diff(Rect::new(0, -4, 10, 10), Rect::new(0, 6, 10, 10)), Ok(0));
}

#[test]
fn vert_diff_looks_at_the_vertical_axis_only() {
    assert_eq!(vert_diff(Rect::new(100, 0, 1, 10), Rect::new(-100, 15, 7, 0)), Ok(-5));
    assert_eq!(horz_diff(Rect::new(0, 100, 10, 1), Rect::new(15, -100, 0, 7)), Ok(-5));
}

#[test]
fn horz_diff_measures_along_the_horizontal_axis() {
    assert_eq!(horz_diff(Rect::new(0, 0, 10, 10), Rect::new(15, 0, 10, 10)), Ok(-5));
    assert_eq!(horz_diff(Rect::new(0, 0, 10, 10), Rect::new(7, 0, 10, 10)), Ok(3));
    assert_eq!(horz_diff(Rect::new(-4, 0, 10, 10), Rect::new(6, 0, 10, 10)), Ok(0));
}

#[test]
fn diff_refuses_an_extent_beyond_i32() {
    let tall = Rect::new(0, 0, 1, 2_147_483_648);
    assert_eq!(vert_diff(tall, Rect::new(0, 0, 1, 1)), Err(InvalidArgument::Magnitude));
    let wide = Rect::new(0, 0, 2_147_483_648, 1);
    assert_eq!(horz_diff(wide, Rect::new(0, 0, 1, 1)), Err(InvalidArgument::Magnitude));
}

#[test]
fn diff_takes_the_largest_extent_that_i32_holds() {
    let tall = Rect::new(0, i32::MIN, 1, 2_147_483_647);
    assert_eq!(vert_diff(tall, Rect::new(0, 0, 1, 1)), Ok(-1));
    let wide = Rect::new(i32::MIN, 0, 2_147_483_647, 1);
    assert_eq!(horz_diff(wide, Rect::new(0, 0, 1, 1)), Ok(-1));
}

#[test]
fn diff_refuses_a_gap_beyond_i32() {
    let low = Rect::new(0, i32::MAX, 1, 10);
    assert_eq!(vert_diff(low, Rect::new(0, i32::MIN, 1, 1)), Err(InvalidArgument::Magnitude));
    assert_eq!(vert_diff(low, Rect::new(0, 9, 1, 1)), Err(InvalidArgument::Magnitude));
    let high = Rect::new(0, i32::MIN, 1, 0);
    assert_eq!(vert_diff(high, Rect::new(0, 1, 1, 1)), Err(InvalidArgument::Magnitude));
    let far = Rect::new(i32::MAX, 0, 10, 1);
    assert_eq!(horz_diff(far, Rect::new(i32::MIN, 0, 1, 1)), Err(InvalidArgument::Magnitude));
}

#[test]
fn diff_is_taken_of_the_whole_sum() {
    let low = Rect::new(0, i32::MAX, 1, 10);
    assert_eq!(vert_diff(low, Rect::new(0, 100, 1, 1)), Ok(2_147_483_557));
    assert_eq!(vert_diff(low, Rect::new(0, 10, 1, 1)), Ok(i32::MAX));
    let high = Rect::new(0, i32::MIN, 1, 0);
    assert_eq!(vert_diff(high, Rect::new(0, 0, 1, 1)), Ok(i32::MIN));
    let far = Rect::new(i32::MAX, 0, 10, 1);
    assert_eq!(horz_diff(far, Rect::new(100, 0, 1, 1)), Ok(2_147_483_557));
}

#[test]
fn reconcile_extends_the_first_piece_over_a_strip() {
    let (top, bot) = (Rect::new(0, 0, 10, 10), Rect::new(0, 15, 10, 10));
    assert_eq!(reconcile_vert(top, bot), Ok((Rect::new(0, 0, 10, 15), bot)));
    let (lef, rig) = (Rect::new(0, 0, 10, 10), Rect::new(15, 0, 10, 10));
    assert_eq!(reconcile_horz(lef, rig), Ok((Rect::new(0, 0, 15, 10), rig)));
}

#[test]
fn reconcile_moves_the_second_piece_off_an_overlap() {
    let (top, bot) = (Rect::new(0, 0, 10, 10), Rect::new(0, 7, 10, 10));
    assert_eq!(reconcile_vert(top, bot), Ok((top, Rect::new(0, 10, 10, 10))));
    let (lef, rig) = (Rect::new(0, 0, 10, 10), Rect::new(7, 0, 10, 10));
    assert_eq!(reconcile_horz(lef, rig), Ok((lef, Rect::new(10, 0, 10, 10))));
}

#[test]
fn reconcile_leaves_touching_pieces_alone() {
    let (top, bot) = (Rect::new(1, -4, 10, 10), Rect::new(2, 6, 30, 40));
    assert_eq!(reconcile_vert(top, bot), Ok((top, bot)));
    let (lef, rig) = (Rect::new(-4, 1, 10, 10), Rect::new(6, 2, 30, 40));
    assert_eq!(reconcile_horz(lef, rig), Ok((lef, rig)));
}

#[test]
fn reconcile_keeps_what_lies_across_the_axis() {
    let (top, bot) = (Rect::new(1, 0, 2, 10), Rect::new(30, 15, 40, 50));
    assert_eq!(reconcile_vert(top, bot), Ok((Rect::new(1, 0, 2, 15), bot)));
    let (top, bot) = (Rect::new(1, 0, 2, 10), Rect::new(30, 5, 40, 50));
    assert_eq!(reconcile_vert(top, bot), Ok((top, Rect::new(30, 10, 40, 50))));
}

#[test]
fn reconcile_closes_the_widest_strip_that_a_gap_can_measure() {
    let (top, bot) = (Rect::new(0, i32::MIN, 1, 0), Rect::new(0, 0, 1, 1));
    assert_eq!(reconcile_vert(top, bot), Ok((Rect::new(0, i32::MIN, 1, 2_147_483_648), bot)));
    let (lef, rig) = (Rect::new(i32::MIN, 0, 0, 1), Rect::new(0, 0, 1, 1));
    assert_eq!(reconcile_horz(lef, rig), Ok((Rect::new(i32::MIN, 0, 2_147_483_648, 1), rig)));
}

#[test]
fn reconcile_refuses_a_gap_that_cannot_be_measured() {
    let (top, bot) = (Rect::new(0, i32::MIN, 1, 0), Rect::new(0, i32::MAX, 1, 1));
    assert_eq!(reconcile_vert(top, bot), Err(InvalidArgument::Magnitude));
    let tall = Rect::new(0, 0, 1, 2_147_483_648);
    assert_eq!(reconcile_vert(tall, Rect::new(0, 0, 1, 1)), Err(InvalidArgument::Magnitude));
    let (lef, rig) = (Rect::new(i32::MIN, 0, 0, 1), Rect::new(i32::MAX, 0, 1, 1));
    assert_eq!(reconcile_horz(lef, rig), Err(InvalidArgument::Magnitude));
}

#[test]
fn reconcile_refuses_to_move_the_second_piece_beyond_i32() {
    let (top, bot) = (Rect::new(0, i32::MAX - 5, 1, 10), Rect::new(0, i32::MAX - 6, 1, 1));
    assert_eq!(vert_diff(top, bot), Ok(11));
    assert_eq!(reconcile_vert(top, bot), Err(InvalidArgument::Magnitude));
    let (lef, rig) = (Rect::new(i32::MAX - 5, 0, 10, 1), Rect::new(i32::MAX - 6, 0, 1, 1));
    assert_eq!(horz_diff(lef, rig), Ok(11));
    assert_eq!(reconcile_horz(lef, rig), Err(InvalidArgument::Magnitude));
}

#[test]
fn reconciled_pieces_touch_and_do_not_shrink() {
    let ys: [i32; 7] = [i32::MIN, -100, -1, 0, 1, 100, i32::MAX - 200];
    let heights: [u32; 4] = [0, 1, 50, 200];
    for top_y in ys {
        for height in heights {
            for bot_y in ys {
                let (top, bot) = (Rect::new(0, top_y, 5, height), Rect::new(9, bot_y, 6, 7));
                if let Ok((a, b)) = reconcile_vert(top, bot) {
                    assert_eq!(a.y as i64 + a.height as i64, b.y as i64);
                    assert!(a.height >= top.height && b.y >= bot.y);
                    assert_eq!((a.x, a.y, a.width), (top.x, top.y, top.width));
                    assert_eq!((b.x, b.width, b.height), (bot.x, bot.width, bot.height));
                }
            }
        }
    }
}
