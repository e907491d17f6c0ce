use chart_layout::coord::RangedCoord;
use chart_layout::split::sort_four;
use chart_layout::Rect;

#[test]
fn rect_keeps_its_corners() {
    let rect = Rect::new(-3, 4, 5, 6);
    assert_eq!((rect.x0, rect.y0, rect.x1, rect.y1), (-3, 4, 5, 6));
    assert!(rect.is_wf());
}

#[test]
fn rect_with_a_negative_extent_is_not_well_formed() {
    assert!(!Rect::new(1, 0, 0, 5).is_wf());
    assert!(!Rect::new(0, 5, 1, 4).is_wf());
    assert!(Rect::new(1, 5, 1, 5).is_wf());
}

#[test]
fn dim_in_pixel_is_width_and_height() {
    assert_eq!(Rect::new(10, 20, 110, 220).dim_in_pixel(), (100, 200));
    assert_eq!(Rect::new(7, 7, 7, 7).dim_in_pixel(), (0, 0));
    assert_eq!(Rect::new(i32::MIN, i32::MIN, i32::MAX, i32::MAX).dim_in_pixel(), (u32::MAX, u32::MAX));
}

#[test]
fn pixel_range_runs_over_columns_and_rows() {
    assert_eq!(Rect::new(10, 20, 110, 220).get_pixel_range(), (10..110, 20..220));
}

#[test]
fn plot_pixel_range_runs_bottom_up() {
    assert_eq!(Rect::new(10, 20, 110, 220).plot_pixel_range(), (10..110, 220..20));
    assert_eq!(Rect::new(0, 0, 0, 0).plot_pixel_range(), (0..0, 0..0));
}

#[test]
fn ranged_coord_keeps_the_ends_of_its_pixel_ranges() {
    let coord = RangedCoord::new("x", "y", (1..2, 4..3));
    assert_eq!(coord.logic_x, "x");
    assert_eq!(coord.logic_y, "y");
    assert_eq!(coord.back_x, (1, 2));
    assert_eq!(coord.back_y, (4, 3));
}

#[test]
fn bind_puts_the_axes_on_the_region() {
    let rect = Rect::new(60, 0, 800, 550);
    let area = rect.bind(0..10, 5..6);
    assert_eq!(area.rect, rect);
    assert_eq!(area.coord.logic_x, 0..10);
    assert_eq!(area.coord.logic_y, 5..6);
    assert_eq!(area.coord.back_x, (60, 800));
    assert_eq!(area.coord.back_y, (550, 0));
    let applied = rect.apply_coord_spec(RangedCoord::new(0..10, 5..6, rect.plot_pixel_range()));
    assert_eq!(applied, area);
}

#[test]
fn margin_shrinks_each_side() {
    let rect = Rect::new(10, 20, 110, 220);
    assert_eq!(rect.margin(1, 2, 3, 4), Some(Rect::new(13, 21, 106, 218)));
    assert_eq!(rect.margin(0, 0, 0, 0), Some(rect));
}

#[test]
fn margin_may_take_everything() {
    let rect = Rect::new(10, 20, 110, 220);
    assert_eq!(rect.margin(200, 0, 0, 100), Some(Rect::new(10, 220, 10, 220)));
    assert_eq!(rect.margin(50, 150, 60, 40), Some(Rect::new(70, 70, 70, 70)));
}

#[test]
fn margin_that_does_not_fit_gives_nothing() {
    let rect = Rect::new(10, 20, 110, 220);
    assert_eq!(rect.margin(201, 0, 0, 0), None);
    assert_eq!(rect.margin(100, 101, 0, 0), None);
    assert_eq!(rect.margin(0, 0, 101, 0), None);
    assert_eq!(rect.margin(0, 0, 1, 100), None);
    assert_eq!(rect.margin(u32::MAX, u32::MAX, 0, 0), None);
    assert_eq!(Rect::new(5, 0, 0, 10).margin(0, 0, 0, 0), None);
}

#[test]
fn margin_on_the_widest_rect() {
    let rect = Rect::new(i32::MIN, 0, i32::MAX, 1);
    assert_eq!(rect.margin(0, 0, u32::MAX, 0), Some(Rect::new(i32::MAX, 0, i32::MAX, 1)));
    assert_eq!(rect.margin(0, 0, 0, u32::MAX), Some(Rect::new(i32::MIN, 0, i32::MIN, 1)));
    assert_eq!(rect.margin(0, 0, 1, u32::MAX), None);
}

#[test]
fn sort_four_orders_any_arrangement() {
    let values = [3, -1, 7, 5];
    for a in 0..4 {
        for b in 0..4 {
            for c in 0..4 {
                for d in 0..4 {
                    if a != b && a != c && a != d && b != c && b != d && c != d {
                        assert_eq!(sort_four(values[a], values[b], values[c], values[d]), [-1, 3, 5, 7]);
                    }
                }
            }
        }
    }
}

#[test]
fn sort_four_keeps_equal_values() {
    assert_eq!(sort_four(2, 2, 2, 2), [2, 2, 2, 2]);
    assert_eq!(sort_four(5, 1, 5, 1), [1, 1, 5, 5]);
    assert_eq!(sort_four(0, 9, 0, 0), [0, 0, 0, 9]);
    assert_eq!(sort_four(i32::MAX, i32::MIN, 0, i32::MIN), [i32::MIN, i32::MIN, 0, i32::MAX]);
}

#[test]
fn split_lists_nine_cells_row_by_row() {
    let cells = Rect::new(0, 0, 10, 10).split_by_breakpoints((3, 7), (2, 8));
    assert_eq!(
        cells,
        vec![
            Rect::new(0, 0, 3, 2),
            Rect::new(3, 0, 7, 2),
            Rect::new(7, 0, 10, 2),
            Rect::new(0, 2, 3, 8),
            Rect::new(3, 2, 7, 8),
            Rect::new(7, 2, 10, 8),
            Rect::new(0, 8, 3, 10),
            Rect::new(3, 8, 7, 10),
            Rect::new(7, 8, 10, 10),
        ]
    );
}

#[test]
fn split_takes_breakpoints_as_offsets() {
    let cells = Rect::new(100, 200, 110, 210).split_by_breakpoints((3, 7), (2, 8));
    assert_eq!(cells.len(), 9);
    assert_eq!(cells[4], Rect::new(103, 202, 107, 208));
    assert_eq!(cells[0], Rect::new(100, 200, 103, 202));
    assert_eq!(cells[8], Rect::new(107, 208, 110, 210));
}

#[test]
fn split_puts_breakpoints_in_order() {
    let ordered = Rect::new(0, 0, 10, 10).split_by_breakpoints((3, 7), (2, 8));
    let swapped = Rect::new(0, 0, 10, 10).split_by_breakpoints((7, 3), (8, 2));
    assert_eq!(ordered, swapped);
}

#[test]
fn split_with_breakpoints_outside_gives_cells_outside() {
    let cells = Rect::new(0, 0, 10, 10).split_by_breakpoints((-5, 15), (-40, 10));
    assert_eq!(cells[4], Rect::new(0, 0, 10, 10));
    assert_eq!(cells[1], Rect::new(0, -40, 10, 0));
    assert_eq!(cells[3], Rect::new(-5, 0, 0, 10));
    assert_eq!(cells[5], Rect::new(10, 0, 15, 10));
    assert_eq!(cells[7], Rect::new(0, 10, 10, 10));
    for cell in cells {
        assert!(cell.is_wf());
    }
}

#[test]
fn split_at_the_edges_gives_empty_bands() {
    let cells = Rect::new(0, 0, 10, 10).split_by_breakpoints((0, 10), (0, 10));
    assert_eq!(cells[4], Rect::new(0, 0, 10, 10));
    assert_eq!(cells[1].dim_in_pixel(), (10, 0));
    assert_eq!(cells[7].dim_in_pixel(), (10, 0));
    assert_eq!(cells[3].dim_in_pixel(), (0, 10));
    assert_eq!(cells[5].dim_in_pixel(), (0, 10));
}

#[test]
fn split_reaches_the_ends_of_the_pixel_range() {
    let rect = Rect::new(i32::MIN, 0, i32::MAX, 1);
    let cells = rect.split_by_breakpoints((0, u32::MAX as i64), (0, 1));
    assert_eq!(cells[4], rect);
    let cells = rect.split_by_breakpoints((1, u32::MAX as i64 - 1), (0, 1));
    assert_eq!(cells[4], Rect::new(i32::MIN + 1, 0, i32::MAX - 1, 1));
}
