use chart_layout::label::{band, inset_area, resolve, side_fits};
use chart_layout::{LabelAreaPosition, LabelAreaSpec, LabelAreas, LayoutResult, Rect};

const POSITIONS: [LabelAreaPosition; 4] =
    [LabelAreaPosition::Top, LabelAreaPosition::Bottom, LabelAreaPosition::Left, LabelAreaPosition::Right];

fn carved(size: i32) -> LabelAreaSpec {
    LabelAreaSpec { size, inset: false }
}

fn inset(size: i32) -> LabelAreaSpec {
    LabelAreaSpec { size, inset: true }
}

fn labels(top: LabelAreaSpec, bottom: LabelAreaSpec, left: LabelAreaSpec, right: LabelAreaSpec) -> LabelAreas {
    LabelAreas { top, bottom, left, right }
}

fn layout(labels: &LabelAreas, canvas: &Rect) -> LayoutResult {
    assert!(labels.fits(canvas));
    labels.layout(canvas)
}

#[test]
fn directions_point_away_from_the_plot() {
    assert_eq!(LabelAreaPosition::Top.direction(), (0, -1));
    assert_eq!(LabelAreaPosition::Bottom.direction(), (0, 1));
    assert_eq!(LabelAreaPosition::Left.direction(), (-1, 0));
    assert_eq!(LabelAreaPosition::Right.direction(), (1, 0));
}

#[test]
fn grid_index_is_the_cell_beside_the_plot() {
    assert_eq!(LabelAreaPosition::Top.grid_index(), 1);
    assert_eq!(LabelAreaPosition::Bottom.grid_index(), 7);
    assert_eq!(LabelAreaPosition::Left.grid_index(), 3);
    assert_eq!(LabelAreaPosition::Right.grid_index(), 5);
}

#[test]
fn split_point_moves_the_edge_inwards() {
    assert_eq!(carved(30).split_point(LabelAreaPosition::Top), 30);
    assert_eq!(carved(30).split_point(LabelAreaPosition::Left), 30);
    assert_eq!(carved(30).split_point(LabelAreaPosition::Bottom), -30);
    assert_eq!(carved(30).split_point(LabelAreaPosition::Right), -30);
}

#[test]
fn split_point_of_an_inset_side_is_zero() {
    for pos in POSITIONS {
        assert_eq!(inset(30).split_point(pos), 0);
        assert_eq!(inset(-30).split_point(pos), 0);
        assert_eq!(carved(0).split_point(pos), 0);
    }
}

#[test]
fn split_point_of_the_extreme_sizes() {
    assert_eq!(carved(i32::MIN).split_point(LabelAreaPosition::Top), -2147483648);
    assert_eq!(carved(i32::MIN).split_point(LabelAreaPosition::Bottom), 2147483648);
    assert_eq!(carved(i32::MAX).split_point(LabelAreaPosition::Right), -2147483647);
}

#[test]
fn label_areas_start_empty() {
    let none = LabelAreas::none();
    for pos in POSITIONS {
        assert_eq!(none.get(pos), carved(0));
    }
}

#[test]
fn set_replaces_one_side() {
    for pos in POSITIONS {
        let mut areas = LabelAreas::none();
        areas.set(pos, inset(9));
        for other in POSITIONS {
            assert_eq!(areas.get(other), if other == pos { inset(9) } else { carved(0) });
        }
    }
}

#[test]
fn breakpoints_are_offsets_from_the_top_left_corner() {
    let areas = labels(carved(30), carved(40), carved(5), carved(15));
    assert_eq!(areas.breakpoints(&Rect::new(10, 20, 110, 220)), ((5, 85), (30, 160)));
    assert_eq!(LabelAreas::none().breakpoints(&Rect::new(10, 20, 110, 220)), ((0, 100), (0, 200)));
    let overlaid = labels(inset(30), inset(40), inset(5), inset(15));
    assert_eq!(overlaid.breakpoints(&Rect::new(10, 20, 110, 220)), ((0, 100), (0, 200)));
}

#[test]
fn carved_sizes_and_plot_add_up_to_the_canvas() {
    let canvas = Rect::new(10, 20, 110, 220);
    for (top, bottom, left, right) in [(30, 40, 5, 15), (0, 0, 0, 0), (200, 0, 100, 0), (0, 200, 0, 100), (1, 199, 99, 1)] {
        let areas = labels(carved(top), carved(bottom), carved(left), carved(right));
        let result = layout(&areas, &canvas);
        let (w, h) = result.interior.dim_in_pixel();
        assert_eq!(w as i32 + left + right, 100);
        assert_eq!(h as i32 + top + bottom, 200);
        assert_eq!(result.interior, Rect::new(10 + left, 20 + top, 110 - right, 220 - bottom));
    }
}

#[test]
fn carved_label_area_is_as_thick_as_its_size() {
    let canvas = Rect::new(10, 20, 110, 220);
    let areas = labels(carved(30), carved(40), carved(5), carved(15));
    let result = layout(&areas, &canvas);
    assert_eq!(result.top.unwrap().dim_in_pixel(), (80, 30));
    assert_eq!(result.bottom.unwrap().dim_in_pixel(), (80, 40));
    assert_eq!(result.left.unwrap().dim_in_pixel(), (5, 130));
    assert_eq!(result.right.unwrap().dim_in_pixel(), (15, 130));
}

#[test]
fn carved_label_area_beside_an_empty_plot_is_dropped() {
    let canvas = Rect::new(0, 0, 100, 100);
    let areas = labels(carved(10), carved(10), carved(60), carved(40));
    let result = layout(&areas, &canvas);
    assert_eq!(result.interior, Rect::new(60, 10, 60, 90));
    assert_eq!(result.top, None);
    assert_eq!(result.bottom, None);
    assert_eq!(result.left, Some(Rect::new(0, 10, 60, 90)));
    assert_eq!(result.right, Some(Rect::new(60, 10, 100, 90)));
}

#[test]
fn inset_label_areas_overlap_the_plot_and_each_other() {
    let canvas = Rect::new(0, 0, 100, 100);
    let areas = labels(inset(10), inset(10), inset(10), inset(10));
    let result = layout(&areas, &canvas);
    assert_eq!(result.interior, canvas);
    assert_eq!(result.top, Some(Rect::new(0, 0, 100, 10)));
    assert_eq!(result.bottom, Some(Rect::new(0, 90, 100, 100)));
    assert_eq!(result.left, Some(Rect::new(0, 0, 10, 100)));
    assert_eq!(result.right, Some(Rect::new(90, 0, 100, 100)));
}

#[test]
fn inset_label_area_lies_over_the_plot_not_the_canvas() {
    let canvas = Rect::new(0, 0, 100, 100);
    let areas = labels(inset(10), carved(20), carved(30), inset(5));
    let result = layout(&areas, &canvas);
    assert_eq!(result.interior, Rect::new(30, 0, 100, 80));
    assert_eq!(result.top, Some(Rect::new(30, 0, 100, 10)));
    assert_eq!(result.right, Some(Rect::new(95, 0, 100, 80)));
    assert_eq!(result.bottom, Some(Rect::new(30, 80, 100, 100)));
    assert_eq!(result.left, Some(Rect::new(0, 0, 30, 80)));
}

#[test]
fn inset_label_area_is_within_the_plot_and_as_thick_as_its_size() {
    let canvas = Rect::new(10, 20, 110, 220);
    for size in [1, 50, 100] {
        let areas = labels(inset(size), inset(size), inset(size), inset(size));
        let result = layout(&areas, &canvas);
        let plot = result.interior;
        for area in [result.top.unwrap(), result.bottom.unwrap()] {
            assert_eq!(area.dim_in_pixel(), (100, size as u32));
            assert!(plot.x0 <= area.x0 && area.x1 <= plot.x1 && plot.y0 <= area.y0 && area.y1 <= plot.y1);
        }
        for area in [result.left.unwrap(), result.right.unwrap()] {
            assert_eq!(area.dim_in_pixel(), (size as u32, 200));
            assert!(plot.x0 <= area.x0 && area.x1 <= plot.x1 && plot.y0 <= area.y0 && area.y1 <= plot.y1);
        }
    }
}

#[test]
fn inset_label_area_thicker_than_the_plot_sticks_out() {
    let canvas = Rect::new(0, 0, 800, 600);
    let areas = labels(inset(700), carved(0), carved(0), inset(900));
    let result = layout(&areas, &canvas);
    assert_eq!(result.interior, canvas);
    assert_eq!(result.top, Some(Rect::new(0, 0, 800, 700)));
    assert_eq!(result.right, Some(Rect::new(-100, 0, 800, 600)));
}

#[test]
fn inset_label_area_on_an_empty_plot_is_kept() {
    let canvas = Rect::new(0, 0, 0, 100);
    let areas = labels(inset(10), carved(0), carved(0), carved(0));
    let result = layout(&areas, &canvas);
    assert_eq!(result.top, Some(Rect::new(0, 0, 0, 10)));
}

#[test]
fn size_zero_gives_no_label_area() {
    let canvas = Rect::new(0, 0, 100, 100);
    for pos in POSITIONS {
        for flag in [false, true] {
            let mut areas = labels(carved(10), inset(10), carved(10), inset(10));
            areas.set(pos, LabelAreaSpec { size: 0, inset: flag });
            let result = layout(&areas, &canvas);
            let area = match pos {
                LabelAreaPosition::Top => result.top,
                LabelAreaPosition::Bottom => result.bottom,
                LabelAreaPosition::Left => result.left,
                LabelAreaPosition::Right => result.right,
            };
            assert_eq!(area, None);
        }
    }
}

#[test]
fn size_zero_gives_no_label_area_beside_an_oversized_one() {
    let canvas = Rect::new(0, 0, 800, 600);
    let areas = labels(carved(700), carved(0), carved(0), carved(0));
    let result = layout(&areas, &canvas);
    assert_eq!(result.interior, Rect::new(0, 600, 800, 600));
    assert_eq!(result.top, Some(Rect::new(0, 0, 800, 600)));
    assert_eq!(result.bottom, None);
}

// What a negative size gives is what the grid makes of it; nothing else is
// promised of it.
#[test]
fn negative_carved_size_puts_the_label_area_outside_the_canvas() {
    let canvas = Rect::new(0, 0, 800, 600);
    let result = layout(&labels(carved(-40), carved(0), carved(0), carved(0)), &canvas);
    assert_eq!(result.interior, canvas);
    assert_eq!(result.top, Some(Rect::new(0, -40, 800, 0)));
    let result = layout(&labels(carved(0), carved(-40), carved(-10), carved(-20)), &canvas);
    assert_eq!(result.interior, canvas);
    assert_eq!(result.bottom, Some(Rect::new(0, 600, 800, 640)));
    assert_eq!(result.left, Some(Rect::new(-10, 0, 0, 600)));
    assert_eq!(result.right, Some(Rect::new(800, 0, 820, 600)));
}

#[test]
fn negative_inset_size_gives_no_label_area() {
    let canvas = Rect::new(0, 0, 800, 600);
    let result = layout(&labels(inset(-40), inset(-1), inset(i32::MIN), inset(-7)), &canvas);
    assert_eq!(result, LayoutResult { interior: canvas, top: None, bottom: None, left: None, right: None });
}

#[test]
fn band_drops_a_cell_without_pixels() {
    assert_eq!(band(&Rect::new(0, 0, 5, 5)), Some(Rect::new(0, 0, 5, 5)));
    assert_eq!(band(&Rect::new(0, 0, 0, 5)), None);
    assert_eq!(band(&Rect::new(0, 0, 5, 0)), None);
    assert_eq!(band(&Rect::new(3, 3, 3, 3)), None);
    assert_eq!(band(&Rect::new(-1, -1, 0, 0)), Some(Rect::new(-1, -1, 0, 0)));
}

#[test]
fn inset_area_lies_along_each_edge() {
    let plot = Rect::new(10, 20, 110, 220);
    assert_eq!(inset_area(&plot, LabelAreaPosition::Top, 7), Rect::new(10, 20, 110, 27));
    assert_eq!(inset_area(&plot, LabelAreaPosition::Bottom, 7), Rect::new(10, 213, 110, 220));
    assert_eq!(inset_area(&plot, LabelAreaPosition::Left, 7), Rect::new(10, 20, 17, 220));
    assert_eq!(inset_area(&plot, LabelAreaPosition::Right, 7), Rect::new(103, 20, 110, 220));
}

#[test]
fn resolve_picks_between_strip_and_cell() {
    let plot = Rect::new(10, 20, 110, 220);
    let cell = Rect::new(10, 0, 110, 20);
    let empty = Rect::new(10, 20, 110, 20);
    let top = LabelAreaPosition::Top;
    assert_eq!(resolve(carved(20), top, &cell, &plot), Some(cell));
    assert_eq!(resolve(carved(20), top, &empty, &plot), None);
    assert_eq!(resolve(carved(0), top, &cell, &plot), None);
    assert_eq!(resolve(inset(0), top, &cell, &plot), None);
    assert_eq!(resolve(inset(20), top, &cell, &plot), Some(Rect::new(10, 20, 110, 40)));
    assert_eq!(resolve(inset(20), top, &empty, &plot), Some(Rect::new(10, 20, 110, 40)));
    assert_eq!(resolve(inset(-20), top, &cell, &plot), None);
    assert_eq!(resolve(carved(-20), top, &cell, &plot), Some(cell));
}

#[test]
fn side_fits_while_the_strip_has_pixel_coordinates() {
    let plot = Rect::new(10, 20, 110, 220);
    assert!(side_fits(inset(i32::MAX - 20), LabelAreaPosition::Top, &plot));
    assert!(!side_fits(inset(i32::MAX - 19), LabelAreaPosition::Top, &plot));
    assert!(side_fits(inset(i32::MAX), LabelAreaPosition::Bottom, &plot));
    assert!(!side_fits(inset(i32::MAX), LabelAreaPosition::Left, &plot));
    assert!(side_fits(inset(i32::MAX), LabelAreaPosition::Right, &plot));
    assert!(side_fits(carved(i32::MAX), LabelAreaPosition::Top, &plot));
    assert!(side_fits(inset(-5), LabelAreaPosition::Top, &plot));
    let low = Rect::new(-110, -220, -10, -20);
    assert!(!side_fits(inset(i32::MAX), LabelAreaPosition::Bottom, &low));
    assert!(side_fits(inset(i32::MAX - 19), LabelAreaPosition::Bottom, &low));
    assert!(!side_fits(inset(i32::MAX - 8), LabelAreaPosition::Right, &low));
}

#[test]
fn layout_fits_while_its_edges_are_pixel_coordinates() {
    let canvas = Rect::new(10, 20, 110, 220);
    assert!(LabelAreas::none().fits(&canvas));
    assert!(labels(carved(i32::MAX - 20), carved(0), carved(0), carved(0)).fits(&canvas));
    assert!(!labels(carved(i32::MAX - 19), carved(0), carved(0), carved(0)).fits(&canvas));
    assert!(!labels(carved(0), carved(i32::MIN), carved(0), carved(0)).fits(&canvas));
    assert!(!labels(carved(0), carved(0), carved(i32::MAX), carved(0)).fits(&canvas));
    assert!(labels(carved(0), carved(0), carved(0), carved(i32::MAX)).fits(&canvas));
    assert!(!labels(carved(0), carved(0), carved(0), carved(i32::MIN)).fits(&canvas));
    assert!(!labels(inset(i32::MAX - 19), carved(0), carved(0), carved(0)).fits(&canvas));
    assert!(labels(inset(i32::MIN), inset(i32::MIN), inset(i32::MIN), inset(i32::MIN)).fits(&canvas));
}
