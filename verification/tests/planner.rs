use radiance2d::direction::{discretize, AxisMode, Direction, PackedColor};
use radiance2d::plan::{plan, plan_all, scan_extent, DispatchUnit, ScreenExtent, RADIANCE_WORKGROUP_SIZE};

fn horizontal(index: u32) -> Direction {
    Direction {
        index,
        axis_mode: AxisMode::Horizontal,
        reversed: false,
        angle_num: 0,
        angle_denom: 8,
        starting_radiance: PackedColor { r: 0, g: 0, b: 0 },
    }
}

/// The slope and offset rounding exactly as the rendering shell derives them
/// from a direction: the tangent of the folded angle, scaled by the scan
/// width and rounded away from zero.
fn rounded_offset(dir: &Direction, extent: ScreenExtent) -> i32 {
    let scan = scan_extent(dir.axis_mode, extent);
    let angle = dir.angle_num as f32 / dir.angle_denom as f32;
    let slope = (angle * std::f32::consts::TAU).tan();
    let offset = -slope * scan.x as f32;
    (offset + offset.signum() * 0.999) as i32
}

#[test]
fn units_tile_a_negative_offset_span() {
    let dir = horizontal(2);
    let units = plan(&dir, -5, ScreenExtent { x: 800, y: 600 }, 16);
    // span = 5 + 600 = 605, ceil(605 / 16) = 38 units from -5 upward.
    assert_eq!(units.len(), 38);
    for (k, unit) in units.iter().enumerate() {
        assert_eq!(unit.offset, -5 + 16 * k as i32);
        assert_eq!(unit.direction_index, 2);
    }
    // The last unit ends at 603, past the span end 600: over-coverage only.
    assert_eq!(units.last().unwrap().offset, 587);
}

#[test]
fn positive_offsets_are_pinned_to_zero() {
    let dir = horizontal(0);
    let units = plan(&dir, 7, ScreenExtent { x: 800, y: 600 }, 16);
    // span = 7 + 600 = 607, ceil(607 / 16) = 38 units from 0 upward.
    assert_eq!(units.len(), 38);
    assert_eq!(units[0].offset, 0);
    assert_eq!(units[37].offset, 592);
}

#[test]
fn vertical_directions_scan_the_transposed_extent() {
    let dir = Direction { axis_mode: AxisMode::Vertical, ..horizontal(1) };
    let units = plan(&dir, 0, ScreenExtent { x: 800, y: 600 }, 16);
    // The scan height is the screen width: ceil(800 / 16) = 50.
    assert_eq!(units.len(), 50);
    let flat = plan(&horizontal(1), 0, ScreenExtent { x: 800, y: 600 }, 16);
    assert_eq!(flat.len(), 38);
}

#[test]
fn plan_all_concatenates_in_direction_order() {
    let dirs = vec![horizontal(0), horizontal(1)];
    let offsets = vec![0, 0];
    let units = plan_all(&dirs, &offsets, ScreenExtent { x: 32, y: 32 }, 16);
    let expected = vec![
        DispatchUnit { offset: 0, direction_index: 0 },
        DispatchUnit { offset: 16, direction_index: 0 },
        DispatchUnit { offset: 0, direction_index: 1 },
        DispatchUnit { offset: 16, direction_index: 1 },
    ];
    assert_eq!(units, expected);
}

#[test]
fn planner_is_deterministic() {
    let dirs = discretize(32);
    let extent = ScreenExtent { x: 800, y: 600 };
    let offsets: Vec<i32> = dirs.iter().map(|d| rounded_offset(d, extent)).collect();
    let first = plan_all(&dirs, &offsets, extent, RADIANCE_WORKGROUP_SIZE);
    let second = plan_all(&dirs, &offsets, extent, RADIANCE_WORKGROUP_SIZE);
    assert_eq!(first, second);
    assert!(!first.is_empty());
}

#[test]
fn no_direction_gets_zero_units() {
    // 32 directions over a 800x600 target at the fixed unit width: every
    // direction's tiling is non-empty and starts at its clamped offset.
    let dirs = discretize(32);
    let extent = ScreenExtent { x: 800, y: 600 };
    for dir in &dirs {
        let offset = rounded_offset(dir, extent);
        let units = plan(dir, offset, extent, RADIANCE_WORKGROUP_SIZE);
        assert!(!units.is_empty());
        assert_eq!(units[0].offset, offset.min(0));
        // Slopes stay in [-1, 1], so the rounded overhang never exceeds the
        // scan width plus one.
        let scan = scan_extent(dir.axis_mode, extent);
        assert!(offset.unsigned_abs() <= scan.x + 1);
    }
}

#[test]
fn an_exact_multiple_of_the_unit_width_needs_no_padding() {
    let units = plan(&horizontal(0), 0, ScreenExtent { x: 32, y: 32 }, 16);
    assert_eq!(units.len(), 2);
    assert_eq!(units[0].offset, 0);
    assert_eq!(units[1].offset, 16);
}

#[test]
fn unit_width_one_tiles_pixel_by_pixel() {
    let units = plan(&horizontal(5), -3, ScreenExtent { x: 8, y: 5 }, 1);
    assert_eq!(units.len(), 8);
    let offsets: Vec<i32> = units.iter().map(|u| u.offset).collect();
    assert_eq!(offsets, vec![-3, -2, -1, 0, 1, 2, 3, 4]);
    assert!(units.iter().all(|u| u.direction_index == 5));
}
