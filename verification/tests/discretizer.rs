use radiance2d::direction::{discretize, AxisMode};
use radiance2d::settings::RadianceSettings;

#[test]
fn one_direction_per_index_for_every_count() {
    for d in 1u32..=64 {
        let dirs = discretize(d);
        assert_eq!(dirs.len(), d as usize);
        for (i, dir) in dirs.iter().enumerate() {
            assert_eq!(dir.index, i as u32);
            assert_eq!(dir.angle_denom, 8 * d);
            assert!(dir.angle_num.unsigned_abs() <= d);
            assert_eq!(dir.starting_radiance.r, 0);
            assert_eq!(dir.starting_radiance.g, 0);
            assert_eq!(dir.starting_radiance.b, 0);
        }
    }
}

#[test]
fn discretizer_is_deterministic() {
    for d in [1u32, 7, 8, 32, 64] {
        let first = discretize(d);
        let second = discretize(d);
        assert_eq!(first, second);
    }
}

#[test]
fn thirty_two_directions_vertical_band() {
    // The vertical band is 1/8 < |i/32 - 1/2| <= 3/8, i.e. 4 < |i - 16| <= 12:
    // indices 4..=11 and 21..=28.
    let dirs = discretize(32);
    let vertical: Vec<u32> = dirs
        .iter()
        .filter(|dir| dir.axis_mode == AxisMode::Vertical)
        .map(|dir| dir.index)
        .collect();
    let expected: Vec<u32> = (4u32..=11).chain(21..=28).collect();
    assert_eq!(vertical, expected);
    assert_eq!(vertical.len(), 16);
}

#[test]
fn exact_boundaries_resolve_to_the_inclusive_band() {
    // With d = 8 the fractions i/8 - 1/2 land exactly on the +-1/8 and +-3/8
    // boundaries; the inclusive comparisons decide them.
    let dirs = discretize(8);
    // i = 1: u = -3/8 -> still vertical, reversed, angle 1/8 of a turn.
    assert_eq!(dirs[1].axis_mode, AxisMode::Vertical);
    assert!(dirs[1].reversed);
    assert_eq!(dirs[1].angle_num, 8);
    // i = 3: u = -1/8 -> horizontal band wins, forward, angle -1/8.
    assert_eq!(dirs[3].axis_mode, AxisMode::Horizontal);
    assert!(!dirs[3].reversed);
    assert_eq!(dirs[3].angle_num, -8);
    // i = 5: u = 1/8 -> horizontal, forward.
    assert_eq!(dirs[5].axis_mode, AxisMode::Horizontal);
    assert!(!dirs[5].reversed);
    assert_eq!(dirs[5].angle_num, 8);
    // i = 7: u = 3/8 -> vertical, forward, angle -1/8.
    assert_eq!(dirs[7].axis_mode, AxisMode::Vertical);
    assert!(!dirs[7].reversed);
    assert_eq!(dirs[7].angle_num, -8);
}

#[test]
fn four_directions_cover_the_axes() {
    let dirs = discretize(4);
    // i = 0: u = -1/2, the wrapped horizontal band, traced in reverse.
    assert_eq!(dirs[0].axis_mode, AxisMode::Horizontal);
    assert!(dirs[0].reversed);
    assert_eq!(dirs[0].angle_num, 0);
    // i = 1: u = -1/4, vertical, reversed.
    assert_eq!(dirs[1].axis_mode, AxisMode::Vertical);
    assert!(dirs[1].reversed);
    assert_eq!(dirs[1].angle_num, 0);
    // i = 2: u = 0, horizontal, forward.
    assert_eq!(dirs[2].axis_mode, AxisMode::Horizontal);
    assert!(!dirs[2].reversed);
    assert_eq!(dirs[2].angle_num, 0);
    // i = 3: u = 1/4, vertical, forward.
    assert_eq!(dirs[3].axis_mode, AxisMode::Vertical);
    assert!(!dirs[3].reversed);
    assert_eq!(dirs[3].angle_num, 0);
}

#[test]
fn settings_validation() {
    let good = RadianceSettings { light_directions: 32, light_bounces: 3, temporal_accumulate: false };
    assert!(good.validate());
    let no_bounce = RadianceSettings { light_directions: 32, light_bounces: 0, temporal_accumulate: false };
    assert!(!no_bounce.validate());
    let no_directions = RadianceSettings { light_directions: 0, light_bounces: 1, temporal_accumulate: true };
    assert!(!no_directions.validate());
    let too_many = RadianceSettings { light_directions: 65, light_bounces: 1, temporal_accumulate: true };
    assert!(!too_many.validate());
    let edge = RadianceSettings { light_directions: 64, light_bounces: 1, temporal_accumulate: true };
    assert!(edge.validate());
}

#[test]
fn a_single_direction_wraps_to_reversed_horizontal() {
    let dirs = discretize(1);
    assert_eq!(dirs.len(), 1);
    assert_eq!(dirs[0].axis_mode, AxisMode::Horizontal);
    assert!(dirs[0].reversed);
    assert_eq!(dirs[0].angle_num, 0);
    assert_eq!(dirs[0].angle_denom, 8);
}

#[test]
fn sixty_four_directions_split_evenly_between_axes() {
    let dirs = discretize(64);
    let vertical = dirs.iter().filter(|d| d.axis_mode == AxisMode::Vertical).count();
    assert_eq!(vertical, 32);
    let expected: Vec<u32> = (8u32..=23).chain(41..=56).collect();
    let actual: Vec<u32> = dirs
        .iter()
        .filter(|d| d.axis_mode == AxisMode::Vertical)
        .map(|d| d.index)
        .collect();
    assert_eq!(actual, expected);
}
