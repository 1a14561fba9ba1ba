//! Direction discretizer: turns a requested count of light-propagation
//! directions into per-direction screen-space scan parameters.
//!
//! Direction `i` out of `d` stands for the signed fractional turn
//! `u = i/d - 1/2`, which lies in `[-1/2, 1/2)`. Every quantity the
//! discretizer derives from `u` is decided by comparing `u` against the
//! octant boundaries `±1/8` and `±3/8`. All of these are exact comparisons
//! of fractions with the common denominator `8*d`, so the whole
//! classification is done here in integer arithmetic on the numerators:
//! `u = (8*i - 4*d) / (8*d)`.
//!
//! The one derived quantity that is not rational — the slope, the tangent of
//! the folded angle — is left to the unverified shell. This module hands it
//! the folded angle as the exact fraction `angle_num / angle_denom` of a
//! turn, so the shell's only job is to evaluate `tan(angle * 2π)`.

use vstd::prelude::*;

use crate::settings::MAX_LIGHT_DIRECTIONS;

verus! {

/// Which screen axis a direction's scan lines run along. Directions within
/// an eighth of a turn of the horizontal screen axis (or of its opposite)
/// trace horizontally; the remaining band traces vertically over the
/// transposed extent.
#[derive(Clone, Copy, Debug, PartialEq, Eq, Structural)]
pub enum AxisMode {
    Horizontal,
    Vertical,
}

/// Linear RGB color as the IEEE-754 bit patterns of its three 32-bit float
/// channels; the bit pattern 0 is the channel value 0.0.
#[derive(Clone, Copy, Debug, PartialEq, Eq, Structural)]
pub struct PackedColor {
    pub r: u32,
    pub g: u32,
    pub b: u32,
}

/// Scan parameters of one discretized light direction.
#[derive(Clone, Copy, Debug, PartialEq, Eq, Structural)]
pub struct Direction {
    /// Index of this direction, `0 <= index < d`.
    pub index: u32,
    /// Axis the scan lines of this direction run along.
    pub axis_mode: AxisMode,
    /// `true` for directions that point into the negative half of their
    /// chosen axis and therefore trace in reverse scan order.
    pub reversed: bool,
    /// Numerator of the folded angle, a fraction of a full turn; always in
    /// `[-d, d]`, so the angle lies in `[-1/8, 1/8]` of a turn and its
    /// tangent in `[-1, 1]`.
    pub angle_num: i32,
    /// Denominator of the folded angle; always `8 * d`.
    pub angle_denom: u32,
    /// Radiance this direction injects by itself. Reserved for emissive
    /// directions; currently always black.
    pub starting_radiance: PackedColor,
}

/// Numerator of the signed fractional turn `u = i/d - 1/2` over the common
/// denominator `8*d`.
pub open spec fn u_numerator(i: int, d: int) -> int {
    8 * i - 4 * d
}

/// Axis classification of direction `i` of `d`: horizontal for
/// `|u| <= 1/8`, vertical for `1/8 < |u| <= 3/8`, horizontal again beyond
/// (the wrap toward `±1/2`). The inclusive bounds decide ties: a direction
/// exactly on a boundary goes to the earlier band.
pub open spec fn spec_axis_mode(i: int, d: int) -> AxisMode {
    let n = u_numerator(i, d);
    let a = if n < 0 { -n } else { n };
    if a <= d {
        AxisMode::Horizontal
    } else if a <= 3 * d {
        AxisMode::Vertical
    } else {
        AxisMode::Horizontal
    }
}

/// A direction traces in reverse scan order exactly when `u` lies outside
/// `[-1/8, 3/8]`.
pub open spec fn spec_reversed(i: int, d: int) -> bool {
    let n = u_numerator(i, d);
    !(-d <= n && n <= 3 * d)
}

/// Numerator (over `8*d`) of the folded angle: the piecewise map that folds
/// the four angular octant pairs of `u` into the single band `[-1/8, 1/8]`
/// of a turn, so that all directions share one kernel code path
/// differentiated only by axis mode, scan orientation and slope sign.
pub open spec fn spec_angle_numerator(i: int, d: int) -> int {
    let n = u_numerator(i, d);
    if -d <= n && n <= d {
        n
    } else if d < n && n <= 3 * d {
        2 * d - n
    } else if -3 * d <= n && n < -d {
        -n - 2 * d
    } else if n > 3 * d {
        n - 4 * d
    } else {
        n + 4 * d
    }
}

/// The reserved per-direction starting radiance: black.
pub open spec fn spec_black() -> PackedColor {
    PackedColor { r: 0, g: 0, b: 0 }
}

/// The one direction value the discretizer owes for index `i` of `d`.
pub open spec fn spec_direction(i: int, d: int) -> Direction {
    Direction {
        index: i as u32,
        axis_mode: spec_axis_mode(i, d),
        reversed: spec_reversed(i, d),
        angle_num: spec_angle_numerator(i, d) as i32,
        angle_denom: (8 * d) as u32,
        starting_radiance: spec_black(),
    }
}

/// The folded angle never leaves `[-1/8, 1/8]` of a turn: its numerator over
/// `8*d` is bounded by `d` in magnitude. This is what keeps every slope's
/// magnitude at most `tan(π/4) = 1`.
pub proof fn lemma_angle_numerator_bounded(i: int, d: int)
    requires
        1 <= d,
        0 <= i < d,
    ensures
        -d <= spec_angle_numerator(i, d) <= d,
{
}

/// Computes the scan parameters of every direction.
///
/// The result has exactly one entry per index, each fully determined by
/// `(index, light_directions)`; repeated calls with the same count yield
/// identical lists.
pub fn discretize(light_directions: u32) -> (directions: Vec<Direction>)
    requires
        1 <= light_directions <= MAX_LIGHT_DIRECTIONS,
    ensures
        directions@.len() == light_directions,
        forall|k: int|
            0 <= k < light_directions ==> #[trigger] directions@[k] == spec_direction(
                k,
                light_directions as int,
            ),
{
    let d: i32 = light_directions as i32;
    let mut directions: Vec<Direction> = Vec::new();
    for i in 0..light_directions
        invariant
            d == light_directions,
            1 <= light_directions <= MAX_LIGHT_DIRECTIONS,
            directions@.len() == i,
            forall|k: int|
                0 <= k < i ==> #[trigger] directions@[k] == spec_direction(
                    k,
                    light_directions as int,
                ),
    {
        let n: i32 = 8 * (i as i32) - 4 * d;
        let abs_n: i32 = if n < 0 {
            -n
        } else {
            n
        };
        let axis_mode = if abs_n <= d {
            AxisMode::Horizontal
        } else if abs_n <= 3 * d {
            AxisMode::Vertical
        } else {
            AxisMode::Horizontal
        };
        let reversed = n < -d || n > 3 * d;
        let angle_num: i32 = if -d <= n && n <= d {
            n
        } else if d < n && n <= 3 * d {
            2 * d - n
        } else if -3 * d <= n && n < -d {
            -n - 2 * d
        } else if n > 3 * d {
            n - 4 * d
        } else {
            n + 4 * d
        };
        let direction = Direction {
            index: i,
            axis_mode,
            reversed,
            angle_num,
            angle_denom: 8 * light_directions,
            starting_radiance: PackedColor { r: 0, g: 0, b: 0 },
        };
        proof {
            assert(direction == spec_direction(i as int, light_directions as int));
        }
        directions.push(direction);
    }
    directions
}

/// Determinism of the discretizer: any two direction lists that meet its
/// contract for the same count are equal, so re-running it with unchanged
/// input reproduces the dispatch geometry exactly.
pub proof fn lemma_discretize_deterministic(
    light_directions: u32,
    first: Seq<Direction>,
    second: Seq<Direction>,
)
    requires
        first.len() == light_directions,
        second.len() == light_directions,
        forall|k: int|
            0 <= k < light_directions ==> first[k] == spec_direction(k, light_directions as int),
        forall|k: int|
            0 <= k < light_directions ==> second[k] == spec_direction(k, light_directions as int),
    ensures
        first == second,
{
    assert(first =~= second);
}

} // verus!
