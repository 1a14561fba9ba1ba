//! Workgroup planner: tiles each direction's scan domain into fixed-width
//! dispatch units.
//!
//! A direction's scan domain is the screen rectangle sheared by the
//! direction's slope. The unverified shell evaluates the slope (a tangent)
//! in floating point and rounds the sheared span's start away from zero, so
//! the rounded offset always over-covers the true skewed span; this module
//! takes that integer offset and does everything else exactly: it pins the
//! domain's near edge at `min(offset, 0)`, extends the scan length to
//! `|offset| + scan height`, and tiles the result into
//! `ceil(span / workgroup_size)` units of `workgroup_size` pixels each.

use vstd::arithmetic::div_mod::{
    lemma_div_is_ordered, lemma_div_plus_one, lemma_div_pos_is_pos, lemma_fundamental_div_mod,
};
use vstd::arithmetic::mul::lemma_mul_inequality;
use vstd::prelude::*;

use crate::direction::{AxisMode, Direction};

verus! {

/// Width in pixels of one dispatch unit along the scan axis; the fixed
/// tiling constant shared with the trace kernel.
pub const RADIANCE_WORKGROUP_SIZE: u32 = 16;

/// Size of the rendered screen area in pixels.
#[derive(Clone, Copy, Debug, PartialEq, Eq, Structural)]
pub struct ScreenExtent {
    pub x: u32,
    pub y: u32,
}

/// One fixed-width band of parallel trace work for one direction. The full
/// ordered list of units over all directions is the GPU dispatch plan.
#[derive(Clone, Copy, Debug, PartialEq, Eq, Structural)]
pub struct DispatchUnit {
    /// Start of the band along the scan axis, in pixels.
    pub offset: i32,
    /// Which direction's geometry this band traces.
    pub direction_index: u32,
}

/// The extent a direction scans over: vertically tracing directions run
/// along the transposed screen axes.
pub open spec fn spec_scan_extent(mode: AxisMode, extent: ScreenExtent) -> ScreenExtent {
    match mode {
        AxisMode::Horizontal => extent,
        AxisMode::Vertical => ScreenExtent { x: extent.y, y: extent.x },
    }
}

/// Exec mirror of [`spec_scan_extent`].
pub fn scan_extent(mode: AxisMode, extent: ScreenExtent) -> (r: ScreenExtent)
    ensures
        r == spec_scan_extent(mode, extent),
{
    match mode {
        AxisMode::Horizontal => extent,
        AxisMode::Vertical => ScreenExtent { x: extent.y, y: extent.x },
    }
}

/// The scan domain's near edge: a positive rounded offset is pinned to zero
/// so the unsheared rectangle is always fully covered.
pub open spec fn spec_clamped_offset(rounded_offset: int) -> int {
    if rounded_offset < 0 {
        rounded_offset
    } else {
        0
    }
}

/// Total length of the scan domain along the scan axis: the sheared
/// overhang on one side plus the unsheared height.
pub open spec fn spec_total_span(rounded_offset: int, scan_height: int) -> int {
    (if rounded_offset < 0 {
        -rounded_offset
    } else {
        rounded_offset
    }) + scan_height
}

/// Number of units that tile a span: `ceil(total_span / workgroup_size)`.
pub open spec fn spec_unit_count(total_span: int, workgroup_size: int) -> int {
    (total_span + workgroup_size - 1) / workgroup_size
}

/// Start of the `k`-th unit along the scan axis.
pub open spec fn spec_unit_offset(rounded_offset: int, workgroup_size: int, k: int) -> int {
    spec_clamped_offset(rounded_offset) + k * workgroup_size
}

/// The unit list one direction is owed: `ceil(span / workgroup_size)`
/// consecutive bands starting at the clamped offset.
pub open spec fn spec_plan(
    direction_index: u32,
    rounded_offset: int,
    scan_height: int,
    workgroup_size: int,
) -> Seq<DispatchUnit> {
    Seq::new(
        spec_unit_count(spec_total_span(rounded_offset, scan_height), workgroup_size) as nat,
        |k: int|
            DispatchUnit {
                offset: spec_unit_offset(rounded_offset, workgroup_size, k) as i32,
                direction_index,
            },
    )
}

/// Tiles one direction's scan domain into dispatch units.
///
/// `rounded_offset` is the sheared span's start as rounded (away from zero)
/// by the caller from `-slope * scan_width`; the bound on its magnitude in
/// the precondition keeps every emitted offset and the unit count inside
/// machine range.
pub fn plan(
    direction: &Direction,
    rounded_offset: i32,
    extent: ScreenExtent,
    workgroup_size: u32,
) -> (units: Vec<DispatchUnit>)
    requires
        1 <= workgroup_size,
        1 <= extent.x,
        1 <= extent.y,
        i32::MIN < rounded_offset,
        spec_total_span(
            rounded_offset as int,
            spec_scan_extent(direction.axis_mode, extent).y as int,
        ) + workgroup_size <= i32::MAX,
    ensures
        units@ == spec_plan(
            direction.index,
            rounded_offset as int,
            spec_scan_extent(direction.axis_mode, extent).y as int,
            workgroup_size as int,
        ),
        units@.len() >= 1,
{
    let scan = scan_extent(direction.axis_mode, extent);
    let ghost span = spec_total_span(rounded_offset as int, scan.y as int);
    let abs_offset: u32 = if rounded_offset < 0 {
        (-rounded_offset) as u32
    } else {
        rounded_offset as u32
    };
    let total_span: u32 = abs_offset + scan.y;
    let clamped_offset: i32 = if rounded_offset < 0 {
        rounded_offset
    } else {
        0
    };
    let unit_count: u32 = (total_span + workgroup_size - 1) / workgroup_size;
    proof {
        lemma_fundamental_div_mod(span + workgroup_size - 1, workgroup_size as int);
        assert(unit_count == spec_unit_count(span, workgroup_size as int));
        assert(unit_count * workgroup_size >= span);
        assert(unit_count >= 1) by (nonlinear_arith)
            requires
                unit_count * workgroup_size >= span,
                span >= 1,
                workgroup_size >= 1,
        ;
    }
    let mut units: Vec<DispatchUnit> = Vec::new();
    for k in 0..unit_count
        invariant
            1 <= workgroup_size,
            1 <= scan.y,
            i32::MIN < rounded_offset,
            span == spec_total_span(rounded_offset as int, scan.y as int),
            span + workgroup_size <= i32::MAX,
            clamped_offset == spec_clamped_offset(rounded_offset as int),
            unit_count == spec_unit_count(span, workgroup_size as int),
            unit_count * workgroup_size >= span,
            unit_count * workgroup_size <= span + workgroup_size - 1,
            units@.len() == k,
            forall|j: int|
                0 <= j < k ==> units@[j] == (DispatchUnit {
                    offset: spec_unit_offset(
                        rounded_offset as int,
                        workgroup_size as int,
                        j,
                    ) as i32,
                    direction_index: direction.index,
                }),
    {
        proof {
            lemma_mul_inequality(k + 1, unit_count as int, workgroup_size as int);
            assert((k + 1) * workgroup_size == k * workgroup_size + workgroup_size) by (nonlinear_arith);
            assert(k * workgroup_size + workgroup_size <= span + workgroup_size - 1);
            assert(0 <= k * workgroup_size) by (nonlinear_arith)
                requires
                    0 <= k,
                    0 < workgroup_size,
            ;
        }
        let band: u32 = workgroup_size * k;
        let offset: i32 = clamped_offset + (band as i32);
        units.push(DispatchUnit { offset, direction_index: direction.index });
    }
    proof {
        assert(units@ =~= spec_plan(
            direction.index,
            rounded_offset as int,
            scan.y as int,
            workgroup_size as int,
        ));
    }
    units
}

/// The dispatch plan of a whole frame: the per-direction unit lists, in
/// direction order, flattened into one sequence.
pub open spec fn spec_plan_all(
    directions: Seq<Direction>,
    rounded_offsets: Seq<i32>,
    extent: ScreenExtent,
    workgroup_size: int,
) -> Seq<DispatchUnit>
    decreases directions.len(),
{
    if directions.len() == 0 {
        Seq::empty()
    } else {
        spec_plan_all(
            directions.drop_last(),
            rounded_offsets.drop_last(),
            extent,
            workgroup_size,
        ) + spec_plan(
            directions.last().index,
            rounded_offsets[directions.len() - 1] as int,
            spec_scan_extent(directions.last().axis_mode, extent).y as int,
            workgroup_size,
        )
    }
}

/// Builds the frame's flat dispatch list: one [`plan`] call per direction,
/// concatenated in direction order. Its length is the dispatch count the
/// trace kernel is invoked with.
pub fn plan_all(
    directions: &Vec<Direction>,
    rounded_offsets: &Vec<i32>,
    extent: ScreenExtent,
    workgroup_size: u32,
) -> (units: Vec<DispatchUnit>)
    requires
        directions@.len() == rounded_offsets@.len(),
        1 <= workgroup_size,
        1 <= extent.x,
        1 <= extent.y,
        forall|k: int|
            0 <= k < directions@.len() ==> i32::MIN < #[trigger] rounded_offsets@[k],
        forall|k: int|
            0 <= k < directions@.len() ==> spec_total_span(
                #[trigger] rounded_offsets@[k] as int,
                spec_scan_extent(directions@[k].axis_mode, extent).y as int,
            ) + workgroup_size <= i32::MAX,
    ensures
        units@ == spec_plan_all(directions@, rounded_offsets@, extent, workgroup_size as int),
{
    let mut units: Vec<DispatchUnit> = Vec::new();
    let direction_count = directions.len();
    for i in 0..direction_count
        invariant
            direction_count == directions@.len(),
            directions@.len() == rounded_offsets@.len(),
            1 <= workgroup_size,
            1 <= extent.x,
            1 <= extent.y,
            forall|k: int|
                0 <= k < directions@.len() ==> i32::MIN < #[trigger] rounded_offsets@[k],
            forall|k: int|
                0 <= k < directions@.len() ==> spec_total_span(
                    #[trigger] rounded_offsets@[k] as int,
                    spec_scan_extent(directions@[k].axis_mode, extent).y as int,
                ) + workgroup_size <= i32::MAX,
            units@ == spec_plan_all(
                directions@.take(i as int),
                rounded_offsets@.take(i as int),
                extent,
                workgroup_size as int,
            ),
    {
        let mut sub = plan(&directions[i], rounded_offsets[i], extent, workgroup_size);
        proof {
            let pre = directions@.take(i as int);
            let post = directions@.take(i + 1);
            assert(post.drop_last() =~= pre);
            assert(rounded_offsets@.take(i + 1).drop_last() =~= rounded_offsets@.take(i as int));
            assert(post.last() == directions@[i as int]);
        }
        units.append(&mut sub);
    }
    proof {
        assert(directions@.take(direction_count as int) =~= directions@);
        assert(rounded_offsets@.take(direction_count as int) =~= rounded_offsets@);
    }
    units
}

/// Index of the unit whose band pixel `p` falls into.
pub open spec fn covering_unit(rounded_offset: int, workgroup_size: int, p: int) -> int {
    (p - spec_clamped_offset(rounded_offset)) / workgroup_size
}

/// `true` when scan-axis pixel `p` lies inside unit `k` of a direction's
/// tiling.
pub open spec fn unit_covers(
    rounded_offset: int,
    workgroup_size: int,
    k: int,
    p: int,
) -> bool {
    spec_unit_offset(rounded_offset, workgroup_size, k) <= p < spec_unit_offset(
        rounded_offset,
        workgroup_size,
        k,
    ) + workgroup_size
}

/// The planner's tiling is exact: the emitted units cover the scan span
/// `[clamped_offset, clamped_offset + total_span)` with no gaps, every
/// pixel of the span lies in exactly one unit, every unit is exactly
/// `workgroup_size` wide (consecutive starts differ by `workgroup_size`),
/// and the tiled footprint never falls short of the span — at most
/// `workgroup_size - 1` pixels of padding hang past its trailing edge.
pub proof fn lemma_plan_tiles(rounded_offset: int, scan_height: int, workgroup_size: int)
    requires
        workgroup_size >= 1,
        scan_height >= 1,
    ensures
        ({
            let span = spec_total_span(rounded_offset, scan_height);
            let clamped = spec_clamped_offset(rounded_offset);
            let count = spec_unit_count(span, workgroup_size);
            &&& count >= 1
            &&& forall|k: int|
                0 <= k ==> #[trigger] spec_unit_offset(rounded_offset, workgroup_size, k + 1)
                    == spec_unit_offset(rounded_offset, workgroup_size, k) + workgroup_size
            &&& forall|p: int|
                clamped <= p < clamped + span ==> unit_covers(
                    rounded_offset,
                    workgroup_size,
                    #[trigger] covering_unit(rounded_offset, workgroup_size, p),
                    p,
                ) && 0 <= covering_unit(rounded_offset, workgroup_size, p) < count
            &&& forall|p: int, k1: int, k2: int|
                #[trigger] unit_covers(rounded_offset, workgroup_size, k1, p)
                    && #[trigger] unit_covers(rounded_offset, workgroup_size, k2, p) ==> k1 == k2
            &&& span <= count * workgroup_size
            &&& count * workgroup_size < span + workgroup_size
        }),
{
    let span = spec_total_span(rounded_offset, scan_height);
    let clamped = spec_clamped_offset(rounded_offset);
    let count = spec_unit_count(span, workgroup_size);
    lemma_fundamental_div_mod(span + workgroup_size - 1, workgroup_size);
    assert(span <= count * workgroup_size);
    assert(count * workgroup_size < span + workgroup_size);
    assert(count >= 1) by (nonlinear_arith)
        requires
            count * workgroup_size >= span,
            span >= 1,
            workgroup_size >= 1,
    ;
    assert forall|k: int| 0 <= k implies #[trigger] spec_unit_offset(
        rounded_offset,
        workgroup_size,
        k + 1,
    ) == spec_unit_offset(rounded_offset, workgroup_size, k) + workgroup_size by {
        assert((k + 1) * workgroup_size == k * workgroup_size + workgroup_size) by (nonlinear_arith);
    }
    assert forall|p: int| clamped <= p < clamped + span implies unit_covers(
        rounded_offset,
        workgroup_size,
        #[trigger] covering_unit(rounded_offset, workgroup_size, p),
        p,
    ) && 0 <= covering_unit(rounded_offset, workgroup_size, p) < count by {
        let k = covering_unit(rounded_offset, workgroup_size, p);
        lemma_fundamental_div_mod(p - clamped, workgroup_size);
        lemma_div_pos_is_pos(p - clamped, workgroup_size);
        lemma_div_is_ordered(p - clamped, span - 1, workgroup_size);
        lemma_div_plus_one(span - 1, workgroup_size);
        assert(count == 1 + (span - 1) / workgroup_size);
        assert(k * workgroup_size <= p - clamped < k * workgroup_size + workgroup_size);
    }
    assert forall|p: int, k1: int, k2: int|
        #[trigger] unit_covers(rounded_offset, workgroup_size, k1, p)
            && #[trigger] unit_covers(rounded_offset, workgroup_size, k2, p) implies k1 == k2 by {
        assert(k1 == k2) by (nonlinear_arith)
            requires
                workgroup_size >= 1,
                k1 * workgroup_size <= p - clamped < k1 * workgroup_size + workgroup_size,
                k2 * workgroup_size <= p - clamped < k2 * workgroup_size + workgroup_size,
        ;
    }
}

/// Determinism of the planner: any two flat dispatch lists that meet
/// [`plan_all`]'s contract for the same directions, offsets, extent and
/// unit width are equal, so re-planning with unchanged inputs reproduces
/// the dispatch list (and hence the dispatch count) exactly.
pub proof fn lemma_plan_all_deterministic(
    directions: Seq<Direction>,
    rounded_offsets: Seq<i32>,
    extent: ScreenExtent,
    workgroup_size: int,
    first: Seq<DispatchUnit>,
    second: Seq<DispatchUnit>,
)
    requires
        first == spec_plan_all(directions, rounded_offsets, extent, workgroup_size),
        second == spec_plan_all(directions, rounded_offsets, extent, workgroup_size),
    ensures
        first == second,
{
}

} // verus!
