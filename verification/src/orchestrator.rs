//! Bounce orchestrator: the per-frame stage schedule and the
//! accumulation-buffer seeding policy.
//!
//! Every frame runs the same strict chain with no branching back:
//! prerender, seed, `light_bounces` trace/collect pairs, composite. The
//! trace and collect stages are opaque GPU kernels; what this module owns
//! is the order they are issued in — the read-after-write chain that makes
//! bounce `k+1`'s trace observe the accumulation buffer exactly as bounce
//! `k`'s collect left it — and the choice of seeding policy: a frame either
//! re-seeds the accumulation buffer from the prerendered direct radiance or
//! keeps the previous frame's estimate and refines it.

use vstd::prelude::*;

use crate::settings::RadianceSettings;

verus! {

/// One stage of a frame, in the order the orchestrator issues them.
#[derive(Clone, Copy, Debug, PartialEq, Eq, Structural)]
pub enum Stage {
    /// Rasterize the scene geometry into the albedo/radiance/normal
    /// G-buffers (excluded stage; always runs, even under temporal
    /// accumulation, because direct light is recomputed every frame).
    Prerender,
    /// Apply the seeding policy to the accumulation buffer.
    Seed,
    /// Trace kernel: reads the G-buffers and the accumulation buffer over
    /// the whole dispatch-unit list, overwrites the directional radiance
    /// volume.
    Trace,
    /// Collect kernel: reads every directional radiance layer, writes the
    /// refined accumulation buffer; must retire before the next trace.
    Collect,
    /// Final composite of the accumulation buffer into the displayed image
    /// (excluded stage).
    Composite,
}

/// The trace/collect pairs of the first `bounces` bounces, in order.
pub open spec fn spec_bounce_stages(bounces: int) -> Seq<Stage>
    decreases bounces,
{
    if bounces <= 0 {
        Seq::empty()
    } else {
        spec_bounce_stages(bounces - 1) + seq![Stage::Trace, Stage::Collect]
    }
}

/// The full stage sequence of one frame.
pub open spec fn spec_schedule(bounces: int) -> Seq<Stage> {
    seq![Stage::Prerender, Stage::Seed] + spec_bounce_stages(bounces) + seq![Stage::Composite]
}

/// How many entries of `stages` are the stage `stage`.
pub open spec fn spec_stage_count(stages: Seq<Stage>, stage: Stage) -> int
    decreases stages.len(),
{
    if stages.len() == 0 {
        0
    } else {
        spec_stage_count(stages.drop_last(), stage) + if stages.last() == stage {
            1int
        } else {
            0int
        }
    }
}

/// Counting distributes over concatenation.
proof fn lemma_stage_count_add(left: Seq<Stage>, right: Seq<Stage>, stage: Stage)
    ensures
        spec_stage_count(left + right, stage) == spec_stage_count(left, stage)
            + spec_stage_count(right, stage),
    decreases right.len(),
{
    if right.len() == 0 {
        assert(left + right =~= left);
    } else {
        assert((left + right).drop_last() =~= left + right.drop_last());
        lemma_stage_count_add(left, right.drop_last(), stage);
    }
}

/// Count of a stage in a one-element sequence.
proof fn lemma_stage_count_one(a: Stage, stage: Stage)
    ensures
        spec_stage_count(seq![a], stage) == if a == stage {
            1int
        } else {
            0int
        },
{
    assert(seq![a].drop_last() =~= Seq::<Stage>::empty());
    assert(spec_stage_count(Seq::<Stage>::empty(), stage) == 0);
}

/// Count of a stage in a two-element sequence.
proof fn lemma_stage_count_two(a: Stage, b: Stage, stage: Stage)
    ensures
        spec_stage_count(seq![a, b], stage) == (if a == stage {
            1int
        } else {
            0int
        }) + (if b == stage {
            1int
        } else {
            0int
        }),
{
    lemma_stage_count_one(a, stage);
    assert(seq![a, b].drop_last() =~= seq![a]);
    assert(seq![a, b].last() == b);
}

/// Shape of the bounce section: `2 * bounces` entries alternating trace and
/// collect, and nothing else in it.
proof fn lemma_bounce_stages_shape(bounces: int)
    requires
        bounces >= 0,
    ensures
        spec_bounce_stages(bounces).len() == 2 * bounces,
        forall|j: int|
            0 <= j < bounces ==> #[trigger] spec_bounce_stages(bounces)[2 * j] == Stage::Trace,
        forall|j: int|
            0 <= j < bounces ==> #[trigger] spec_bounce_stages(bounces)[2 * j + 1]
                == Stage::Collect,
        spec_stage_count(spec_bounce_stages(bounces), Stage::Trace) == bounces,
        spec_stage_count(spec_bounce_stages(bounces), Stage::Collect) == bounces,
        spec_stage_count(spec_bounce_stages(bounces), Stage::Prerender) == 0,
        spec_stage_count(spec_bounce_stages(bounces), Stage::Seed) == 0,
        spec_stage_count(spec_bounce_stages(bounces), Stage::Composite) == 0,
    decreases bounces,
{
    if bounces > 0 {
        lemma_bounce_stages_shape(bounces - 1);
        let prev = spec_bounce_stages(bounces - 1);
        let pair = seq![Stage::Trace, Stage::Collect];
        lemma_stage_count_add(prev, pair, Stage::Trace);
        lemma_stage_count_add(prev, pair, Stage::Collect);
        lemma_stage_count_add(prev, pair, Stage::Prerender);
        lemma_stage_count_add(prev, pair, Stage::Seed);
        lemma_stage_count_add(prev, pair, Stage::Composite);
        lemma_stage_count_two(Stage::Trace, Stage::Collect, Stage::Trace);
        lemma_stage_count_two(Stage::Trace, Stage::Collect, Stage::Collect);
        lemma_stage_count_two(Stage::Trace, Stage::Collect, Stage::Prerender);
        lemma_stage_count_two(Stage::Trace, Stage::Collect, Stage::Seed);
        lemma_stage_count_two(Stage::Trace, Stage::Collect, Stage::Composite);
    }
}

/// The frame schedule contains exactly one prerender, one seed,
/// `bounces` trace/collect pairs and one final composite, in that order:
/// prerender at index 0, seed at 1, bounce `j`'s trace at `2 + 2*j` and its
/// collect immediately after at `3 + 2*j`, composite last. In particular
/// every collect stands before the next bounce's trace, which is the
/// read-after-write chain on the accumulation buffer.
pub proof fn lemma_schedule_shape(bounces: int)
    requires
        bounces >= 1,
    ensures
        spec_schedule(bounces).len() == 3 + 2 * bounces,
        spec_schedule(bounces)[0] == Stage::Prerender,
        spec_schedule(bounces)[1] == Stage::Seed,
        forall|j: int|
            0 <= j < bounces ==> #[trigger] spec_schedule(bounces)[2 + 2 * j] == Stage::Trace,
        forall|j: int|
            0 <= j < bounces ==> #[trigger] spec_schedule(bounces)[3 + 2 * j] == Stage::Collect,
        spec_schedule(bounces)[3 + 2 * (bounces - 1) + 1] == Stage::Composite,
        spec_stage_count(spec_schedule(bounces), Stage::Prerender) == 1,
        spec_stage_count(spec_schedule(bounces), Stage::Seed) == 1,
        spec_stage_count(spec_schedule(bounces), Stage::Trace) == bounces,
        spec_stage_count(spec_schedule(bounces), Stage::Collect) == bounces,
        spec_stage_count(spec_schedule(bounces), Stage::Composite) == 1,
{
    lemma_bounce_stages_shape(bounces);
    let head = seq![Stage::Prerender, Stage::Seed];
    let body = spec_bounce_stages(bounces);
    let tail = seq![Stage::Composite];
    let sched = spec_schedule(bounces);
    lemma_stage_count_add(head, body, Stage::Prerender);
    lemma_stage_count_add(head, body, Stage::Seed);
    lemma_stage_count_add(head, body, Stage::Trace);
    lemma_stage_count_add(head, body, Stage::Collect);
    lemma_stage_count_add(head, body, Stage::Composite);
    lemma_stage_count_add(head + body, tail, Stage::Prerender);
    lemma_stage_count_add(head + body, tail, Stage::Seed);
    lemma_stage_count_add(head + body, tail, Stage::Trace);
    lemma_stage_count_add(head + body, tail, Stage::Collect);
    lemma_stage_count_add(head + body, tail, Stage::Composite);
    lemma_stage_count_two(Stage::Prerender, Stage::Seed, Stage::Prerender);
    lemma_stage_count_two(Stage::Prerender, Stage::Seed, Stage::Seed);
    lemma_stage_count_two(Stage::Prerender, Stage::Seed, Stage::Trace);
    lemma_stage_count_two(Stage::Prerender, Stage::Seed, Stage::Collect);
    lemma_stage_count_two(Stage::Prerender, Stage::Seed, Stage::Composite);
    lemma_stage_count_one(Stage::Composite, Stage::Prerender);
    lemma_stage_count_one(Stage::Composite, Stage::Seed);
    lemma_stage_count_one(Stage::Composite, Stage::Trace);
    lemma_stage_count_one(Stage::Composite, Stage::Collect);
    lemma_stage_count_one(Stage::Composite, Stage::Composite);
    assert forall|j: int| 0 <= j < bounces implies #[trigger] sched[2 + 2 * j]
        == Stage::Trace by {
        assert(body[2 * j] == Stage::Trace);
        assert(sched[2 + 2 * j] == body[2 + 2 * j - 2]);
    }
    assert forall|j: int| 0 <= j < bounces implies #[trigger] sched[3 + 2 * j]
        == Stage::Collect by {
        assert(body[2 * j + 1] == Stage::Collect);
        assert(sched[3 + 2 * j] == body[3 + 2 * j - 2]);
    }
    assert(sched[3 + 2 * (bounces - 1) + 1] == tail[0]);
}

/// Emits the stage sequence of one frame, ready for the shell to record as
/// one ordered GPU command batch.
pub fn schedule(settings: &RadianceSettings) -> (stages: Vec<Stage>)
    requires
        settings.valid(),
    ensures
        stages@ == spec_schedule(settings.light_bounces as int),
        stages@.len() == 3 + 2 * settings.light_bounces,
{
    let mut stages: Vec<Stage> = Vec::new();
    stages.push(Stage::Prerender);
    stages.push(Stage::Seed);
    proof {
        assert(stages@ =~= seq![Stage::Prerender, Stage::Seed] + spec_bounce_stages(0));
    }
    for bounce in 0..settings.light_bounces
        invariant
            stages@ == seq![Stage::Prerender, Stage::Seed] + spec_bounce_stages(bounce as int),
            stages@.len() == 2 + 2 * bounce,
    {
        proof {
            lemma_bounce_stages_shape(bounce as int);
        }
        stages.push(Stage::Trace);
        stages.push(Stage::Collect);
        proof {
            assert(stages@ =~= seq![Stage::Prerender, Stage::Seed] + spec_bounce_stages(
                bounce + 1,
            ));
        }
    }
    stages.push(Stage::Composite);
    proof {
        lemma_bounce_stages_shape(settings.light_bounces as int);
        assert(stages@ =~= spec_schedule(settings.light_bounces as int));
    }
    stages
}

/// Reference semantics of the seed stage on accumulation-buffer contents,
/// taken as the raw 32-bit words of the buffer's texels.
///
/// Under the discard policy (`temporal_accumulate == false`) the buffer
/// becomes a bit-for-bit copy of the prerendered direct radiance — a full
/// blit, no blending. Under the temporal policy the stage is a no-op and
/// the buffer still holds the previous frame's estimate.
pub fn seed_accumulation(
    temporal_accumulate: bool,
    accumulation: &mut Vec<u32>,
    prerender_radiance: &Vec<u32>,
)
    ensures
        temporal_accumulate ==> final(accumulation)@ == old(accumulation)@,
        !temporal_accumulate ==> final(accumulation)@ == prerender_radiance@,
{
    if !temporal_accumulate {
        accumulation.clear();
        let texel_count = prerender_radiance.len();
        for i in 0..texel_count
            invariant
                texel_count == prerender_radiance@.len(),
                accumulation@ == prerender_radiance@.take(i as int),
        {
            accumulation.push(prerender_radiance[i]);
            proof {
                assert(accumulation@ =~= prerender_radiance@.take(i + 1));
            }
        }
        proof {
            assert(prerender_radiance@.take(texel_count as int) =~= prerender_radiance@);
        }
    }
}

} // verus!
