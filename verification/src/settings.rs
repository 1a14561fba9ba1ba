//! Renderer configuration and its construction-time invariant.

use vstd::prelude::*;

verus! {

/// Largest direction count the renderer supports; the per-direction uniform
/// array handed to the GPU kernels has exactly this many slots.
pub const MAX_LIGHT_DIRECTIONS: u32 = 64;

/// Configuration supplied once at renderer construction.
///
/// Invariant ([`RadianceSettings::valid`]): `light_directions` lies in
/// `[1, MAX_LIGHT_DIRECTIONS]` and `light_bounces >= 1`. Construction of the
/// renderer must fail on any other value; nothing is silently clamped.
#[derive(Clone, Copy, Debug, PartialEq, Eq, Structural)]
pub struct RadianceSettings {
    /// Number of discretized light-propagation directions, `1..=64`.
    pub light_directions: u32,
    /// Number of trace/collect iterations per frame, at least 1.
    pub light_bounces: u32,
    /// `true`: the accumulation buffer persists and is refined frame over
    /// frame; `false`: it is re-seeded from the prerendered direct radiance
    /// every frame.
    pub temporal_accumulate: bool,
}

impl RadianceSettings {
    /// The construction-time contract on the configuration.
    pub open spec fn valid(self) -> bool {
        &&& 1 <= self.light_directions <= MAX_LIGHT_DIRECTIONS
        &&& self.light_bounces >= 1
    }

    /// Runtime check of [`RadianceSettings::valid`]; the unverified shell
    /// must call this before building a renderer and abort on `false`.
    pub fn validate(&self) -> (ok: bool)
        ensures
            ok == self.valid(),
    {
        1 <= self.light_directions && self.light_directions <= MAX_LIGHT_DIRECTIONS
            && self.light_bounces >= 1
    }
}

} // verus!
