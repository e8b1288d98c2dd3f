//! Per-built-in-transform policy: clear color, output resolution and the
//! fallback trigger.

use vstd::prelude::*;
use crate::scene::{BuiltinSpec, RGBAColor, Resolution, TransformToResolutionStrategy};
use crate::texture::NodeTexture;

verus! {

/// Policy wrapper around a built-in transformation spec. Not a node itself:
/// it is consulted by the `Builtin` renderer variant and by the evaluator.
#[derive(Clone, Copy, PartialEq, Eq, Structural, Debug)]
pub struct Builtin(pub BuiltinSpec);

/// The background color a built-in clears its frame with before compositing,
/// or `None` when the strategy guarantees full frame coverage.
pub open spec fn spec_clear_color(spec: BuiltinSpec) -> Option<RGBAColor> {
    match spec {
        BuiltinSpec::TransformToResolution { strategy, .. } => match strategy {
            TransformToResolutionStrategy::Stretch => None,
            TransformToResolutionStrategy::Fill => None,
            TransformToResolutionStrategy::Fit { background_color_rgba } => Some(
                background_color_rgba,
            ),
        },
        BuiltinSpec::FixedPositionLayout { background_color_rgba, .. } => Some(
            background_color_rgba,
        ),
    }
}

/// Whether every texture in `textures` is empty.
pub open spec fn all_inputs_empty(textures: Seq<NodeTexture>) -> bool {
    forall|i: int| 0 <= i < textures.len() ==> textures[i].empty
}

impl Builtin {
    /// Background fill color to apply before compositing, or `None` to skip
    /// clearing. `Stretch` and `Fill` cover the whole frame and need no
    /// clear; `Fit` and `FixedPositionLayout` return their configured
    /// background color unchanged.
    pub fn clear_color(&self) -> (r: Option<RGBAColor>)
        ensures
            r == spec_clear_color(self.0),
    {
        match &self.0 {
            BuiltinSpec::TransformToResolution { strategy, .. } => match strategy {
                TransformToResolutionStrategy::Stretch => None,
                TransformToResolutionStrategy::Fill => None,
                TransformToResolutionStrategy::Fit { background_color_rgba } => Some(
                    *background_color_rgba,
                ),
            },
            BuiltinSpec::FixedPositionLayout { background_color_rgba, .. } => Some(
                *background_color_rgba,
            ),
        }
    }

    /// The transform's configured fixed output resolution. Current strategies
    /// ignore the supplied input resolutions; the parameter is reserved for
    /// future strategies.
    pub fn output_resolution(&self, _input_resolutions: &[Option<Resolution>]) -> (r: Resolution)
        ensures
            r == self.0.spec_resolution(),
    {
        match self.0 {
            BuiltinSpec::TransformToResolution { resolution, .. } => resolution,
            BuiltinSpec::FixedPositionLayout { resolution, .. } => resolution,
        }
    }

    /// The configured resolution, unconditionally: both current variants
    /// always declare one.
    pub fn resolution_from_spec(&self) -> (r: Option<Resolution>)
        ensures
            r == Some(self.0.spec_resolution()),
    {
        match self.0 {
            BuiltinSpec::TransformToResolution { resolution, .. } => Some(resolution),
            BuiltinSpec::FixedPositionLayout { resolution, .. } => Some(resolution),
        }
    }

    /// Whether the evaluator should substitute the fallback subtree for this
    /// node's inputs. `TransformToResolution` falls back iff *every* supplied
    /// input texture is empty (vacuously true for no inputs);
    /// `FixedPositionLayout` never falls back: a multi-slot layout remains
    /// meaningful with partially or fully empty slots.
    pub fn should_fallback(&self, node_textures: &[NodeTexture]) -> (r: bool)
        ensures
            self.0 matches BuiltinSpec::TransformToResolution { .. } ==> r == all_inputs_empty(
                node_textures@,
            ),
            self.0 matches BuiltinSpec::FixedPositionLayout { .. } ==> r == false,
    {
        match self.0 {
            BuiltinSpec::TransformToResolution { .. } => {
                let mut i: usize = 0;
                while i < node_textures.len()
                    invariant
                        0 <= i <= node_textures@.len(),
                        forall|j: int| 0 <= j < i ==> node_textures@[j].empty,
                    decreases node_textures@.len() - i,
                {
                    if !node_textures[i].is_empty() {
                        return false;
                    }
                    i = i + 1;
                }
                true
            },
            BuiltinSpec::FixedPositionLayout { .. } => false,
        }
    }
}

} // verus!
