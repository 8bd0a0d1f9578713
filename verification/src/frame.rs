//! The GPU work of one frame: a single render pass that clears the color
//! target to the fixed background color and draws the one triangle, and
//! the tagged outcome of acquiring the frame's presentable image.

use vstd::prelude::*;

verus! {

/// A color with 8-bit channels; the presentation layer scales each
/// channel to the unit interval.
#[derive(Clone, Copy, PartialEq, Eq, Structural, Debug)]
pub struct ClearColor {
    pub r: u8,
    pub g: u8,
    pub b: u8,
    pub a: u8,
}

/// What one frame records and submits: one render pass that clears the
/// color target and issues one non-indexed draw, with no vertex or index
/// buffers bound — the geometry is synthesized in the vertex stage.
#[derive(Clone, Copy, PartialEq, Eq, Structural, Debug)]
pub struct FramePlan {
    pub clear: ClearColor,
    pub first_vertex: u32,
    pub vertex_count: u32,
    pub first_instance: u32,
    pub instance_count: u32,
}

/// The one plan every frame follows: clear to the fixed dark background
/// (18 of 255 on each color channel, opaque) and draw 3 vertices in 1
/// instance.
pub open spec fn frame_plan_spec() -> FramePlan {
    FramePlan {
        clear: ClearColor { r: 18, g: 18, b: 18, a: 255 },
        first_vertex: 0,
        vertex_count: 3,
        first_instance: 0,
        instance_count: 1,
    }
}

/// Produces the fixed per-frame plan.
pub fn frame_plan() -> (p: FramePlan)
    ensures
        p == frame_plan_spec(),
{
    FramePlan {
        clear: ClearColor { r: 18, g: 18, b: 18, a: 255 },
        first_vertex: 0,
        vertex_count: 3,
        first_instance: 0,
        instance_count: 1,
    }
}

/// The outcome of one render call, tagged by the acquisition failure kind
/// that drives the recovery policy: success, a lost surface (reconfigure
/// and retry on the next redraw), out of memory (fatal), or any other
/// error (drop the frame, report, carry on).
#[derive(Clone, PartialEq, Eq, Debug)]
pub enum RenderOutcome {
    Success,
    Lost,
    OutOfMemory,
    Other { detail: String },
}

} // verus!
