//! Helpers for testing components: a render context to render against, and a
//! comparison of what a component drew with what it should have drawn.

pub mod diff;

use vstd::prelude::*;
use crate::component::RenderContext;

verus! {

/// A render context before the first frame, for a grid of no size.
pub fn fake_render_ctx() -> (ctx: RenderContext)
    ensures
        ctx == (RenderContext {
            last_frame_time: None,
            frame_counter: 0,
            fps: 0,
            effective_fps: 0,
            cursor: (0, 0),
            dimensions: (0, 0),
            focus: 0,
        }),
{
    RenderContext {
        last_frame_time: None,
        frame_counter: 0,
        fps: 0,
        effective_fps: 0,
        cursor: (0, 0),
        dimensions: (0, 0),
        focus: 0,
    }
}

} // verus!
