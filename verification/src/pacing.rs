//! Keeping the frames to a steady rate.

use vstd::prelude::*;
use crate::component::RenderContext;
use crate::time::duration_micros;

verus! {

/// The frame rate of a frame that took `micros` microseconds, in hundredths
/// of a frame per second; the highest number that fits for a frame that took
/// no time.
pub open spec fn effective_rate(micros: u128) -> u64 {
    if micros == 0 {
        u64::MAX
    } else {
        (100_000_000int / micros as int) as u64
    }
}

/// The frame rate that is shown: the measured one, but the target rate where
/// the measured one is a whole frame per second or more above it.
pub open spec fn capped_rate(rate: u64) -> u64 {
    if rate / 100 > TARGET_FPS {
        (TARGET_FPS * 100) as u64
    } else {
        rate
    }
}

/// The time that is left of a frame after `micros` microseconds, in
/// microseconds; `None` where the frame took longer than its share.
pub open spec fn time_left(micros: u128) -> Option<u64> {
    if micros <= FRAME_MICROS {
        Some((FRAME_MICROS - micros) as u64)
    } else {
        None
    }
}

/// The frame rate that the UI aims at, in frames per second.
pub const TARGET_FPS: u64 = 60;

/// The share of one frame in a second, in microseconds.
pub const FRAME_MICROS: u64 = 16_666;

/// Books a frame that took `elapsed`: counts it, notes its time and its frame
/// rate, and says how long to sleep so that the frames keep to the target
/// rate.
pub fn pace(ctx: &mut RenderContext, elapsed: std::time::Duration) -> (sleep: Option<u64>)
    ensures
        *final(ctx) == (RenderContext {
            last_frame_time: Some(elapsed),
            frame_counter: if old(ctx).frame_counter == u128::MAX {
                u128::MAX
            } else {
                (old(ctx).frame_counter + 1) as u128
            },
            effective_fps: effective_rate(duration_micros(elapsed)),
            fps: capped_rate(effective_rate(duration_micros(elapsed))),
            ..*old(ctx)
        }),
        sleep == time_left(duration_micros(elapsed)),
{
    let micros = elapsed.as_micros();
    let effective: u64 = if micros == 0 {
        u64::MAX
    } else {
        let rate: u128 = 100_000_000 / micros;
        rate as u64
    };
    ctx.last_frame_time = Some(elapsed);
    if ctx.frame_counter < u128::MAX {
        ctx.frame_counter = ctx.frame_counter + 1;
    }
    ctx.effective_fps = effective;
    ctx.fps = if effective / 100 > TARGET_FPS {
        TARGET_FPS * 100
    } else {
        effective
    };
    if micros <= FRAME_MICROS as u128 {
        Some((FRAME_MICROS as u128 - micros) as u64)
    } else {
        None
    }
}

} // verus!
