use std::time::Duration;

use makeup::test::fake_render_ctx;
use makeup::ui::{pace, FRAME_MICROS, TARGET_FPS};

#[test]
fn a_frame_on_target() {
    let mut ctx = fake_render_ctx();
    let sleep = pace(&mut ctx, Duration::from_micros(10_000));
    assert_eq!(Some(6_666), sleep);
    assert_eq!(Some(Duration::from_micros(10_000)), ctx.last_frame_time);
    assert_eq!(1, ctx.frame_counter);
    assert_eq!(10_000, ctx.effective_fps);
    assert_eq!(6_000, ctx.fps);
}

#[test]
fn a_slow_frame() {
    let mut ctx = fake_render_ctx();
    ctx.frame_counter = 41;
    let sleep = pace(&mut ctx, Duration::from_micros(40_000));
    assert_eq!(None, sleep);
    assert_eq!(42, ctx.frame_counter);
    assert_eq!(2_500, ctx.effective_fps);
    assert_eq!(2_500, ctx.fps);
}

#[test]
fn the_cap_starts_a_whole_frame_above_the_target() {
    let mut ctx = fake_render_ctx();
    assert_eq!(Some(273), pace(&mut ctx, Duration::from_micros(16_393)));
    assert_eq!(6_100, ctx.effective_fps);
    assert_eq!(6_000, ctx.fps);
    assert_eq!(Some(272), pace(&mut ctx, Duration::from_micros(16_394)));
    assert_eq!(6_099, ctx.effective_fps);
    assert_eq!(6_099, ctx.fps);
}

#[test]
fn a_frame_that_took_no_time() {
    let mut ctx = fake_render_ctx();
    assert_eq!(Some(16_666), pace(&mut ctx, Duration::from_nanos(999)));
    assert_eq!(u64::MAX, ctx.effective_fps);
    assert_eq!(6_000, ctx.fps);
}

#[test]
fn the_edge_of_the_frame() {
    let mut ctx = fake_render_ctx();
    assert_eq!(Some(0), pace(&mut ctx, Duration::from_micros(16_666)));
    assert_eq!(None, pace(&mut ctx, Duration::from_micros(16_667)));
    assert_eq!(2, ctx.frame_counter);
    assert_eq!(60, TARGET_FPS);
    assert_eq!(16_666, FRAME_MICROS);
}

#[test]
fn the_counter_stays_at_its_end() {
    let mut ctx = fake_render_ctx();
    ctx.frame_counter = u128::MAX;
    pace(&mut ctx, Duration::from_micros(1));
    assert_eq!(u128::MAX, ctx.frame_counter);
    assert_eq!((0, 0), ctx.cursor);
    assert_eq!((0, 0), ctx.dimensions);
    assert_eq!(0, ctx.focus);
}
