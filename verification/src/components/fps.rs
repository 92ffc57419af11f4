//! A component that shows the frame rate and the state of the renderer.

use std::marker::PhantomData;
use vstd::prelude::*;
use crate::component::{
    generate_key, Component, ComponentError, Delivery, RawComponentMessage, RenderContext,
    Style, UpdateContext,
};
use crate::text::{decimal, hundredths, pad_left, push_decimal, push_hundredths, push_padded};
use crate::time::duration_millis;
use crate::{Dimensions, DrawCommand, DrawCommandBatch, DrawCommandView, Key};

verus! {

/// The milliseconds of the last frame; none where there was no frame.
pub open spec fn frame_millis(ctx: RenderContext) -> nat {
    match ctx.last_frame_time {
        Some(d) => duration_millis(d) as nat,
        None => 0,
    }
}

/// The line that the frame counter shows for `ctx`.
pub open spec fn fps_line(ctx: RenderContext) -> Seq<char> {
    "FPS: "@ + hundredths(ctx.fps as nat) + " (effective: "@ + pad_left(
        hundredths(ctx.effective_fps as nat),
        10,
    ) + "), dimensions: ("@ + decimal(ctx.dimensions.0 as nat) + ", "@ + decimal(
        ctx.dimensions.1 as nat,
    ) + "), cursor (when this render started): ("@ + decimal(ctx.cursor.0 as nat) + ", "@
        + decimal(ctx.cursor.1 as nat) + "), last frame: "@ + decimal(frame_millis(ctx))
        + "ms, frame: "@ + decimal(ctx.frame_counter as nat)
}

/// A simple component that renders the frame rate under the cursor.
#[derive(Debug)]
pub struct Fps<M> {
    key: Key,
    _phantom: PhantomData<M>,
}

impl<M> Fps<M> {
    /// A frame counter under a key of its own. The key is all that a frame
    /// counter holds, and nothing is known of it: what the counter draws, asks
    /// for and sends is the same for every frame counter, as the functions of
    /// its [`Component`] impl say.
    pub fn new() -> Self {
        Fps { key: generate_key(), _phantom: PhantomData }
    }
}

impl<M> Component<M> for Fps<M> {
    closed spec fn spec_key(&self) -> Key {
        self.key
    }

    open spec fn spec_render(&self, ctx: RenderContext) -> Result<Seq<DrawCommandView>, Seq<char>> {
        Ok(seq![DrawCommandView::TextUnderCursor(fps_line(ctx))])
    }

    open spec fn spec_dimensions(&self) -> Result<Option<Dimensions>, Seq<char>> {
        Ok(Some((0u64, 0u64)))
    }

    open spec fn spec_style(&self) -> Option<Style> {
        None
    }

    open spec fn spec_update_error(
        &self,
        mailbox: Seq<RawComponentMessage<M>>,
        focus: Key,
        dimensions: Dimensions,
    ) -> Option<Seq<char>> {
        None
    }

    open spec fn spec_render_next(
        &self,
        mailbox: Seq<RawComponentMessage<M>>,
        focus: Key,
        dimensions: Dimensions,
        ctx: RenderContext,
    ) -> Result<Seq<DrawCommandView>, Seq<char>> {
        Ok(seq![DrawCommandView::TextUnderCursor(fps_line(ctx))])
    }

    open spec fn spec_dimensions_next(
        &self,
        mailbox: Seq<RawComponentMessage<M>>,
        focus: Key,
        dimensions: Dimensions,
    ) -> Result<Option<Dimensions>, Seq<char>> {
        Ok(Some((0u64, 0u64)))
    }

    open spec fn spec_style_next(
        &self,
        mailbox: Seq<RawComponentMessage<M>>,
        focus: Key,
        dimensions: Dimensions,
    ) -> Option<Style> {
        None
    }

    open spec fn spec_sends(&self, mailbox: Seq<RawComponentMessage<M>>, focus: Key) -> Seq<
        Delivery<M>,
    > {
        Seq::empty()
    }

    fn key(&self) -> Key {
        self.key
    }

    /// A frame counter has nothing to update.
    fn update(&mut self, ctx: &mut UpdateContext<M>) -> (r: Result<(), ComponentError>)
        ensures
            r is Ok,
            *final(self) == *old(self),
            *final(ctx) == *old(ctx),
    {
        Ok(())
    }

    /// Draws one line with the frame rate, the size of the grid, the cursor,
    /// the time of the last frame and the number of the frame.
    fn render(&self, ctx: &RenderContext) -> (r: Result<DrawCommandBatch, ComponentError>)
        ensures
            r is Ok,
    {
        let mut line = String::new();
        line.append("FPS: ");
        push_hundredths(&mut line, ctx.fps);
        line.append(" (effective: ");
        let mut effective = String::new();
        push_hundredths(&mut effective, ctx.effective_fps);
        push_padded(&mut line, effective.as_str(), 10);
        line.append("), dimensions: (");
        push_decimal(&mut line, ctx.dimensions.0 as u128);
        line.append(", ");
        push_decimal(&mut line, ctx.dimensions.1 as u128);
        line.append("), cursor (when this render started): (");
        push_decimal(&mut line, ctx.cursor.0 as u128);
        line.append(", ");
        push_decimal(&mut line, ctx.cursor.1 as u128);
        line.append("), last frame: ");
        let millis: u128 = match &ctx.last_frame_time {
            Some(d) => d.as_millis(),
            None => 0,
        };
        push_decimal(&mut line, millis);
        line.append("ms, frame: ");
        push_decimal(&mut line, ctx.frame_counter);
        assert(line@ =~= fps_line(*ctx));
        let commands = vec![DrawCommand::TextUnderCursor(line)];
        assert(crate::commands_view(commands@) =~= seq![
            DrawCommandView::TextUnderCursor(fps_line(*ctx)),
        ]);
        self.batch(commands)
    }

    /// The counter asks for no room of its own.
    fn dimensions(&self) -> (r: Result<Option<Dimensions>, ComponentError>)
        ensures
            r is Ok,
    {
        Ok(Some((0, 0)))
    }

    fn style(&self) -> Option<Style> {
        None
    }
}

} // verus!
