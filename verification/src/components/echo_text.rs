//! A component that draws its text under the cursor.

use std::marker::PhantomData;
use vstd::prelude::*;
use crate::component::{
    generate_key, Component, ComponentError, Delivery, RawComponentMessage, RenderContext,
    Style, UpdateContext,
};
use crate::components::{read_text_updates, text_after};
use crate::text::{byte_len, text_len};
use crate::{Dimensions, DrawCommand, DrawCommandBatch, DrawCommandView, Key};

verus! {

/// A simple component that renders text under the cursor.
#[derive(Debug)]
pub struct EchoText<M> {
    text: String,
    key: Key,
    _phantom: PhantomData<M>,
}

impl<M> EchoText<M> {
    /// The text that the component shows.
    pub closed spec fn spec_text(&self) -> Seq<char> {
        self.text@
    }

    /// A component that shows `text`, under a key of its own.
    pub fn new(text: &str) -> (component: Self)
        ensures
            component.spec_text() == text@,
    {
        EchoText { text: String::from_str(text), key: generate_key(), _phantom: PhantomData }
    }

    /// The text that the component shows.
    pub fn to_string(&self) -> (text: String)
        ensures
            text@ == self.spec_text(),
    {
        self.text.clone()
    }
}

impl<M> Component<M> for EchoText<M> {
    closed spec fn spec_key(&self) -> Key {
        self.key
    }

    open spec fn spec_render(&self, ctx: RenderContext) -> Result<Seq<DrawCommandView>, Seq<char>> {
        Ok(seq![DrawCommandView::TextUnderCursor(self.spec_text())])
    }

    open spec fn spec_dimensions(&self) -> Result<Option<Dimensions>, Seq<char>> {
        Ok(Some((byte_len(self.spec_text()), 1u64)))
    }

    open spec fn spec_style(&self) -> Option<Style> {
        None
    }

    open spec fn spec_update_error(
        &self,
        mailbox: Seq<RawComponentMessage<M>>,
        focus: Key,
        dimensions: Dimensions,
    ) -> Option<Seq<char>> {
        None
    }

    open spec fn spec_render_next(
        &self,
        mailbox: Seq<RawComponentMessage<M>>,
        focus: Key,
        dimensions: Dimensions,
        ctx: RenderContext,
    ) -> Result<Seq<DrawCommandView>, Seq<char>> {
        Ok(seq![DrawCommandView::TextUnderCursor(text_after(mailbox, mailbox.len(), self.spec_text()))])
    }

    open spec fn spec_dimensions_next(
        &self,
        mailbox: Seq<RawComponentMessage<M>>,
        focus: Key,
        dimensions: Dimensions,
    ) -> Result<Option<Dimensions>, Seq<char>> {
        Ok(Some((byte_len(text_after(mailbox, mailbox.len(), self.spec_text())), 1u64)))
    }

    open spec fn spec_style_next(
        &self,
        mailbox: Seq<RawComponentMessage<M>>,
        focus: Key,
        dimensions: Dimensions,
    ) -> Option<Style> {
        None
    }

    open spec fn spec_sends(&self, mailbox: Seq<RawComponentMessage<M>>, focus: Key) -> Seq<
        Delivery<M>,
    > {
        Seq::empty()
    }

    fn key(&self) -> Key {
        self.key
    }

    /// Takes over the text of the last `TextUpdate` in the mailbox.
    fn update(&mut self, ctx: &mut UpdateContext<M>) -> (r: Result<(), ComponentError>)
        ensures
            r is Ok,
            final(self).spec_text() == text_after(
                old(ctx).mailbox@,
                old(ctx).mailbox@.len(),
                old(self).spec_text(),
            ),
            *final(ctx) == *old(ctx),
    {
        read_text_updates(&ctx.mailbox, &mut self.text);
        Ok(())
    }

    /// Draws the text under the cursor.
    fn render(&self, ctx: &RenderContext) -> (r: Result<DrawCommandBatch, ComponentError>)
        ensures
            r matches Ok(batch) && crate::commands_view(batch.1@) == seq![
                DrawCommandView::TextUnderCursor(self.spec_text()),
            ],
    {
        let commands = vec![DrawCommand::TextUnderCursor(self.text.clone())];
        assert(crate::commands_view(commands@) =~= seq![
            DrawCommandView::TextUnderCursor(self.text@),
        ]);
        self.batch(commands)
    }

    /// One row, as wide as the text has bytes.
    fn dimensions(&self) -> (r: Result<Option<Dimensions>, ComponentError>)
        ensures
            r == Ok::<Option<Dimensions>, ComponentError>(
                Some((byte_len(self.spec_text()), 1u64)),
            ),
    {
        Ok(Some((text_len(self.text.as_str()), 1)))
    }

    fn style(&self) -> Option<Style> {
        None
    }
}

} // verus!
