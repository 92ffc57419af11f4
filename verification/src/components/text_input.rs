//! A component that shows a prompt and the text typed behind it.

use std::marker::PhantomData;
use vstd::prelude::*;
use crate::ansi::LineEraseMode;
use crate::component::{
    generate_key, Component, ComponentError, Delivery, MakeupMessage, RawComponentMessage,
    RenderContext, Style, UpdateContext,
};
use crate::console::Keypress;
use crate::text::{byte_len, text_len};
use crate::{Dimensions, DrawCommand, DrawCommandBatch, DrawCommandView, Key};

verus! {

/// The typed text after the first `n` messages of a mailbox: a character key
/// adds its character, a backspace takes the last character away.
pub open spec fn buffer_after<M>(mailbox: Seq<RawComponentMessage<M>>, n: nat, buffer: Seq<char>) -> Seq<
    char,
>
    decreases n,
{
    if n == 0 || n > mailbox.len() {
        buffer
    } else {
        let before = buffer_after(mailbox, (n - 1) as nat, buffer);
        match mailbox[n - 1] {
            RawComponentMessage::Makeup(MakeupMessage::Keypress(Keypress::Char(c))) => before.push(
                c,
            ),
            RawComponentMessage::Makeup(MakeupMessage::Keypress(Keypress::Backspace)) => if before.len()
                > 0 {
                before.drop_last()
            } else {
                before
            },
            _ => before,
        }
    }
}

/// Whether one of the first `n` messages of a mailbox is a backspace.
pub open spec fn has_backspace<M>(mailbox: Seq<RawComponentMessage<M>>, n: nat) -> bool
    decreases n,
{
    if n == 0 || n > mailbox.len() {
        false
    } else {
        has_backspace(mailbox, (n - 1) as nat) || mailbox[n - 1] matches RawComponentMessage::Makeup(
            MakeupMessage::Keypress(Keypress::Backspace),
        )
    }
}

/// What a text input draws: the prompt, a colon and a space, and the typed
/// text; behind a backspace the rest of the line is erased.
pub open spec fn input_commands(prompt: Seq<char>, buffer: Seq<char>, shrunk: bool) -> Seq<
    DrawCommandView,
> {
    let line = seq![
        DrawCommandView::TextUnderCursor(prompt),
        DrawCommandView::CharUnderCursor(':'),
        DrawCommandView::CharUnderCursor(' '),
        DrawCommandView::TextUnderCursor(buffer),
    ];
    if shrunk {
        line.push(DrawCommandView::EraseCurrentLine(LineEraseMode::FromCursorToEnd))
    } else {
        line
    }
}

/// A simple component that renders a prompt and the text typed so far.
#[derive(Debug)]
pub struct TextInput<M> {
    prompt: String,
    key: Key,
    buffer: String,
    shrunk: bool,
    _phantom: PhantomData<M>,
}

impl<M> TextInput<M> {
    /// The prompt.
    pub closed spec fn spec_prompt(&self) -> Seq<char> {
        self.prompt@
    }

    /// The text typed so far.
    pub closed spec fn spec_buffer(&self) -> Seq<char> {
        self.buffer@
    }

    /// Whether the last update read a backspace.
    pub closed spec fn spec_shrunk(&self) -> bool {
        self.shrunk
    }

    /// An empty input behind `prompt`, under a key of its own.
    pub fn new(prompt: &str) -> (component: Self)
        ensures
            component.spec_prompt() == prompt@,
            component.spec_buffer() == Seq::<char>::empty(),
            !component.spec_shrunk(),
    {
        TextInput {
            prompt: String::from_str(prompt),
            buffer: String::new(),
            key: generate_key(),
            shrunk: false,
            _phantom: PhantomData,
        }
    }
}

impl<M> Component<M> for TextInput<M> {
    closed spec fn spec_key(&self) -> Key {
        self.key
    }

    open spec fn spec_render(&self, ctx: RenderContext) -> Result<Seq<DrawCommandView>, Seq<char>> {
        Ok(input_commands(self.spec_prompt(), self.spec_buffer(), self.spec_shrunk()))
    }

    open spec fn spec_dimensions(&self) -> Result<Option<Dimensions>, Seq<char>> {
        Ok(
            Some(
                (
                    byte_len(self.spec_prompt()).saturating_add(2).saturating_add(byte_len(self.spec_buffer())),
                    1u64,
                ),
            ),
        )
    }

    open spec fn spec_style(&self) -> Option<Style> {
        None
    }

    open spec fn spec_update_error(
        &self,
        mailbox: Seq<RawComponentMessage<M>>,
        focus: Key,
        dimensions: Dimensions,
    ) -> Option<Seq<char>> {
        None
    }

    open spec fn spec_render_next(
        &self,
        mailbox: Seq<RawComponentMessage<M>>,
        focus: Key,
        dimensions: Dimensions,
        ctx: RenderContext,
    ) -> Result<Seq<DrawCommandView>, Seq<char>> {
        Ok(
            input_commands(
                self.spec_prompt(),
                buffer_after(mailbox, mailbox.len(), self.spec_buffer()),
                has_backspace(mailbox, mailbox.len()),
            ),
        )
    }

    open spec fn spec_dimensions_next(
        &self,
        mailbox: Seq<RawComponentMessage<M>>,
        focus: Key,
        dimensions: Dimensions,
    ) -> Result<Option<Dimensions>, Seq<char>> {
        Ok(
            Some(
                (
                    byte_len(self.spec_prompt()).saturating_add(2).saturating_add(
                        byte_len(buffer_after(mailbox, mailbox.len(), self.spec_buffer())),
                    ),
                    1u64,
                ),
            ),
        )
    }

    open spec fn spec_style_next(
        &self,
        mailbox: Seq<RawComponentMessage<M>>,
        focus: Key,
        dimensions: Dimensions,
    ) -> Option<Style> {
        None
    }

    open spec fn spec_sends(&self, mailbox: Seq<RawComponentMessage<M>>, focus: Key) -> Seq<
        Delivery<M>,
    > {
        Seq::empty()
    }

    fn key(&self) -> Key {
        self.key
    }

    /// Reads the keys of the mailbox in order: a character is added to the
    /// typed text, a backspace takes its last character away.
    fn update(&mut self, ctx: &mut UpdateContext<M>) -> (r: Result<(), ComponentError>)
        ensures
            r is Ok,
            final(self).spec_prompt() == old(self).spec_prompt(),
            final(self).spec_buffer() == buffer_after(
                old(ctx).mailbox@,
                old(ctx).mailbox@.len(),
                old(self).spec_buffer(),
            ),
            final(self).spec_shrunk() == has_backspace(old(ctx).mailbox@, old(ctx).mailbox@.len()),
            *final(ctx) == *old(ctx),
    {
        let mut shrunk = false;
        let mut i: usize = 0;
        while i < ctx.mailbox.len()
            invariant
                i <= ctx.mailbox.len(),
                *ctx == *old(ctx),
                self.prompt == old(self).prompt,
                self.key == old(self).key,
                self.buffer@ == buffer_after(ctx.mailbox@, i as nat, old(self).buffer@),
                shrunk == has_backspace(ctx.mailbox@, i as nat),
            decreases ctx.mailbox.len() - i,
        {
            match &ctx.mailbox[i] {
                RawComponentMessage::Makeup(MakeupMessage::Keypress(Keypress::Char(c))) => {
                    self.buffer.push(*c);
                },
                RawComponentMessage::Makeup(MakeupMessage::Keypress(Keypress::Backspace)) => {
                    self.buffer.pop();
                    shrunk = true;
                },
                _ => {},
            }
            i += 1;
        }
        self.shrunk = shrunk;
        Ok(())
    }

    /// Draws the prompt, a colon and a space, and the typed text; behind a
    /// backspace it erases the rest of the line.
    fn render(&self, ctx: &RenderContext) -> (r: Result<DrawCommandBatch, ComponentError>)
        ensures
            r matches Ok(batch) && crate::commands_view(batch.1@) == input_commands(
                self.spec_prompt(),
                self.spec_buffer(),
                self.spec_shrunk(),
            ),
    {
        let mut commands = vec![
            DrawCommand::TextUnderCursor(self.prompt.clone()),
            DrawCommand::CharUnderCursor(':'),
            DrawCommand::CharUnderCursor(' '),
            DrawCommand::TextUnderCursor(self.buffer.clone()),
        ];
        if self.shrunk {
            commands.push(DrawCommand::EraseCurrentLine(LineEraseMode::FromCursorToEnd));
        }
        assert(crate::commands_view(commands@) =~= input_commands(
            self.prompt@,
            self.buffer@,
            self.shrunk,
        ));
        self.batch(commands)
    }

    /// One row, as wide as the prompt, the colon and the space, and the typed
    /// text.
    fn dimensions(&self) -> (r: Result<Option<Dimensions>, ComponentError>)
        ensures
            r == Ok::<Option<Dimensions>, ComponentError>(
                Some(
                    (
                        byte_len(self.spec_prompt()).saturating_add(2).saturating_add(
                            byte_len(self.spec_buffer()),
                        ),
                        1u64,
                    ),
                ),
            ),
    {
        Ok(
            Some(
                (
                    text_len(self.prompt.as_str()).saturating_add(2).saturating_add(
                        text_len(self.buffer.as_str()),
                    ),
                    1,
                ),
            ),
        )
    }

    fn style(&self) -> Option<Style> {
        None
    }
}

} // verus!
