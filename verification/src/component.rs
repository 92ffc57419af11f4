//! Components, the messages they receive, and what they are handed when they
//! update and render.

pub use crate::{DrawCommandBatch, Key};

use std::time::Duration;
use vstd::prelude::*;
use crate::console::Keypress;
use crate::{Coordinates, Dimensions, DrawCommand, DrawCommandView};

verus! {

/// A message that every component understands.
#[derive(Debug, Clone)]
pub enum MakeupMessage {
    /// A timer fired; the duration is the timer's interval.
    TimerTick(Duration),
    /// New text to show.
    TextUpdate(String),
    /// A key was pressed while the component had the focus.
    Keypress(Keypress),
}

/// A message in a mailbox: either the component's own kind of message, or a
/// [`MakeupMessage`].
#[derive(Debug, Clone)]
pub enum RawComponentMessage<M> {
    Component(M),
    Makeup(MakeupMessage),
}

/// The messages that wait for one component, oldest first.
pub type Mailbox<M> = Vec<RawComponentMessage<M>>;

/// A message on its way: where it goes, and how long it waits before it is
/// put into the mailbox.
#[derive(Debug, Clone)]
pub struct Delivery<M> {
    pub key: Key,
    pub message: RawComponentMessage<M>,
    pub after: Option<Duration>,
}

/// Why a component could not update or render.
#[derive(Debug, Clone, PartialEq, Eq)]
pub struct ComponentError {
    pub message: String,
}

/// Collects the messages that a component sends while it updates. They reach
/// their mailboxes after the update pass, the delayed ones once their delay is
/// over.
#[derive(Debug)]
pub struct MessageSender<M> {
    focus: Key,
    outbox: Vec<Delivery<M>>,
}

impl<M> MessageSender<M> {
    /// The key of the focused component.
    pub closed spec fn spec_focus(&self) -> Key {
        self.focus
    }

    /// What was sent so far, oldest first.
    pub closed spec fn sent(&self) -> Seq<Delivery<M>> {
        self.outbox@
    }

    /// A sender that has sent nothing.
    pub fn new(focus: Key) -> (sender: Self)
        ensures
            sender.spec_focus() == focus,
            sender.sent() == Seq::<Delivery<M>>::empty(),
    {
        MessageSender { focus, outbox: Vec::new() }
    }

    fn push(&mut self, delivery: Delivery<M>)
        ensures
            final(self).spec_focus() == old(self).spec_focus(),
            final(self).sent() == old(self).sent().push(delivery),
    {
        self.outbox.push(delivery);
    }

    /// Send a message to the given component.
    pub fn send_message(&mut self, key: Key, msg: M) -> (r: Result<(), ComponentError>)
        ensures
            r is Ok,
            final(self).spec_focus() == old(self).spec_focus(),
            final(self).sent() == old(self).sent().push(
                Delivery { key, message: RawComponentMessage::Component(msg), after: None },
            ),
    {
        self.push(Delivery { key, message: RawComponentMessage::Component(msg), after: None });
        Ok(())
    }

    /// Send a [`MakeupMessage`] to the given component.
    pub fn send_makeup_message(&mut self, key: Key, msg: MakeupMessage) -> (r: Result<
        (),
        ComponentError,
    >)
        ensures
            r is Ok,
            final(self).spec_focus() == old(self).spec_focus(),
            final(self).sent() == old(self).sent().push(
                Delivery { key, message: RawComponentMessage::Makeup(msg), after: None },
            ),
    {
        self.push(Delivery { key, message: RawComponentMessage::Makeup(msg), after: None });
        Ok(())
    }

    /// Send a message to the given component after the given duration.
    pub fn send_message_after(&mut self, key: Key, msg: M, duration: Duration) -> (r: Result<
        (),
        ComponentError,
    >)
        ensures
            r is Ok,
            final(self).spec_focus() == old(self).spec_focus(),
            final(self).sent() == old(self).sent().push(
                Delivery { key, message: RawComponentMessage::Component(msg), after: Some(duration) },
            ),
    {
        self.push(
            Delivery { key, message: RawComponentMessage::Component(msg), after: Some(duration) },
        );
        Ok(())
    }

    /// Send a [`MakeupMessage`] to the given component after the given
    /// duration.
    pub fn send_makeup_message_after(
        &mut self,
        key: Key,
        msg: MakeupMessage,
        duration: Duration,
    ) -> (r: Result<(), ComponentError>)
        ensures
            r is Ok,
            final(self).spec_focus() == old(self).spec_focus(),
            final(self).sent() == old(self).sent().push(
                Delivery { key, message: RawComponentMessage::Makeup(msg), after: Some(duration) },
            ),
    {
        self.push(
            Delivery { key, message: RawComponentMessage::Makeup(msg), after: Some(duration) },
        );
        Ok(())
    }

    /// Send a message to the focused component.
    pub fn send_message_to_focused(&mut self, msg: M) -> (r: Result<(), ComponentError>)
        ensures
            r is Ok,
            final(self).spec_focus() == old(self).spec_focus(),
            final(self).sent() == old(self).sent().push(
                Delivery {
                    key: old(self).spec_focus(),
                    message: RawComponentMessage::Component(msg),
                    after: None,
                },
            ),
    {
        self.send_message(self.focus, msg)
    }

    /// Send a [`MakeupMessage`] to the focused component.
    pub fn send_makeup_message_to_focused(&mut self, msg: MakeupMessage) -> (r: Result<
        (),
        ComponentError,
    >)
        ensures
            r is Ok,
            final(self).spec_focus() == old(self).spec_focus(),
            final(self).sent() == old(self).sent().push(
                Delivery {
                    key: old(self).spec_focus(),
                    message: RawComponentMessage::Makeup(msg),
                    after: None,
                },
            ),
    {
        self.send_makeup_message(self.focus, msg)
    }

    /// Send a message to the focused component after the given duration.
    pub fn send_message_to_focused_after(&mut self, msg: M, duration: Duration) -> (r: Result<
        (),
        ComponentError,
    >)
        ensures
            r is Ok,
            final(self).spec_focus() == old(self).spec_focus(),
            final(self).sent() == old(self).sent().push(
                Delivery {
                    key: old(self).spec_focus(),
                    message: RawComponentMessage::Component(msg),
                    after: Some(duration),
                },
            ),
    {
        self.send_message_after(self.focus, msg, duration)
    }

    /// Send a [`MakeupMessage`] to the focused component after the given
    /// duration.
    pub fn send_makeup_message_to_focused_after(
        &mut self,
        msg: MakeupMessage,
        duration: Duration,
    ) -> (r: Result<(), ComponentError>)
        ensures
            r is Ok,
            final(self).spec_focus() == old(self).spec_focus(),
            final(self).sent() == old(self).sent().push(
                Delivery {
                    key: old(self).spec_focus(),
                    message: RawComponentMessage::Makeup(msg),
                    after: Some(duration),
                },
            ),
    {
        self.send_makeup_message_after(self.focus, msg, duration)
    }

    /// Hands out what was sent, oldest first.
    pub fn into_sent(self) -> (sent: Vec<Delivery<M>>)
        ensures
            sent@ == self.sent(),
    {
        self.outbox
    }
}

/// What a component is handed when it updates: the messages that waited in its
/// mailbox when the pass reached it, a sender for messages of its own, the key
/// of the focused component and the size of the grid.
#[derive(Debug)]
pub struct UpdateContext<M> {
    /// The messages for this component, oldest first.
    pub mailbox: Mailbox<M>,
    /// Used for sending messages.
    pub sender: MessageSender<M>,
    /// The key of the focused component.
    pub focus: Key,
    /// The dimensions of the character grid.
    pub dimensions: Dimensions,
}

impl<M> UpdateContext<M> {
    /// A context with the given mailbox and a sender that has sent nothing.
    pub fn new(mailbox: Mailbox<M>, focus: Key, dimensions: Dimensions) -> (ctx: Self)
        ensures
            ctx.mailbox == mailbox,
            ctx.sender.spec_focus() == focus,
            ctx.sender.sent() == Seq::<Delivery<M>>::empty(),
            ctx.focus == focus,
            ctx.dimensions == dimensions,
    {
        UpdateContext { mailbox, sender: MessageSender::new(focus), focus, dimensions }
    }
}

/// What a component is handed when it renders.
#[derive(Debug, Clone, Copy)]
pub struct RenderContext {
    /// How long the previous frame took to render, if there was one.
    pub last_frame_time: Option<Duration>,
    /// The number of the current frame. Will only ever increase.
    pub frame_counter: u128,
    /// The last frame rate, capped at the target rate, in hundredths of a
    /// frame per second.
    pub fps: u64,
    /// The last frame rate as measured, in hundredths of a frame per second.
    pub effective_fps: u64,
    /// The coordinates of the cursor in the character grid.
    pub cursor: Coordinates,
    /// The dimensions of the character grid.
    pub dimensions: Dimensions,
    /// The key of the focused component.
    pub focus: Key,
}

/// The direction in which a component lays out its children.
#[derive(Debug, Clone, Copy, PartialEq, Eq, Structural)]
pub enum FlexDirection {
    /// Side by side, left to right.
    Row,
    /// One below the other.
    Column,
}

/// How a component lays out its children.
#[derive(Debug, Clone, Copy, PartialEq, Eq, Structural)]
pub struct Style {
    pub flex_direction: FlexDirection,
}

/// A component of the UI. It owns its state, changes it in `update` from the
/// messages it is handed, and draws it in `render`.
///
/// The `spec_` functions say what the component is and does, for contracts
/// to speak of. A component that does not define them leaves them open.
pub trait Component<M> {
    /// The key of the component. It stays the same as long as the component
    /// lives.
    open spec fn spec_key(&self) -> Key {
        arbitrary()
    }

    /// What the component draws for `ctx`, or the message of the error with
    /// which it fails.
    open spec fn spec_render(&self, ctx: RenderContext) -> Result<Seq<DrawCommandView>, Seq<char>> {
        arbitrary()
    }

    /// The size that the component asks for, or the message of the error with
    /// which it fails. `None` leaves the size to the layout.
    open spec fn spec_dimensions(&self) -> Result<Option<Dimensions>, Seq<char>> {
        arbitrary()
    }

    /// How the component lays out its children.
    open spec fn spec_style(&self) -> Option<Style> {
        arbitrary()
    }

    /// The message of the error with which the component fails to update
    /// with `mailbox`; `None` where it updates.
    open spec fn spec_update_error(
        &self,
        mailbox: Seq<RawComponentMessage<M>>,
        focus: Key,
        dimensions: Dimensions,
    ) -> Option<Seq<char>> {
        arbitrary()
    }

    /// The messages that the component sends when it updates with `mailbox`.
    open spec fn spec_sends(&self, mailbox: Seq<RawComponentMessage<M>>, focus: Key) -> Seq<
        Delivery<M>,
    > {
        arbitrary()
    }

    /// What the component draws for `ctx` once it has updated with `mailbox`.
    open spec fn spec_render_next(
        &self,
        mailbox: Seq<RawComponentMessage<M>>,
        focus: Key,
        dimensions: Dimensions,
        ctx: RenderContext,
    ) -> Result<Seq<DrawCommandView>, Seq<char>> {
        arbitrary()
    }

    /// The size that the component asks for once it has updated with
    /// `mailbox`.
    open spec fn spec_dimensions_next(
        &self,
        mailbox: Seq<RawComponentMessage<M>>,
        focus: Key,
        dimensions: Dimensions,
    ) -> Result<Option<Dimensions>, Seq<char>> {
        arbitrary()
    }

    /// How the component lays out its children once it has updated with
    /// `mailbox`.
    open spec fn spec_style_next(
        &self,
        mailbox: Seq<RawComponentMessage<M>>,
        focus: Key,
        dimensions: Dimensions,
    ) -> Option<Style> {
        arbitrary()
    }

    /// A unique key for this component. See [`generate_key`].
    fn key(&self) -> (key: Key)
        ensures
            key == self.spec_key(),
    ;

    /// Process the messages of `ctx.mailbox`. Rendering must not change the
    /// component: only `update` does.
    fn update(&mut self, ctx: &mut UpdateContext<M>) -> (r: Result<(), ComponentError>)
        ensures
            final(self).spec_key() == old(self).spec_key(),
            final(ctx).focus == old(ctx).focus,
            final(ctx).dimensions == old(ctx).dimensions,
            final(ctx).sender.spec_focus() == old(ctx).sender.spec_focus(),
            match old(self).spec_update_error(
                old(ctx).mailbox@,
                old(ctx).focus,
                old(ctx).dimensions,
            ) {
                Some(message) => r matches Err(e) && e.message@ == message,
                None => {
                    &&& r is Ok
                    &&& final(ctx).sender.sent() == old(ctx).sender.sent() + old(self).spec_sends(
                        old(ctx).mailbox@,
                        old(ctx).focus,
                    )
                    &&& forall|next: RenderContext| #[trigger]
                        final(self).spec_render(next) == old(self).spec_render_next(
                            old(ctx).mailbox@,
                            old(ctx).focus,
                            old(ctx).dimensions,
                            next,
                        )
                    &&& final(self).spec_dimensions() == old(self).spec_dimensions_next(
                        old(ctx).mailbox@,
                        old(ctx).focus,
                        old(ctx).dimensions,
                    )
                    &&& final(self).spec_style() == old(self).spec_style_next(
                        old(ctx).mailbox@,
                        old(ctx).focus,
                        old(ctx).dimensions,
                    )
                },
            },
    ;

    /// Render this component.
    fn render(&self, ctx: &RenderContext) -> (r: Result<DrawCommandBatch, ComponentError>)
        ensures
            match r {
                Ok(batch) => batch.0 == self.spec_key() && self.spec_render(*ctx) == Ok::<
                    Seq<DrawCommandView>,
                    Seq<char>,
                >(crate::commands_view(batch.1@)),
                Err(e) => self.spec_render(*ctx) == Err::<Seq<DrawCommandView>, Seq<char>>(
                    e.message@,
                ),
            },
    ;

    /// Batch the given draw commands with this component's key.
    fn batch(&self, commands: Vec<DrawCommand>) -> (r: Result<DrawCommandBatch, ComponentError>)
        ensures
            r == Ok::<DrawCommandBatch, ComponentError>((self.spec_key(), commands)),
    {
        Ok((self.key(), commands))
    }

    /// The dimensions of this component. Positions are worked out by the
    /// layout, or follow from the order of rendering.
    fn dimensions(&self) -> (r: Result<Option<Dimensions>, ComponentError>)
        ensures
            match r {
                Ok(d) => self.spec_dimensions() == Ok::<Option<Dimensions>, Seq<char>>(d),
                Err(e) => self.spec_dimensions() == Err::<Option<Dimensions>, Seq<char>>(
                    e.message@,
                ),
            },
    ;

    /// How this component lays out its children.
    fn style(&self) -> (style: Option<Style>)
        ensures
            style == self.spec_style(),
    ;
}

/// Generate a most-likely-unique key for a component, with `rand::random`.
/// Nothing is known of the key: any `u64` can come out.
#[verifier::external_body]
pub fn generate_key() -> Key {
    rand::random::<Key>()
}

} // verus!
