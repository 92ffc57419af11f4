//! A component that draws a spinner before its text.

use std::marker::PhantomData;
use std::time::Duration;
use vstd::prelude::*;
use crate::component::{
    generate_key, Component, ComponentError, Delivery, MakeupMessage, RawComponentMessage,
    RenderContext, Style, UpdateContext,
};
use crate::text::{byte_len, text_len};
use crate::{Dimensions, DrawCommand, DrawCommandBatch, DrawCommandView, Key};

verus! {

/// Whether a message is a timer tick.
pub open spec fn is_tick<M>(message: RawComponentMessage<M>) -> bool {
    message matches RawComponentMessage::Makeup(MakeupMessage::TimerTick(_))
}

/// The step of a spinner with `len` glyphs after the first `n` messages of a
/// mailbox: every timer tick moves it one glyph on, and behind the last glyph
/// comes the first.
pub open spec fn step_after<M>(mailbox: Seq<RawComponentMessage<M>>, n: nat, step: nat, len: nat) -> nat
    decreases n,
{
    if n == 0 || n > mailbox.len() {
        step
    } else {
        let before = step_after(mailbox, (n - 1) as nat, step, len);
        if is_tick(mailbox[n - 1]) {
            (before + 1) % len
        } else {
            before
        }
    }
}

/// The number of timer ticks among the first `n` messages of a mailbox.
pub open spec fn ticks<M>(mailbox: Seq<RawComponentMessage<M>>, n: nat) -> nat
    decreases n,
{
    if n == 0 || n > mailbox.len() {
        0
    } else if is_tick(mailbox[n - 1]) {
        ticks(mailbox, (n - 1) as nat) + 1
    } else {
        ticks(mailbox, (n - 1) as nat)
    }
}

/// A spinner goes around its glyphs: after the timer ticks of a mailbox it
/// stands as many glyphs on as there were ticks, counted around the glyphs.
pub proof fn lemma_step_counts_ticks<M>(
    mailbox: Seq<RawComponentMessage<M>>,
    n: nat,
    step: nat,
    len: nat,
)
    requires
        n <= mailbox.len(),
        step < len,
    ensures
        step_after(mailbox, n, step, len) == ((step + ticks(mailbox, n)) as int) % (len as int),
        step_after(mailbox, n, step, len) < len,
    decreases n,
{
    if n == 0 {
        vstd::arithmetic::div_mod::lemma_small_mod(step, len);
    } else {
        lemma_step_counts_ticks(mailbox, (n - 1) as nat, step, len);
        if is_tick(mailbox[n - 1]) {
            let before = (step + ticks(mailbox, (n - 1) as nat)) as int;
            vstd::arithmetic::div_mod::lemma_add_mod_noop(before, 1, len as int);
            vstd::arithmetic::div_mod::lemma_mod_twice(before, len as int);
            if len > 1 {
                vstd::arithmetic::div_mod::lemma_small_mod(1, len);
            }
        }
    }
}

/// The ticks that a spinner orders for itself after the first `n` messages of
/// a mailbox: one for every timer tick, each after the spinner's interval.
pub open spec fn next_ticks<M>(
    mailbox: Seq<RawComponentMessage<M>>,
    n: nat,
    key: Key,
    interval: Duration,
) -> Seq<Delivery<M>>
    decreases n,
{
    if n == 0 || n > mailbox.len() {
        Seq::empty()
    } else {
        let before = next_ticks(mailbox, (n - 1) as nat, key, interval);
        if is_tick(mailbox[n - 1]) {
            before.push(
                Delivery {
                    key,
                    message: RawComponentMessage::Makeup(MakeupMessage::TimerTick(interval)),
                    after: Some(interval),
                },
            )
        } else {
            before
        }
    }
}

/// A simple component that renders a spinner with the given text.
#[derive(Debug)]
pub struct Spinner<M> {
    text: String,
    spin_steps: Vec<char>,
    step: usize,
    key: Key,
    started: bool,
    interval: Duration,
    _phantom: PhantomData<M>,
}

impl<M> Spinner<M> {
    #[verifier::type_invariant]
    spec fn well_formed(self) -> bool {
        self.step < self.spin_steps@.len()
    }

    /// The text behind the spinner.
    pub closed spec fn spec_text(&self) -> Seq<char> {
        self.text@
    }

    /// The glyphs of the spinner.
    pub closed spec fn spec_steps(&self) -> Seq<char> {
        self.spin_steps@
    }

    /// The glyph that the spinner shows, by its place among the glyphs.
    pub closed spec fn spec_step(&self) -> nat {
        self.step as nat
    }

    /// Whether the spinner has ordered its first tick.
    pub closed spec fn spec_started(&self) -> bool {
        self.started
    }

    /// The time between two ticks.
    pub closed spec fn spec_interval(&self) -> Duration {
        self.interval
    }

    /// A spinner that shows the first of `spin_steps` before `text`. It needs
    /// one glyph at least.
    pub fn new(text: &str, spin_steps: Vec<char>, interval: Duration) -> (component: Self)
        requires
            spin_steps@.len() > 0,
        ensures
            component.spec_text() == text@,
            component.spec_steps() == spin_steps@,
            component.spec_step() == 0,
            !component.spec_started(),
            component.spec_interval() == interval,
    {
        Spinner {
            text: String::from_str(text),
            spin_steps,
            step: 0,
            key: generate_key(),
            started: false,
            interval,
            _phantom: PhantomData,
        }
    }
}

impl<M> Component<M> for Spinner<M> {
    closed spec fn spec_key(&self) -> Key {
        self.key
    }

    open spec fn spec_render(&self, ctx: RenderContext) -> Result<Seq<DrawCommandView>, Seq<char>> {
        Ok(
            seq![
                DrawCommandView::CharUnderCursor(self.spec_steps()[self.spec_step() as int]),
                DrawCommandView::CharUnderCursor(' '),
                DrawCommandView::TextUnderCursor(self.spec_text()),
            ],
        )
    }

    open spec fn spec_dimensions(&self) -> Result<Option<Dimensions>, Seq<char>> {
        Ok(Some((byte_len(self.spec_text()).saturating_add(2), 1u64)))
    }

    open spec fn spec_style(&self) -> Option<Style> {
        None
    }

    open spec fn spec_update_error(
        &self,
        mailbox: Seq<RawComponentMessage<M>>,
        focus: Key,
        dimensions: Dimensions,
    ) -> Option<Seq<char>> {
        None
    }

    open spec fn spec_render_next(
        &self,
        mailbox: Seq<RawComponentMessage<M>>,
        focus: Key,
        dimensions: Dimensions,
        ctx: RenderContext,
    ) -> Result<Seq<DrawCommandView>, Seq<char>> {
        Ok(
            seq![
                DrawCommandView::CharUnderCursor(
                    self.spec_steps()[step_after(
                        mailbox,
                        mailbox.len(),
                        self.spec_step(),
                        self.spec_steps().len(),
                    ) as int],
                ),
                DrawCommandView::CharUnderCursor(' '),
                DrawCommandView::TextUnderCursor(self.spec_text()),
            ],
        )
    }

    open spec fn spec_dimensions_next(
        &self,
        mailbox: Seq<RawComponentMessage<M>>,
        focus: Key,
        dimensions: Dimensions,
    ) -> Result<Option<Dimensions>, Seq<char>> {
        Ok(Some((byte_len(self.spec_text()).saturating_add(2), 1u64)))
    }

    open spec fn spec_style_next(
        &self,
        mailbox: Seq<RawComponentMessage<M>>,
        focus: Key,
        dimensions: Dimensions,
    ) -> Option<Style> {
        None
    }

    open spec fn spec_sends(&self, mailbox: Seq<RawComponentMessage<M>>, focus: Key) -> Seq<
        Delivery<M>,
    > {
        let first = if self.spec_started() {
            Seq::empty()
        } else {
            seq![
                Delivery {
                    key: self.spec_key(),
                    message: RawComponentMessage::Makeup(MakeupMessage::TimerTick(self.spec_interval())),
                    after: None,
                },
            ]
        };
        first + next_ticks(mailbox, mailbox.len(), self.spec_key(), self.spec_interval())
    }

    fn key(&self) -> Key {
        self.key
    }

    /// Orders the first tick when it updates for the first time. Every timer
    /// tick in the mailbox moves the spinner one glyph on and orders the next
    /// tick, after the spinner's interval.
    fn update(&mut self, ctx: &mut UpdateContext<M>) -> (r: Result<(), ComponentError>)
        ensures
            r is Ok,
            final(self).spec_text() == old(self).spec_text(),
            final(self).spec_steps() == old(self).spec_steps(),
            final(self).spec_interval() == old(self).spec_interval(),
            final(self).spec_started(),
            final(self).spec_step() == step_after(
                old(ctx).mailbox@,
                old(ctx).mailbox@.len(),
                old(self).spec_step(),
                old(self).spec_steps().len(),
            ),
            final(ctx).mailbox == old(ctx).mailbox,
    {
        proof {
            use_type_invariant(&*self);
        }
        let ghost first = if self.started {
            Seq::<Delivery<M>>::empty()
        } else {
            seq![
                Delivery {
                    key: self.key,
                    message: RawComponentMessage::Makeup(MakeupMessage::TimerTick(self.interval)),
                    after: None,
                },
            ]
        };
        if !self.started {
            let _ = ctx.sender.send_makeup_message(self.key, MakeupMessage::TimerTick(self.interval));
            self.started = true;
        }
        let key = self.key;
        let interval = self.interval;
        let len = self.spin_steps.len();
        let mut step = self.step;
        let mut i: usize = 0;
        while i < ctx.mailbox.len()
            invariant
                i <= ctx.mailbox.len(),
                ctx.mailbox == old(ctx).mailbox,
                ctx.focus == old(ctx).focus,
                ctx.dimensions == old(ctx).dimensions,
                ctx.sender.spec_focus() == old(ctx).sender.spec_focus(),
                len == old(self).spin_steps@.len(),
                step < len,
                step == step_after(ctx.mailbox@, i as nat, old(self).step as nat, len as nat),
                ctx.sender.sent() == old(ctx).sender.sent() + first + next_ticks(
                    ctx.mailbox@,
                    i as nat,
                    key,
                    interval,
                ),
            decreases ctx.mailbox.len() - i,
        {
            let tick = match &ctx.mailbox[i] {
                RawComponentMessage::Makeup(MakeupMessage::TimerTick(_)) => true,
                _ => false,
            };
            if tick {
                step = (step + 1) % len;
                let _ = ctx.sender.send_makeup_message_after(
                    key,
                    MakeupMessage::TimerTick(interval),
                    interval,
                );
            }
            i += 1;
        }
        self.step = step;
        Ok(())
    }

    /// Draws the glyph of the current step, a space and the text.
    fn render(&self, ctx: &RenderContext) -> (r: Result<DrawCommandBatch, ComponentError>)
        ensures
            self.spec_step() < self.spec_steps().len(),
            r matches Ok(batch) && crate::commands_view(batch.1@) == seq![
                DrawCommandView::CharUnderCursor(self.spec_steps()[self.spec_step() as int]),
                DrawCommandView::CharUnderCursor(' '),
                DrawCommandView::TextUnderCursor(self.spec_text()),
            ],
    {
        proof {
            use_type_invariant(self);
        }
        let glyph = self.spin_steps[self.step];
        let commands = vec![
            DrawCommand::CharUnderCursor(glyph),
            DrawCommand::CharUnderCursor(' '),
            DrawCommand::TextUnderCursor(self.text.clone()),
        ];
        assert(commands@.len() == 3);
        assert(commands@[0]@ == DrawCommandView::CharUnderCursor(glyph));
        assert(commands@[1]@ == DrawCommandView::CharUnderCursor(' '));
        assert(commands@[2]@ == DrawCommandView::TextUnderCursor(self.text@));
        assert(crate::commands_view(commands@) =~= seq![
            DrawCommandView::CharUnderCursor(self.spin_steps@[self.step as int]),
            DrawCommandView::CharUnderCursor(' '),
            DrawCommandView::TextUnderCursor(self.text@),
        ]);
        self.batch(commands)
    }

    /// One row, as wide as the glyph, a space and the text.
    fn dimensions(&self) -> (r: Result<Option<Dimensions>, ComponentError>)
        ensures
            r == Ok::<Option<Dimensions>, ComponentError>(
                Some((byte_len(self.spec_text()).saturating_add(2), 1u64)),
            ),
    {
        Ok(Some((text_len(self.text.as_str()).saturating_add(2), 1)))
    }

    fn style(&self) -> Option<Style> {
        None
    }
}

} // verus!
