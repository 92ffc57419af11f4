//! The UI: a tree of components, its post office and its focus, and the run
//! loop that updates and renders it.

pub use crate::layout::Layout;
pub use crate::pacing::{pace, FRAME_MICROS, TARGET_FPS};
pub use crate::tree::{LayoutItem, Node, PassView};

use vstd::prelude::*;
use crate::component::{
    ComponentError, Delivery, MakeupMessage, RawComponentMessage, RenderContext,
};
use crate::console::Keypress;
use crate::input::{collect_pending_input, input_ended, pressed, InputFrame};
use crate::post_office::{PostOffice, PostOfficeView};
use crate::render::{RenderError, Renderer};
use crate::{batches_view, BatchView, Coordinates, Dimensions, DrawCommandBatch, Key};

verus! {

/// A message to the UI itself.
#[derive(Debug, Clone, Copy, PartialEq, Eq, Structural)]
pub enum UiControlMessage {
    /// Give the focus to the component with this key.
    MoveFocus(Key),
    /// Stop rendering.
    StopRendering,
}

/// Whether the UI is still rendering.
#[derive(Debug, Clone, Copy, PartialEq, Eq, Structural)]
pub enum RenderState {
    Running,
    Stopped,
}

/// The focus after the control messages have been read in order: the key of
/// the last `MoveFocus`, or the focus as it was.
pub open spec fn focus_after(focus: Key, control: Seq<UiControlMessage>) -> Key
    decreases control.len(),
{
    if control.len() == 0 {
        focus
    } else {
        match control.last() {
            UiControlMessage::MoveFocus(key) => key,
            UiControlMessage::StopRendering => focus_after(focus, control.drop_last()),
        }
    }
}

/// Whether one of the control messages asks the UI to stop.
pub open spec fn asks_to_stop(control: Seq<UiControlMessage>) -> bool {
    exists|i: int| 0 <= i < control.len() && control[i] == UiControlMessage::StopRendering
}

/// The post office after the first `n` keypresses have been mailed to the
/// focused component, in order.
pub open spec fn mail_input<M>(
    office: PostOfficeView<M>,
    focus: Key,
    input: Seq<Keypress>,
    n: nat,
) -> PostOfficeView<M>
    decreases n,
{
    if n == 0 || n > input.len() {
        office
    } else {
        mail_input(office, focus, input, (n - 1) as nat).send(
            focus,
            RawComponentMessage::Makeup(MakeupMessage::Keypress(input[n - 1])),
        )
    }
}

/// The post office after those of the first `n` messages that wait for no
/// delay have been put into their mailboxes, in order.
pub open spec fn deliver<M>(office: PostOfficeView<M>, sends: Seq<Delivery<M>>, n: nat) -> PostOfficeView<
    M,
>
    decreases n,
{
    if n == 0 || n > sends.len() {
        office
    } else {
        let before = deliver(office, sends, (n - 1) as nat);
        if sends[n - 1].after is None {
            before.send(sends[n - 1].key, sends[n - 1].message)
        } else {
            before
        }
    }
}

/// Those of the first `n` messages that wait for a delay, in order.
pub open spec fn delayed<M>(sends: Seq<Delivery<M>>, n: nat) -> Seq<Delivery<M>>
    decreases n,
{
    if n == 0 || n > sends.len() {
        Seq::empty()
    } else {
        let before = delayed(sends, (n - 1) as nat);
        if sends[n - 1].after is Some {
            before.push(sends[n - 1])
        } else {
            before
        }
    }
}

/// Reads the control messages in order: the focus and whether the UI stops.
pub fn read_control(control: &Vec<UiControlMessage>, focus: Key, exiting: bool) -> (r: (Key, bool))
    ensures
        r.0 == focus_after(focus, control@),
        r.1 == (exiting || asks_to_stop(control@)),
{
    let mut focus_now = focus;
    let mut exiting_now = exiting;
    let mut i: usize = 0;
    assert(control@.take(0) =~= Seq::empty());
    while i < control.len()
        invariant
            i <= control.len(),
            focus_now == focus_after(focus, control@.take(i as int)),
            exiting_now == (exiting || asks_to_stop(control@.take(i as int))),
        decreases control.len() - i,
    {
        let ghost read = control@.take(i as int + 1);
        assert(read.drop_last() =~= control@.take(i as int));
        assert(read.last() == control@[i as int]);
        match control[i] {
            UiControlMessage::MoveFocus(key) => {
                focus_now = key;
                assert forall|j: int| 0 <= j < read.len() && read[j]
                    == UiControlMessage::StopRendering implies 0 <= j < i && control@.take(
                    i as int,
                )[j] == UiControlMessage::StopRendering by {}
            },
            UiControlMessage::StopRendering => {
                exiting_now = true;
                assert(read[i as int] == UiControlMessage::StopRendering);
            },
        }
        assert(asks_to_stop(control@.take(i as int)) ==> asks_to_stop(read)) by {
            if asks_to_stop(control@.take(i as int)) {
                let j = choose|j: int|
                    0 <= j < i && control@.take(i as int)[j] == UiControlMessage::StopRendering;
                assert(read[j] == UiControlMessage::StopRendering);
            }
        }
        i += 1;
    }
    assert(control@.take(i as int) =~= control@);
    (focus_now, exiting_now)
}

/// Mails every keypress to the focused component, in order.
pub fn mail_pending_input<M>(
    pending_input: Vec<Keypress>,
    post_office: &mut PostOffice<M>,
    focused_component: Key,
)
    ensures
        final(post_office)@ == mail_input(
            old(post_office)@,
            focused_component,
            pending_input@,
            pending_input@.len(),
        ),
{
    let ghost input = pending_input@;
    for keypress in it: pending_input
        invariant
            it.seq() == input,
            post_office@ == mail_input(
                old(post_office)@,
                focused_component,
                input,
                it.index() as nat,
            ),
    {
        post_office.send_makeup(focused_component, MakeupMessage::Keypress(keypress));
    }
}

/// Puts the messages that wait for no delay into their mailboxes, in order,
/// and hands back those that wait for one.
pub fn deliver_outgoing<M>(outgoing: Vec<Delivery<M>>, post_office: &mut PostOffice<M>) -> (later:
    Vec<Delivery<M>>)
    ensures
        final(post_office)@ == deliver(old(post_office)@, outgoing@, outgoing@.len()),
        later@ == delayed(outgoing@, outgoing@.len()),
{
    let ghost sends = outgoing@;
    let mut later: Vec<Delivery<M>> = Vec::new();
    for delivery in it: outgoing
        invariant
            it.seq() == sends,
            post_office@ == deliver(old(post_office)@, sends, it.index() as nat),
            later@ == delayed(sends, it.index() as nat),
    {
        if delivery.after.is_none() {
            let Delivery { key, message, after: _ } = delivery;
            post_office.send_raw(key, message);
        } else {
            later.push(delivery);
        }
    }
    later
}

/// What an update pass reports: whether the UI is asked to stop, and the
/// messages that are to be sent once their delay is over.
#[derive(Debug)]
pub struct UpdateReport<M> {
    pub exiting: bool,
    pub delayed: Vec<Delivery<M>>,
}

/// The tree of components with its post office, its focus and its layout.
#[verifier::reject_recursive_types(M)]
pub struct UI<M> {
    root: Node<M>,
    post_office: PostOffice<M>,
    focus: Key,
    exiting: bool,
    layout: Layout,
}

impl<M> UI<M> {
    /// The tree of components.
    pub closed spec fn spec_root(&self) -> Node<M> {
        self.root
    }

    /// What waits in the post office.
    pub closed spec fn spec_office(&self) -> PostOfficeView<M> {
        self.post_office@
    }

    /// The key of the focused component.
    pub closed spec fn spec_focus(&self) -> Key {
        self.focus
    }

    /// Whether the UI was asked to stop.
    pub closed spec fn spec_exiting(&self) -> bool {
        self.exiting
    }

    /// The place of each component.
    pub closed spec fn spec_layout(&self) -> Map<Key, Coordinates> {
        self.layout@
    }

    /// Build a new `UI` from the given root. The root has the focus, nothing
    /// waits in the post office, and no component has a place yet.
    pub fn new(root: Node<M>) -> (ui: Self)
        ensures
            ui.spec_root() == root,
            ui.spec_office() == PostOfficeView::<M>::empty(),
            ui.spec_focus() == root.component.spec_key(),
            !ui.spec_exiting(),
            ui.spec_layout() == Map::<Key, Coordinates>::empty(),
    {
        let focus = root.key();
        UI { root, post_office: PostOffice::new(), focus, exiting: false, layout: Layout::new() }
    }

    /// What one update pass makes of the UI. The control messages are read
    /// first: they set the focus and may ask the UI to stop. Then the
    /// keypresses are mailed to the focused component, and the tree is updated,
    /// root first: see [`Node::pass`]. The messages that the components sent
    /// wait in their mailboxes for the next pass. Where an update fails, its
    /// error is handed back. Where none does, the messages with a delay are
    /// handed back, the tree draws what [`Node::rendered_next`] says, and it
    /// tells the layout what [`Node::layout_items_next`] says. The places of
    /// the components are dropped by the pass, since the components may have
    /// changed their sizes: until the layout is worked out anew and set, the
    /// batches follow the cursor.
    pub open spec fn updated(
        before: Self,
        after: Self,
        input: Seq<Keypress>,
        dimensions: Dimensions,
        r: Result<UpdateReport<M>, ComponentError>,
    ) -> bool {
        let focus = focus_after(before.spec_focus(), before.spec_office().control);
        let office = mail_input(before.spec_office().clear_control(), focus, input, input.len());
        let pass = before.spec_root().pass(office, focus, dimensions);
        &&& after.spec_focus() == focus
        &&& after.spec_exiting() == (before.spec_exiting() || asks_to_stop(
            before.spec_office().control,
        ))
        &&& after.spec_office().control == Seq::<UiControlMessage>::empty()
        &&& after.spec_root().keys() == before.spec_root().keys()
        &&& after.spec_layout() == Map::<Key, Coordinates>::empty()
        &&& after.spec_office() == deliver(pass.office, pass.sends, pass.sends.len())
        &&& match pass.error {
            Some(message) => r matches Err(e) && e.message@ == message,
            None => {
                &&& r matches Ok(report)
                &&& report.delayed@ == delayed(pass.sends, pass.sends.len())
                &&& report.exiting == after.spec_exiting()
                &&& forall|ctx: RenderContext, layout: Map<Key, Coordinates>| #[trigger]
                    after.spec_root().rendered(ctx, layout) == before.spec_root().rendered_next(
                        office,
                        focus,
                        dimensions,
                        ctx,
                        layout,
                    )
                &&& after.spec_root().layout_items() == before.spec_root().layout_items_next(
                    office,
                    focus,
                    dimensions,
                )
            },
        }
    }

    /// One update pass: see [`UI::updated`]. The first update that fails ends
    /// the pass, and its error is handed back.
    pub fn update(&mut self, pending_input: Vec<Keypress>, render_dimensions: Dimensions) -> (r:
        Result<UpdateReport<M>, ComponentError>)
        ensures
            Self::updated(*old(self), *final(self), pending_input@, render_dimensions, r),
    {
        let (focus, exiting) = read_control(self.post_office.ui_mailbox(), self.focus, self.exiting);
        self.focus = focus;
        self.exiting = exiting;
        self.layout = Layout::new();
        self.post_office.clear_ui_mailbox();
        let ghost input = pending_input@;
        let ghost emptied = self.post_office@;
        mail_pending_input(pending_input, &mut self.post_office, focus);
        proof {
            lemma_mail_input_keeps_control(emptied, focus, input, input.len());
        }
        let mut outgoing: Vec<Delivery<M>> = Vec::new();
        let updated = self.root.update(
            &mut self.post_office,
            focus,
            render_dimensions,
            &mut outgoing,
        );
        let ghost sends = outgoing@;
        let ghost office = self.post_office@;
        assert(sends.skip(0) =~= sends);
        let later = deliver_outgoing(outgoing, &mut self.post_office);
        proof {
            lemma_deliver_keeps_control(office, sends, sends.len());
        }
        match updated {
            Ok(()) => Ok(UpdateReport { exiting, delayed: later }),
            Err(e) => Err(e),
        }
    }

    /// Render the entire UI: the batches of the tree, root first. The context
    /// is told which component has the focus.
    pub fn render(&self, ctx: &mut RenderContext) -> (r: Result<
        Vec<DrawCommandBatch>,
        ComponentError,
    >)
        ensures
            *final(ctx) == (RenderContext { focus: self.spec_focus(), ..*old(ctx) }),
            match r {
                Ok(batches) => self.spec_root().rendered(*final(ctx), self.spec_layout()) == Ok::<
                    Seq<BatchView>,
                    Seq<char>,
                >(batches_view(batches@)),
                Err(e) => self.spec_root().rendered(*final(ctx), self.spec_layout()) == Err::<
                    Seq<BatchView>,
                    Seq<char>,
                >(e.message@),
            },
    {
        ctx.focus = self.focus;
        self.root.render(ctx, &self.layout)
    }

    /// Send a message to the given component.
    pub fn send(&mut self, key: Key, message: M)
        ensures
            final(self).spec_office() == old(self).spec_office().send(
                key,
                RawComponentMessage::Component(message),
            ),
            final(self).spec_root() == old(self).spec_root(),
            final(self).spec_focus() == old(self).spec_focus(),
            final(self).spec_exiting() == old(self).spec_exiting(),
            final(self).spec_layout() == old(self).spec_layout(),
    {
        self.post_office.send(key, message);
    }

    /// Send a [`MakeupMessage`] to the given component.
    pub fn send_makeup(&mut self, key: Key, message: MakeupMessage)
        ensures
            final(self).spec_office() == old(self).spec_office().send(
                key,
                RawComponentMessage::Makeup(message),
            ),
            final(self).spec_root() == old(self).spec_root(),
            final(self).spec_focus() == old(self).spec_focus(),
            final(self).spec_exiting() == old(self).spec_exiting(),
            final(self).spec_layout() == old(self).spec_layout(),
    {
        self.post_office.send_makeup(key, message);
    }

    /// Send a message of either kind to the given component.
    pub fn send_raw(&mut self, key: Key, message: RawComponentMessage<M>)
        ensures
            final(self).spec_office() == old(self).spec_office().send(key, message),
            final(self).spec_root() == old(self).spec_root(),
            final(self).spec_focus() == old(self).spec_focus(),
            final(self).spec_exiting() == old(self).spec_exiting(),
            final(self).spec_layout() == old(self).spec_layout(),
    {
        self.post_office.send_raw(key, message);
    }

    /// Send a message to the UI.
    pub fn send_control(&mut self, message: UiControlMessage)
        ensures
            final(self).spec_office() == old(self).spec_office().send_control(message),
            final(self).spec_root() == old(self).spec_root(),
            final(self).spec_focus() == old(self).spec_focus(),
            final(self).spec_exiting() == old(self).spec_exiting(),
            final(self).spec_layout() == old(self).spec_layout(),
    {
        self.post_office.send_control(message);
    }

    /// The key of the focused component.
    pub fn focus(&self) -> (focus: Key)
        ensures
            focus == self.spec_focus(),
    {
        self.focus
    }

    /// Whether the UI was asked to stop.
    pub fn exiting(&self) -> (exiting: bool)
        ensures
            exiting == self.spec_exiting(),
    {
        self.exiting
    }

    /// The root of the tree.
    pub fn root(&self) -> (root: &Node<M>)
        ensures
            *root == self.spec_root(),
    {
        &self.root
    }

    /// What the layout needs to know of the tree, root first: see
    /// [`Node::layout_items`].
    pub fn layout_items(&self) -> (r: Result<Vec<LayoutItem>, ComponentError>)
        ensures
            match self.spec_root().layout_items() {
                Ok(items) => r matches Ok(v) && v@ == items,
                Err(message) => r matches Err(e) && e.message@ == message,
            },
    {
        let mut items: Vec<LayoutItem> = Vec::new();
        match self.root.collect_layout_items(&mut items) {
            Ok(()) => Ok(items),
            Err(e) => Err(e),
        }
    }

    /// Gives every component the place that `layout` has for it.
    pub fn set_layout(&mut self, layout: Layout)
        ensures
            final(self).spec_layout() == layout@,
            final(self).spec_office() == old(self).spec_office(),
            final(self).spec_root() == old(self).spec_root(),
            final(self).spec_focus() == old(self).spec_focus(),
            final(self).spec_exiting() == old(self).spec_exiting(),
    {
        self.layout = layout;
    }
}

/// Why the UI could not go on.
#[derive(Debug, Clone, PartialEq, Eq)]
pub enum UiError {
    /// A component failed to update or to render.
    Component(ComponentError),
    /// The renderer refused a draw command.
    Render(RenderError),
}

/// What rendering a frame did. The batches of the tree go to the renderer. A
/// component that fails to render leaves the renderer and the output as they
/// were. So does a renderer that fails leave the output, and what it wanted
/// written still waits in it. Where nothing fails, what the renderer wants
/// written of the batches joins the output, and nothing waits in the renderer.
pub open spec fn frame_rendered<M, R: Renderer>(
    ui: UI<M>,
    before: R,
    after: R,
    output_before: Seq<char>,
    output_after: Seq<char>,
    ctx: RenderContext,
    r: Result<bool, UiError>,
) -> bool {
    match ui.spec_root().rendered(ctx, ui.spec_layout()) {
        Err(message) => {
            &&& r matches Err(UiError::Component(e))
            &&& e.message@ == message
            &&& after == before
            &&& output_after == output_before
        },
        Ok(batches) => {
            &&& after.grid() == before.drawn(batches).grid
            &&& match before.drawn(batches).error {
                Some(e) => {
                    &&& r == Err::<bool, UiError>(UiError::Render(e))
                    &&& before.leaves(batches, after.pending())
                    &&& output_after == output_before
                },
                None => {
                    &&& r == Ok::<bool, UiError>(ui.spec_exiting())
                    &&& after.pending() == Seq::<char>::empty()
                    &&& exists|text: Seq<char>|
                        {
                            &&& #[trigger] before.leaves(batches, text)
                            &&& output_after == output_before + text
                        }
                },
            }
        },
    }
}

/// A makeup UI: the tree of components with its renderer. It collects the
/// text that the renderer wants written to the terminal, and the messages
/// that are to be sent once their delay is over.
#[verifier::reject_recursive_types(M)]
pub struct MUI<M, R: Renderer> {
    ui: UI<M>,
    renderer: R,
    done: bool,
    output: String,
    later: Vec<Delivery<M>>,
}

impl<M, R: Renderer> MUI<M, R> {
    /// The tree of components with its post office.
    pub closed spec fn spec_ui(&self) -> UI<M> {
        self.ui
    }

    /// The renderer.
    pub closed spec fn spec_renderer(&self) -> R {
        self.renderer
    }

    /// Whether the UI has stopped.
    pub closed spec fn spec_done(&self) -> bool {
        self.done
    }

    /// The text that waits to be written to the terminal.
    pub closed spec fn spec_output(&self) -> Seq<char> {
        self.output@
    }

    /// The messages that wait for their delay to be over, oldest first.
    pub closed spec fn spec_delayed(&self) -> Seq<Delivery<M>> {
        self.later@
    }

    /// The size of the renderer's grid.
    pub open spec fn spec_dimensions(&self) -> Dimensions {
        (self.spec_renderer().grid().width, self.spec_renderer().grid().height)
    }

    /// The context of a frame that no other frame came before.
    pub open spec fn first_context(&self) -> RenderContext {
        RenderContext {
            last_frame_time: None,
            frame_counter: 0,
            fps: 0,
            effective_fps: 0,
            cursor: (self.spec_renderer().grid().cursor_x, self.spec_renderer().grid().cursor_y),
            dimensions: self.spec_dimensions(),
            focus: 0,
        }
    }

    /// What an update pass with the size of the renderer's grid makes of the
    /// UI: see [`UI::updated`]. The messages with a delay join those that
    /// wait, and a UI that was asked to stop is done.
    pub open spec fn updated(
        before: Self,
        after: Self,
        input: Seq<Keypress>,
        r: Result<(), ComponentError>,
    ) -> bool {
        &&& after.spec_renderer() == before.spec_renderer()
        &&& after.spec_output() == before.spec_output()
        &&& exists|pass: Result<UpdateReport<M>, ComponentError>|
            {
                &&& #[trigger] UI::updated(
                    before.spec_ui(),
                    after.spec_ui(),
                    input,
                    before.spec_dimensions(),
                    pass,
                )
                &&& match pass {
                    Ok(report) => {
                        &&& r is Ok
                        &&& after.spec_delayed() == before.spec_delayed() + report.delayed@
                        &&& after.spec_done() == (before.spec_done() || report.exiting)
                    },
                    Err(e) => {
                        &&& r == Err::<(), ComponentError>(e)
                        &&& after.spec_delayed() == before.spec_delayed()
                        &&& after.spec_done() == before.spec_done()
                    },
                }
            }
    }

    /// What rendering a frame makes of the UI: the context is told the focus,
    /// the batches of the tree go to the renderer, and what the renderer
    /// wants written of them joins the output, see [`frame_rendered`]. The
    /// first error ends the frame.
    pub open spec fn framed(
        before: Self,
        after: Self,
        ctx_before: RenderContext,
        ctx_after: RenderContext,
        r: Result<bool, UiError>,
    ) -> bool {
        &&& ctx_after == (RenderContext { focus: before.spec_ui().spec_focus(), ..ctx_before })
        &&& after.spec_ui() == before.spec_ui()
        &&& after.spec_done() == before.spec_done()
        &&& after.spec_delayed() == before.spec_delayed()
        &&& frame_rendered(
            before.spec_ui(),
            before.spec_renderer(),
            after.spec_renderer(),
            before.spec_output(),
            after.spec_output(),
            ctx_after,
            r,
        )
    }

    /// Create a new makeup UI with the given root and renderer.
    pub fn new(root: Node<M>, renderer: R) -> (mui: Self)
        ensures
            mui.spec_ui().spec_root() == root,
            mui.spec_ui().spec_office() == PostOfficeView::<M>::empty(),
            mui.spec_ui().spec_focus() == root.component.spec_key(),
            !mui.spec_ui().spec_exiting(),
            mui.spec_ui().spec_layout() == Map::<Key, Coordinates>::empty(),
            mui.spec_renderer() == renderer,
            !mui.spec_done(),
            mui.spec_output() == Seq::<char>::empty(),
            mui.spec_delayed() == Seq::<Delivery<M>>::empty(),
    {
        MUI { ui: UI::new(root), renderer, done: false, output: String::new(), later: Vec::new() }
    }

    /// One update pass with the size of the renderer's grid: see
    /// [`MUI::updated`].
    pub fn update(&mut self, pending_input: Vec<Keypress>) -> (r: Result<(), ComponentError>)
        ensures
            Self::updated(*old(self), *final(self), pending_input@, r),
    {
        let dimensions = self.renderer.dimensions();
        let pass = self.ui.update(pending_input, dimensions);
        match pass {
            Ok(report) => {
                let UpdateReport { exiting, delayed } = report;
                let mut delayed = delayed;
                let ghost rest = delayed@;
                self.later.append(&mut delayed);
                if exiting {
                    self.done = true;
                }
                proof {
                    let witness: Result<UpdateReport<M>, ComponentError> = Ok(report);
                    assert(UI::updated(
                        old(self).spec_ui(),
                        self.spec_ui(),
                        pending_input@,
                        old(self).spec_dimensions(),
                        witness,
                    ));
                }
                Ok(())
            },
            Err(e) => {
                proof {
                    let witness: Result<UpdateReport<M>, ComponentError> = Err(e);
                    assert(UI::updated(
                        old(self).spec_ui(),
                        self.spec_ui(),
                        pending_input@,
                        old(self).spec_dimensions(),
                        witness,
                    ));
                }
                Err(e)
            },
        }
    }

    /// What one cycle makes of the UI: an update pass without input, see
    /// [`MUI::updated`], then one frame from a fresh context, see
    /// [`MUI::framed`]. An update that fails ends the cycle with its error,
    /// and so does a frame that fails. The frame of a cycle is drawn without
    /// places, since the pass has dropped them: to draw by a layout, set it
    /// between `update` and `render_frame`.
    pub open spec fn cycled(before: Self, after: Self, r: Result<RenderState, UiError>) -> bool {
        exists|updated: Self, pass: Result<(), ComponentError>|
            {
                &&& #[trigger] Self::updated(before, updated, Seq::empty(), pass)
                &&& match pass {
                    Err(e) => after == updated && r == Err::<RenderState, UiError>(
                        UiError::Component(e),
                    ),
                    Ok(_) => exists|ctx: RenderContext, frame: Result<bool, UiError>|
                        {
                            &&& #[trigger] Self::framed(
                                updated,
                                after,
                                updated.first_context(),
                                ctx,
                                frame,
                            )
                            &&& r == match frame {
                                Ok(_) => Ok::<RenderState, UiError>(RenderState::Running),
                                Err(e) => Err(e),
                            }
                        },
                }
            }
    }

    /// One cycle: see [`MUI::cycled`]. The UI goes on running.
    pub fn render_once(&mut self) -> (r: Result<RenderState, UiError>)
        ensures
            Self::cycled(*old(self), *final(self), r),
    {
        let pass = self.update(Vec::new());
        let ghost updated = *self;
        if let Err(e) = pass {
            return Err(UiError::Component(e));
        }
        let mut ctx = RenderContext {
            last_frame_time: None,
            frame_counter: 0,
            fps: 0,
            effective_fps: 0,
            cursor: self.renderer.cursor(),
            dimensions: self.renderer.dimensions(),
            focus: 0,
        };
        let frame = self.render_frame(&mut ctx);
        proof {
            assert(Self::updated(*old(self), updated, Seq::empty(), pass));
            assert(Self::framed(updated, *self, updated.first_context(), ctx, frame));
        }
        match frame {
            Ok(_) => Ok(RenderState::Running),
            Err(e) => Err(e),
        }
    }

    /// Renders the current frame: see [`MUI::framed`]. Returns whether the UI
    /// was asked to stop.
    pub fn render_frame(&mut self, ctx: &mut RenderContext) -> (r: Result<bool, UiError>)
        ensures
            Self::framed(*old(self), *final(self), *old(ctx), *final(ctx), r),
    {
        let commands = match self.ui.render(ctx) {
            Ok(commands) => commands,
            Err(e) => {
                return Err(UiError::Component(e));
            },
        };
        if let Err(e) = self.renderer.render(commands.as_slice()) {
            return Err(UiError::Render(e));
        }
        let ghost waiting = self.renderer.pending();
        match self.renderer.flush() {
            Ok(text) => {
                self.output.append(text.as_str());
            },
            Err(e) => {},
        }
        assert(old(self).spec_renderer().leaves(batches_view(commands@), waiting));
        Ok(self.ui.exiting())
    }

    /// Hands the renderer's text to the output.
    pub fn flush_renderer(&mut self) -> (r: Result<(), UiError>)
        ensures
            r is Ok,
            final(self).spec_ui() == old(self).spec_ui(),
            final(self).spec_done() == old(self).spec_done(),
            final(self).spec_delayed() == old(self).spec_delayed(),
            final(self).spec_renderer().grid() == old(self).spec_renderer().grid(),
            final(self).spec_renderer().pending() == Seq::<char>::empty(),
            final(self).spec_output() == old(self).spec_output() + old(self).spec_renderer().pending(),
    {
        match self.renderer.flush() {
            Ok(text) => {
                self.output.append(text.as_str());
            },
            Err(e) => {},
        }
        Ok(())
    }

    /// Hands out the text that waits to be written to the terminal. Nothing
    /// waits afterwards.
    pub fn take_output(&mut self) -> (text: String)
        ensures
            text@ == old(self).spec_output(),
            final(self).spec_output() == Seq::<char>::empty(),
            final(self).spec_ui() == old(self).spec_ui(),
            final(self).spec_renderer() == old(self).spec_renderer(),
            final(self).spec_done() == old(self).spec_done(),
            final(self).spec_delayed() == old(self).spec_delayed(),
    {
        let mut text = String::new();
        std::mem::swap(&mut self.output, &mut text);
        text
    }

    /// Hands out the messages that wait for their delay to be over, oldest
    /// first. None waits afterwards.
    pub fn take_delayed(&mut self) -> (delayed: Vec<Delivery<M>>)
        ensures
            delayed@ == old(self).spec_delayed(),
            final(self).spec_delayed() == Seq::<Delivery<M>>::empty(),
            final(self).spec_ui() == old(self).spec_ui(),
            final(self).spec_renderer() == old(self).spec_renderer(),
            final(self).spec_done() == old(self).spec_done(),
            final(self).spec_output() == old(self).spec_output(),
    {
        let mut delayed: Vec<Delivery<M>> = Vec::new();
        std::mem::swap(&mut self.later, &mut delayed);
        delayed
    }

    /// Whether the run loop has anything to do: a UI that is done has
    /// stopped.
    pub fn state(&self) -> (state: RenderState)
        ensures
            state == if self.spec_done() {
                RenderState::Stopped
            } else {
                RenderState::Running
            },
    {
        if self.done {
            RenderState::Stopped
        } else {
            RenderState::Running
        }
    }

    /// What the first half of a turn of the run loop makes of the UI. A UI
    /// that is done stays as it is. So does one whose input has ended, but it
    /// is done. For any other the keys of `frames` go into an update pass, see
    /// [`MUI::updated`], and an update that fails makes it done.
    pub open spec fn update_stepped(before: Self, after: Self, frames: Seq<InputFrame>) -> bool {
        if before.spec_done() {
            after == before
        } else if input_ended(frames) {
            after == before.stopped()
        } else {
            exists|updated: Self, pass: Result<(), ComponentError>|
                {
                    &&& #[trigger] Self::updated(
                        before,
                        updated,
                        pressed(frames, frames.len()),
                        pass,
                    )
                    &&& after == if pass is Err {
                        updated.stopped()
                    } else {
                        updated
                    }
                }
        }
    }

    /// The UI, done.
    pub closed spec fn stopped(self) -> Self {
        MUI { done: true, ..self }
    }

    /// A UI that is done differs from the UI in that only.
    pub proof fn lemma_stopped(self)
        ensures
            self.stopped().spec_done(),
            self.stopped().spec_ui() == self.spec_ui(),
            self.stopped().spec_renderer() == self.spec_renderer(),
            self.stopped().spec_output() == self.spec_output(),
            self.stopped().spec_delayed() == self.spec_delayed(),
            self.spec_done() ==> self.stopped() == self,
    {
    }

    /// The first half of a turn of the run loop: see
    /// [`MUI::update_stepped`].
    pub fn update_step(&mut self, frames: Vec<InputFrame>)
        ensures
            Self::update_stepped(*old(self), *final(self), frames@),
    {
        if self.done {
            return ;
        }
        match collect_pending_input(frames) {
            None => {
                self.done = true;
            },
            Some(pending_input) => {
                let pass = self.update(pending_input);
                let ghost updated = *self;
                if pass.is_err() {
                    self.done = true;
                }
                assert(Self::updated(*old(self), updated, pressed(frames@, frames@.len()), pass));
            },
        }
    }

    /// What the second half of a turn of the run loop makes of the UI. A frame
    /// is rendered, see [`MUI::framed`]. The UI is done when it was so
    /// before, when the frame failed, or when the UI was asked to stop. A UI
    /// that is done renders one last frame, so that the cursor ends where it
    /// is expected, and stops; the error of the last frame, if there is one,
    /// is handed back.
    pub open spec fn render_stepped(
        before: Self,
        after: Self,
        ctx_before: RenderContext,
        ctx_after: RenderContext,
        r: Result<RenderState, UiError>,
    ) -> bool {
        exists|first: Self, frame: Result<bool, UiError>|
            {
                &&& #[trigger] Self::framed(before, first, ctx_before, ctx_after, frame)
                &&& if before.spec_done() || frame is Err || frame == Ok::<bool, UiError>(true) {
                    exists|last: Result<bool, UiError>|
                        {
                            &&& #[trigger] Self::framed(
                                first.stopped(),
                                after,
                                ctx_after,
                                ctx_after,
                                last,
                            )
                            &&& r == match last {
                                Ok(_) => Ok::<RenderState, UiError>(RenderState::Stopped),
                                Err(e) => Err(e),
                            }
                        }
                } else {
                    after == first && r == Ok::<RenderState, UiError>(RenderState::Running)
                }
            }
    }

    /// The second half of a turn of the run loop: see
    /// [`MUI::render_stepped`].
    pub fn render_step(&mut self, ctx: &mut RenderContext) -> (r: Result<RenderState, UiError>)
        ensures
            Self::render_stepped(*old(self), *final(self), *old(ctx), *final(ctx), r),
            final(self).spec_done() == (r matches Ok(state) ==> state == RenderState::Stopped),
    {
        let frame = self.render_frame(ctx);
        let ghost first = *self;
        let ghost ctx_first = *ctx;
        match frame {
            Ok(exiting) => {
                if exiting {
                    self.done = true;
                }
            },
            Err(_) => {
                self.done = true;
            },
        }
        assert(Self::framed(*old(self), first, *old(ctx), ctx_first, frame));
        if self.done {
            assert(*self == first.stopped());
            let last = self.render_frame(ctx);
            assert(Self::framed(first.stopped(), *self, ctx_first, *ctx, last));
            match last {
                Ok(_) => Ok(RenderState::Stopped),
                Err(e) => Err(e),
            }
        } else {
            Ok(RenderState::Running)
        }
    }

    /// One turn of the run loop: both halves, see [`MUI::update_stepped`] and
    /// [`MUI::render_stepped`]. A UI that is done stays done and does nothing.
    pub fn step(&mut self, frames: Vec<InputFrame>, ctx: &mut RenderContext) -> (r: Result<
        RenderState,
        UiError,
    >)
        ensures
            old(self).spec_done() ==> {
                &&& r == Ok::<RenderState, UiError>(RenderState::Stopped)
                &&& *final(self) == *old(self)
                &&& *final(ctx) == *old(ctx)
            },
            !old(self).spec_done() ==> exists|updated: Self|
                {
                    &&& #[trigger] Self::update_stepped(*old(self), updated, frames@)
                    &&& Self::render_stepped(updated, *final(self), *old(ctx), *final(ctx), r)
                },
            final(self).spec_done() == (r matches Ok(state) ==> state == RenderState::Stopped),
    {
        if self.done {
            return Ok(RenderState::Stopped);
        }
        self.update_step(frames);
        let ghost updated = *self;
        let r = self.render_step(ctx);
        assert(Self::update_stepped(*old(self), updated, frames@));
        r
    }

    /// Send a message to the given component.
    pub fn send(&mut self, key: Key, message: M)
        ensures
            final(self).spec_ui().spec_office() == old(self).spec_ui().spec_office().send(
                key,
                RawComponentMessage::Component(message),
            ),
            Self::only_office_changed(*old(self), *final(self)),
    {
        self.ui.send(key, message);
    }

    /// Send a makeup message to the given component.
    pub fn send_makeup(&mut self, key: Key, message: MakeupMessage)
        ensures
            final(self).spec_ui().spec_office() == old(self).spec_ui().spec_office().send(
                key,
                RawComponentMessage::Makeup(message),
            ),
            Self::only_office_changed(*old(self), *final(self)),
    {
        self.ui.send_makeup(key, message);
    }

    /// Send a message of either kind to the given component, as when the delay
    /// of a message is over.
    pub fn send_raw(&mut self, key: Key, message: RawComponentMessage<M>)
        ensures
            final(self).spec_ui().spec_office() == old(self).spec_ui().spec_office().send(
                key,
                message,
            ),
            Self::only_office_changed(*old(self), *final(self)),
    {
        self.ui.send_raw(key, message);
    }

    /// Send a message to the UI.
    pub fn send_control(&mut self, message: UiControlMessage)
        ensures
            final(self).spec_ui().spec_office() == old(self).spec_ui().spec_office().send_control(
                message,
            ),
            Self::only_office_changed(*old(self), *final(self)),
    {
        self.ui.send_control(message);
    }

    /// Whether `after` is `before` but for what waits in the post office.
    pub open spec fn only_office_changed(before: Self, after: Self) -> bool {
        &&& after.spec_ui().spec_root() == before.spec_ui().spec_root()
        &&& after.spec_ui().spec_focus() == before.spec_ui().spec_focus()
        &&& after.spec_ui().spec_exiting() == before.spec_ui().spec_exiting()
        &&& after.spec_ui().spec_layout() == before.spec_ui().spec_layout()
        &&& after.spec_renderer() == before.spec_renderer()
        &&& after.spec_done() == before.spec_done()
        &&& after.spec_output() == before.spec_output()
        &&& after.spec_delayed() == before.spec_delayed()
    }

    /// What the layout needs to know of the tree, root first: see
    /// [`Node::layout_items`].
    pub fn layout_items(&self) -> (r: Result<Vec<LayoutItem>, ComponentError>)
        ensures
            match self.spec_ui().spec_root().layout_items() {
                Ok(items) => r matches Ok(v) && v@ == items,
                Err(message) => r matches Err(e) && e.message@ == message,
            },
    {
        self.ui.layout_items()
    }

    /// Gives every component the place that `layout` has for it.
    pub fn set_layout(&mut self, layout: Layout)
        ensures
            final(self).spec_ui().spec_layout() == layout@,
            final(self).spec_ui().spec_office() == old(self).spec_ui().spec_office(),
            final(self).spec_ui().spec_root() == old(self).spec_ui().spec_root(),
            final(self).spec_ui().spec_focus() == old(self).spec_ui().spec_focus(),
            final(self).spec_ui().spec_exiting() == old(self).spec_ui().spec_exiting(),
            final(self).spec_renderer() == old(self).spec_renderer(),
            final(self).spec_done() == old(self).spec_done(),
            final(self).spec_output() == old(self).spec_output(),
            final(self).spec_delayed() == old(self).spec_delayed(),
    {
        self.ui.set_layout(layout);
    }

    /// Tells the renderer the size that its grid has now.
    pub fn resize(&mut self, size: Dimensions)
        ensures
            final(self).spec_renderer().grid() == (crate::render::memory::GridView {
                width: size.0,
                height: size.1,
                ..old(self).spec_renderer().grid()
            }),
            final(self).spec_ui() == old(self).spec_ui(),
            final(self).spec_done() == old(self).spec_done(),
            final(self).spec_output() == old(self).spec_output(),
            final(self).spec_delayed() == old(self).spec_delayed(),
    {
        self.renderer.set_width(size.0);
        self.renderer.set_height(size.1);
    }

    /// Moves the cursor of the renderer to `(x, y)`.
    pub fn move_cursor(&mut self, x: u64, y: u64) -> (r: Result<(), RenderError>)
        ensures
            final(self).spec_renderer().grid() == old(self).spec_renderer().grid().move_to(
                x as int,
                y as int,
            ).grid,
            r == old(self).spec_renderer().grid().move_to(x as int, y as int).result(),
            final(self).spec_ui() == old(self).spec_ui(),
            final(self).spec_done() == old(self).spec_done(),
            final(self).spec_output() == old(self).spec_output(),
            final(self).spec_delayed() == old(self).spec_delayed(),
    {
        self.renderer.move_cursor(x, y)
    }

    /// Reads `count` characters from the renderer's cursor on.
    pub fn read_at_cursor(&self, count: u64) -> (r: Result<String, RenderError>)
        ensures
            match self.spec_renderer().grid().read(
                self.spec_renderer().grid().cursor_x as int,
                self.spec_renderer().grid().cursor_y as int,
                count as nat,
            ) {
                Ok(text) => r matches Ok(s) && s@ == text,
                Err(e) => r matches Err(f) && f == e,
            },
    {
        self.renderer.read_at_cursor(count)
    }

    /// The renderer.
    pub fn renderer(&self) -> (renderer: &R)
        ensures
            *renderer == self.spec_renderer(),
    {
        &self.renderer
    }

    /// The key of the focused component.
    pub fn focus(&self) -> (focus: Key)
        ensures
            focus == self.spec_ui().spec_focus(),
    {
        self.ui.focus()
    }

    /// The tree of components with its post office.
    pub fn ui(&self) -> (ui: &UI<M>)
        ensures
            *ui == self.spec_ui(),
    {
        &self.ui
    }

    /// Whether the UI has stopped.
    pub fn done(&self) -> (done: bool)
        ensures
            done == self.spec_done(),
    {
        self.done
    }
}

/// The messages that mailing the first `n` keypresses adds to a mailbox.
pub open spec fn keypress_mail<M>(input: Seq<Keypress>, n: nat) -> Seq<RawComponentMessage<M>>
    decreases n,
{
    if n == 0 || n > input.len() {
        Seq::empty()
    } else {
        keypress_mail(input, (n - 1) as nat).push(
            RawComponentMessage::Makeup(MakeupMessage::Keypress(input[n - 1])),
        )
    }
}

/// A `MoveFocus` that is the last control message before an update pass
/// decides the focus.
pub proof fn lemma_move_focus_sets_focus(focus: Key, control: Seq<UiControlMessage>, key: Key)
    ensures
        focus_after(focus, control.push(UiControlMessage::MoveFocus(key))) == key,
{
    assert(control.push(UiControlMessage::MoveFocus(key)).last() == UiControlMessage::MoveFocus(
        key,
    ));
}

/// Keypresses are mailed to the focused component only, in order, behind what
/// already waits for it.
pub proof fn lemma_input_goes_to_focus<M>(
    office: PostOfficeView<M>,
    focus: Key,
    input: Seq<Keypress>,
    n: nat,
)
    requires
        n <= input.len(),
    ensures
        mail_input(office, focus, input, n).mail(focus) == office.mail(focus) + keypress_mail::<M>(
            input,
            n,
        ),
        forall|other: Key|
            other != focus ==> #[trigger] mail_input(office, focus, input, n).mail(other)
                == office.mail(other),
    decreases n,
{
    if n > 0 {
        lemma_input_goes_to_focus(office, focus, input, (n - 1) as nat);
        let before = mail_input(office, focus, input, (n - 1) as nat);
        let message = RawComponentMessage::<M>::Makeup(MakeupMessage::Keypress(input[n - 1]));
        assert(before.send(focus, message).mail(focus) == before.mail(focus).push(message));
        assert(mail_input(office, focus, input, n).mail(focus) =~= office.mail(focus)
            + keypress_mail::<M>(input, n));
        assert forall|other: Key| other != focus implies #[trigger] mail_input(
            office,
            focus,
            input,
            n,
        ).mail(other) == office.mail(other) by {
            assert(before.send(focus, message).mail(other) == before.mail(other));
        }
    } else {
        assert(office.mail(focus) + keypress_mail::<M>(input, 0) =~= office.mail(focus));
    }
}

/// Mailing keypresses leaves the control queue as it is.
pub proof fn lemma_mail_input_keeps_control<M>(
    office: PostOfficeView<M>,
    focus: Key,
    input: Seq<Keypress>,
    n: nat,
)
    ensures
        mail_input(office, focus, input, n).control == office.control,
    decreases n,
{
    if n > 0 && n <= input.len() {
        lemma_mail_input_keeps_control(office, focus, input, (n - 1) as nat);
    }
}

/// Delivering messages leaves the control queue as it is.
pub proof fn lemma_deliver_keeps_control<M>(office: PostOfficeView<M>, sends: Seq<Delivery<M>>, n: nat)
    ensures
        deliver(office, sends, n).control == office.control,
    decreases n,
{
    if n > 0 && n <= sends.len() {
        lemma_deliver_keeps_control(office, sends, (n - 1) as nat);
    }
}

} // verus!
