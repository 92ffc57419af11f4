//! A component that draws nothing itself and lays out its children.

use std::marker::PhantomData;
use vstd::prelude::*;
use crate::component::{
    generate_key, Component, ComponentError, Delivery, RawComponentMessage, RenderContext,
    Style, UpdateContext,
};
use crate::ui::Node;
use crate::{Dimensions, DrawCommand, DrawCommandBatch, DrawCommandView, Key};

verus! {

/// A component without text of its own: it holds other components together
/// and says how they are laid out.
#[derive(Debug)]
pub struct Container<M> {
    key: Key,
    style: Option<Style>,
    _phantom: PhantomData<M>,
}

impl<M: 'static> Container<M> {
    /// The style of the container.
    pub closed spec fn spec_container_style(&self) -> Option<Style> {
        self.style
    }

    /// A container around `children`, with the default layout, under a key of
    /// its own.
    pub fn new(children: Vec<Node<M>>) -> (node: Node<M>)
        ensures
            node.children == children,
            node.component.spec_style() == None::<Style>,
            node.component.spec_dimensions() == Ok::<Option<Dimensions>, Seq<char>>(None),
            forall|ctx: RenderContext| #[trigger]
                node.component.spec_render(ctx) == Ok::<Seq<DrawCommandView>, Seq<char>>(
                    Seq::empty(),
                ),
            forall|mailbox: Seq<RawComponentMessage<M>>, focus: Key| #[trigger]
                node.component.spec_sends(mailbox, focus) == Seq::<Delivery<M>>::empty(),
    {
        Self::new_with_style(children, None)
    }

    /// A container around `children`, laid out as `style` says, under a key
    /// of its own.
    pub fn new_with_style(children: Vec<Node<M>>, style: Option<Style>) -> (node: Node<M>)
        ensures
            node.children == children,
            node.component.spec_style() == style,
            node.component.spec_dimensions() == Ok::<Option<Dimensions>, Seq<char>>(None),
            forall|ctx: RenderContext| #[trigger]
                node.component.spec_render(ctx) == Ok::<Seq<DrawCommandView>, Seq<char>>(
                    Seq::empty(),
                ),
            forall|mailbox: Seq<RawComponentMessage<M>>, focus: Key| #[trigger]
                node.component.spec_sends(mailbox, focus) == Seq::<Delivery<M>>::empty(),
    {
        let container: Container<M> = Container { key: generate_key(), style, _phantom: PhantomData };
        Node { component: Box::new(container), children }
    }
}

impl<M> Component<M> for Container<M> {
    closed spec fn spec_key(&self) -> Key {
        self.key
    }

    open spec fn spec_render(&self, ctx: RenderContext) -> Result<Seq<DrawCommandView>, Seq<char>> {
        Ok(Seq::empty())
    }

    open spec fn spec_dimensions(&self) -> Result<Option<Dimensions>, Seq<char>> {
        Ok(None)
    }

    open spec fn spec_style(&self) -> Option<Style> {
        self.spec_container_style()
    }

    open spec fn spec_update_error(
        &self,
        mailbox: Seq<RawComponentMessage<M>>,
        focus: Key,
        dimensions: Dimensions,
    ) -> Option<Seq<char>> {
        None
    }

    open spec fn spec_render_next(
        &self,
        mailbox: Seq<RawComponentMessage<M>>,
        focus: Key,
        dimensions: Dimensions,
        ctx: RenderContext,
    ) -> Result<Seq<DrawCommandView>, Seq<char>> {
        Ok(Seq::empty())
    }

    open spec fn spec_dimensions_next(
        &self,
        mailbox: Seq<RawComponentMessage<M>>,
        focus: Key,
        dimensions: Dimensions,
    ) -> Result<Option<Dimensions>, Seq<char>> {
        Ok(None)
    }

    open spec fn spec_style_next(
        &self,
        mailbox: Seq<RawComponentMessage<M>>,
        focus: Key,
        dimensions: Dimensions,
    ) -> Option<Style> {
        self.spec_container_style()
    }

    open spec fn spec_sends(&self, mailbox: Seq<RawComponentMessage<M>>, focus: Key) -> Seq<
        Delivery<M>,
    > {
        Seq::empty()
    }

    fn key(&self) -> Key {
        self.key
    }

    /// A container has nothing to update.
    fn update(&mut self, ctx: &mut UpdateContext<M>) -> (r: Result<(), ComponentError>)
        ensures
            r is Ok,
            *final(self) == *old(self),
            *final(ctx) == *old(ctx),
    {
        Ok(())
    }

    /// A container draws nothing.
    fn render(&self, ctx: &RenderContext) -> (r: Result<DrawCommandBatch, ComponentError>)
        ensures
            r matches Ok(batch) && batch.1@ == Seq::<DrawCommand>::empty(),
    {
        let commands: Vec<DrawCommand> = Vec::new();
        assert(crate::commands_view(commands@) =~= Seq::empty());
        self.batch(commands)
    }

    /// A container takes the size that the layout gives it.
    fn dimensions(&self) -> (r: Result<Option<Dimensions>, ComponentError>)
        ensures
            r == Ok::<Option<Dimensions>, ComponentError>(None),
    {
        Ok(None)
    }

    fn style(&self) -> Option<Style> {
        self.style
    }
}

} // verus!
