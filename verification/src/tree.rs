//! The tree of components, and the update and render passes over it.

use vstd::prelude::*;
use crate::component::{
    Component, ComponentError, Delivery, RawComponentMessage, RenderContext, Style, UpdateContext,
};
use crate::layout::Layout;
use crate::post_office::{PostOffice, PostOfficeView};
use crate::{
    batches_view, commands_view, BatchView, Coordinates, Dimensions, DrawCommandBatch,
    DrawCommandView, Key,
};

verus! {

/// A component and the components that it owns, in the order in which they
/// are updated and rendered. A node is built from its two fields.
#[verifier::reject_recursive_types(M)]
pub struct Node<M> {
    pub component: Box<dyn Component<M>>,
    pub children: Vec<Node<M>>,
}

/// What the layout needs to know of one component: its key, the size it asks
/// for, how it lays out its children, and how many children it has.
#[derive(Debug, Clone, Copy, PartialEq, Eq)]
pub struct LayoutItem {
    pub key: Key,
    pub dimensions: Option<Dimensions>,
    pub style: Option<Style>,
    pub children: usize,
}

/// What an update pass leaves behind: the post office, the messages that the
/// components sent, in the order in which they were sent, and the message of
/// the error that ended the pass, if one did.
pub struct PassView<M> {
    pub office: PostOfficeView<M>,
    pub sends: Seq<Delivery<M>>,
    pub error: Option<Seq<char>>,
}

/// The batch of a component: its commands, behind a move of the cursor to the
/// component's place where the layout has one for it.
pub open spec fn place(
    key: Key,
    commands: Seq<DrawCommandView>,
    layout: Map<Key, Coordinates>,
) -> BatchView {
    if layout.contains_key(key) {
        (
            key,
            seq![DrawCommandView::MoveCursorAbsolute { x: layout[key].0, y: layout[key].1 }]
                + commands,
        )
    } else {
        (key, commands)
    }
}

impl<M> Node<M> {
    /// The keys of the tree: the node's own, then those of each child's tree
    /// in turn.
    pub open spec fn keys(&self) -> Seq<Key>
        decreases self,
    {
        seq![self.component.spec_key()] + Self::keys_of(self.children@, self.children@.len())
    }

    /// The keys of the trees of the first `n` nodes.
    pub open spec fn keys_of(nodes: Seq<Node<M>>, n: nat) -> Seq<Key>
        decreases nodes, n,
    {
        if n == 0 || n > nodes.len() {
            Seq::empty()
        } else {
            Self::keys_of(nodes, (n - 1) as nat) + nodes[n - 1].keys()
        }
    }

    /// The batches of the tree: the node's own, then those of each child's
    /// tree in turn; or the message of the first error.
    pub open spec fn rendered(&self, ctx: RenderContext, layout: Map<Key, Coordinates>) -> Result<
        Seq<BatchView>,
        Seq<char>,
    >
        decreases self,
    {
        match self.component.spec_render(ctx) {
            Err(e) => Err(e),
            Ok(commands) => match Self::rendered_of(
                self.children@,
                self.children@.len(),
                ctx,
                layout,
            ) {
                Err(e) => Err(e),
                Ok(below) => Ok(seq![place(self.component.spec_key(), commands, layout)] + below),
            },
        }
    }

    /// The batches of the trees of the first `n` nodes, or the message of the
    /// first error.
    pub open spec fn rendered_of(
        nodes: Seq<Node<M>>,
        n: nat,
        ctx: RenderContext,
        layout: Map<Key, Coordinates>,
    ) -> Result<Seq<BatchView>, Seq<char>>
        decreases nodes, n,
    {
        if n == 0 || n > nodes.len() {
            Ok(Seq::empty())
        } else {
            match Self::rendered_of(nodes, (n - 1) as nat, ctx, layout) {
                Err(e) => Err(e),
                Ok(before) => match nodes[n - 1].rendered(ctx, layout) {
                    Err(e) => Err(e),
                    Ok(last) => Ok(before + last),
                },
            }
        }
    }

    /// What the layout needs to know of the tree: one item for the node, then
    /// those of each child's tree in turn; or the message of the first
    /// component that cannot tell its size.
    pub open spec fn layout_items(&self) -> Result<Seq<LayoutItem>, Seq<char>>
        decreases self,
    {
        match self.component.spec_dimensions() {
            Err(e) => Err(e),
            Ok(dimensions) => match Self::layout_items_of(self.children@, self.children@.len()) {
                Err(e) => Err(e),
                Ok(below) => Ok(
                    seq![
                        LayoutItem {
                            key: self.component.spec_key(),
                            dimensions,
                            style: self.component.spec_style(),
                            children: self.children@.len() as usize,
                        },
                    ] + below,
                ),
            },
        }
    }

    /// The layout items of the trees of the first `n` nodes, or the message of
    /// the first error.
    pub open spec fn layout_items_of(nodes: Seq<Node<M>>, n: nat) -> Result<
        Seq<LayoutItem>,
        Seq<char>,
    >
        decreases nodes, n,
    {
        if n == 0 || n > nodes.len() {
            Ok(Seq::empty())
        } else {
            match Self::layout_items_of(nodes, (n - 1) as nat) {
                Err(e) => Err(e),
                Ok(before) => match nodes[n - 1].layout_items() {
                    Err(e) => Err(e),
                    Ok(last) => Ok(before + last),
                },
            }
        }
    }

    /// Once a child's tree fails to tell its layout items, the error is that
    /// of the whole list of children.
    pub proof fn lemma_layout_error_stays(nodes: Seq<Node<M>>, k: nat, n: nat)
        requires
            k <= n <= nodes.len(),
            Self::layout_items_of(nodes, k) is Err,
        ensures
            Self::layout_items_of(nodes, n) == Self::layout_items_of(nodes, k),
        decreases n,
    {
        if k < n {
            Self::lemma_layout_error_stays(nodes, k, (n - 1) as nat);
        }
    }

    /// Adds the layout items of the tree to `items`: the node first, then each
    /// child's tree in turn. The first error ends the walk.
    pub fn collect_layout_items(&self, items: &mut Vec<LayoutItem>) -> (r: Result<
        (),
        ComponentError,
    >)
        ensures
            match self.layout_items() {
                Ok(own) => r is Ok && final(items)@ == old(items)@ + own,
                Err(message) => r matches Err(e) && e.message@ == message,
            },
        decreases self,
    {
        let dimensions = match self.component.dimensions() {
            Ok(dimensions) => dimensions,
            Err(e) => {
                return Err(e);
            },
        };
        let item = LayoutItem {
            key: self.component.key(),
            dimensions,
            style: self.component.style(),
            children: self.children.len(),
        };
        items.push(item);
        let mut i: usize = 0;
        while i < self.children.len()
            invariant
                i <= self.children.len(),
                self.component.spec_dimensions() == Ok::<Option<Dimensions>, Seq<char>>(
                    dimensions,
                ),
                Self::layout_items_of(self.children@, i as nat) is Ok,
                items@ == old(items)@ + seq![item] + Self::layout_items_of(
                    self.children@,
                    i as nat,
                )->Ok_0,
            decreases self.children.len() - i,
        {
            if let Err(e) = self.children[i].collect_layout_items(items) {
                proof {
                    Self::lemma_layout_error_stays(
                        self.children@,
                        (i + 1) as nat,
                        self.children@.len(),
                    );
                }
                return Err(e);
            }
            i += 1;
        }
        Ok(())
    }

    /// An update pass over the tree. Each component is handed what waits in
    /// its mailbox when the pass reaches it, and the mailbox is emptied. The
    /// node comes first, then each child's tree in turn. The first component
    /// that fails to update ends the pass.
    pub open spec fn pass(
        &self,
        office: PostOfficeView<M>,
        focus: Key,
        dimensions: Dimensions,
    ) -> PassView<M>
        decreases self,
    {
        let key = self.component.spec_key();
        let mail = office.mail(key);
        match self.component.spec_update_error(mail, focus, dimensions) {
            Some(e) => PassView { office: office.clear(key), sends: Seq::empty(), error: Some(e) },
            None => {
                let below = Self::pass_of(
                    self.children@,
                    self.children@.len(),
                    office.clear(key),
                    focus,
                    dimensions,
                );
                PassView {
                    office: below.office,
                    sends: self.component.spec_sends(mail, focus) + below.sends,
                    error: below.error,
                }
            },
        }
    }

    /// An update pass over the trees of the first `n` nodes.
    pub open spec fn pass_of(
        nodes: Seq<Node<M>>,
        n: nat,
        office: PostOfficeView<M>,
        focus: Key,
        dimensions: Dimensions,
    ) -> PassView<M>
        decreases nodes, n,
    {
        if n == 0 || n > nodes.len() {
            PassView { office, sends: Seq::empty(), error: None }
        } else {
            let before = Self::pass_of(nodes, (n - 1) as nat, office, focus, dimensions);
            if before.error is Some {
                before
            } else {
                let last = nodes[n - 1].pass(before.office, focus, dimensions);
                PassView {
                    office: last.office,
                    sends: before.sends + last.sends,
                    error: last.error,
                }
            }
        }
    }

    /// What the tree draws once an update pass, in which every update
    /// succeeds, has gone over it: the batches of the node and of each child's
    /// tree in turn, or the message of the first error.
    pub open spec fn rendered_next(
        &self,
        office: PostOfficeView<M>,
        focus: Key,
        dimensions: Dimensions,
        ctx: RenderContext,
        layout: Map<Key, Coordinates>,
    ) -> Result<Seq<BatchView>, Seq<char>>
        decreases self,
    {
        let key = self.component.spec_key();
        match self.component.spec_render_next(office.mail(key), focus, dimensions, ctx) {
            Err(e) => Err(e),
            Ok(commands) => match Self::rendered_next_of(
                self.children@,
                self.children@.len(),
                office.clear(key),
                focus,
                dimensions,
                ctx,
                layout,
            ) {
                Err(e) => Err(e),
                Ok(below) => Ok(seq![place(key, commands, layout)] + below),
            },
        }
    }

    /// What the trees of the first `n` nodes draw once an update pass has gone
    /// over them.
    pub open spec fn rendered_next_of(
        nodes: Seq<Node<M>>,
        n: nat,
        office: PostOfficeView<M>,
        focus: Key,
        dimensions: Dimensions,
        ctx: RenderContext,
        layout: Map<Key, Coordinates>,
    ) -> Result<Seq<BatchView>, Seq<char>>
        decreases nodes, n,
    {
        if n == 0 || n > nodes.len() {
            Ok(Seq::empty())
        } else {
            match Self::rendered_next_of(
                nodes,
                (n - 1) as nat,
                office,
                focus,
                dimensions,
                ctx,
                layout,
            ) {
                Err(e) => Err(e),
                Ok(before) => match nodes[n - 1].rendered_next(
                    Self::pass_of(nodes, (n - 1) as nat, office, focus, dimensions).office,
                    focus,
                    dimensions,
                    ctx,
                    layout,
                ) {
                    Err(e) => Err(e),
                    Ok(last) => Ok(before + last),
                },
            }
        }
    }

    /// What the layout needs to know of the tree once an update pass, in which
    /// every update succeeds, has gone over it.
    pub open spec fn layout_items_next(
        &self,
        office: PostOfficeView<M>,
        focus: Key,
        dimensions: Dimensions,
    ) -> Result<Seq<LayoutItem>, Seq<char>>
        decreases self,
    {
        let key = self.component.spec_key();
        let mail = office.mail(key);
        match self.component.spec_dimensions_next(mail, focus, dimensions) {
            Err(e) => Err(e),
            Ok(asked) => match Self::layout_items_next_of(
                self.children@,
                self.children@.len(),
                office.clear(key),
                focus,
                dimensions,
            ) {
                Err(e) => Err(e),
                Ok(below) => Ok(
                    seq![
                        LayoutItem {
                            key,
                            dimensions: asked,
                            style: self.component.spec_style_next(mail, focus, dimensions),
                            children: self.children@.len() as usize,
                        },
                    ] + below,
                ),
            },
        }
    }

    /// What the layout needs to know of the trees of the first `n` nodes once
    /// an update pass has gone over them.
    pub open spec fn layout_items_next_of(
        nodes: Seq<Node<M>>,
        n: nat,
        office: PostOfficeView<M>,
        focus: Key,
        dimensions: Dimensions,
    ) -> Result<Seq<LayoutItem>, Seq<char>>
        decreases nodes, n,
    {
        if n == 0 || n > nodes.len() {
            Ok(Seq::empty())
        } else {
            match Self::layout_items_next_of(nodes, (n - 1) as nat, office, focus, dimensions) {
                Err(e) => Err(e),
                Ok(before) => match nodes[n - 1].layout_items_next(
                    Self::pass_of(nodes, (n - 1) as nat, office, focus, dimensions).office,
                    focus,
                    dimensions,
                ) {
                    Err(e) => Err(e),
                    Ok(last) => Ok(before + last),
                },
            }
        }
    }

    /// What the layout needs to know of a list of trees depends on the trees
    /// only.
    pub proof fn lemma_layout_items_of_agree(a: Seq<Node<M>>, b: Seq<Node<M>>, n: nat)
        requires
            n <= a.len(),
            n <= b.len(),
            forall|j: int| 0 <= j < n ==> (#[trigger] a[j]).layout_items() == b[j].layout_items(),
        ensures
            Self::layout_items_of(a, n) == Self::layout_items_of(b, n),
        decreases n,
    {
        if n > 0 {
            Self::lemma_layout_items_of_agree(a, b, (n - 1) as nat);
        }
    }

    /// Once a child's tree fails to update, the pass over the list of children
    /// has ended.
    pub proof fn lemma_pass_error_stays(
        nodes: Seq<Node<M>>,
        k: nat,
        n: nat,
        office: PostOfficeView<M>,
        focus: Key,
        dimensions: Dimensions,
    )
        requires
            k <= n <= nodes.len(),
            Self::pass_of(nodes, k, office, focus, dimensions).error is Some,
        ensures
            Self::pass_of(nodes, n, office, focus, dimensions) == Self::pass_of(
                nodes,
                k,
                office,
                focus,
                dimensions,
            ),
        decreases n,
    {
        if k < n {
            Self::lemma_pass_error_stays(nodes, k, (n - 1) as nat, office, focus, dimensions);
        }
    }

    /// What a list of trees draws depends on the trees only.
    pub proof fn lemma_rendered_of_agree(
        a: Seq<Node<M>>,
        b: Seq<Node<M>>,
        n: nat,
        ctx: RenderContext,
        layout: Map<Key, Coordinates>,
    )
        requires
            n <= a.len(),
            n <= b.len(),
            forall|j: int| 0 <= j < n ==> (#[trigger] a[j]).rendered(ctx, layout) == b[j].rendered(
                ctx,
                layout,
            ),
        ensures
            Self::rendered_of(a, n, ctx, layout) == Self::rendered_of(b, n, ctx, layout),
        decreases n,
    {
        if n > 0 {
            Self::lemma_rendered_of_agree(a, b, (n - 1) as nat, ctx, layout);
        }
    }

    /// Once a child's tree fails to render, the error is that of the whole
    /// list of children.
    pub proof fn lemma_render_error_stays(
        nodes: Seq<Node<M>>,
        k: nat,
        n: nat,
        ctx: RenderContext,
        layout: Map<Key, Coordinates>,
    )
        requires
            k <= n <= nodes.len(),
            Self::rendered_of(nodes, k, ctx, layout) is Err,
        ensures
            Self::rendered_of(nodes, n, ctx, layout) == Self::rendered_of(nodes, k, ctx, layout),
        decreases n,
    {
        if k < n {
            Self::lemma_render_error_stays(nodes, k, (n - 1) as nat, ctx, layout);
        }
    }

    /// The mailboxes that an update pass hands to the components of the tree,
    /// in the order of the pass.
    pub open spec fn handed(
        &self,
        office: PostOfficeView<M>,
        focus: Key,
        dimensions: Dimensions,
    ) -> Seq<Seq<RawComponentMessage<M>>>
        decreases self,
    {
        let key = self.component.spec_key();
        seq![office.mail(key)] + Self::handed_of(
            self.children@,
            self.children@.len(),
            office.clear(key),
            focus,
            dimensions,
        )
    }

    /// The mailboxes that an update pass hands to the components of the trees
    /// of the first `n` nodes.
    pub open spec fn handed_of(
        nodes: Seq<Node<M>>,
        n: nat,
        office: PostOfficeView<M>,
        focus: Key,
        dimensions: Dimensions,
    ) -> Seq<Seq<RawComponentMessage<M>>>
        decreases nodes, n,
    {
        if n == 0 || n > nodes.len() {
            Seq::empty()
        } else {
            Self::handed_of(nodes, (n - 1) as nat, office, focus, dimensions) + nodes[n
                - 1].handed(
                Self::pass_of(nodes, (n - 1) as nat, office, focus, dimensions).office,
                focus,
                dimensions,
            )
        }
    }

    /// Every component of the tree is handed a mailbox in a pass that does not
    /// fail. The first component with a key is handed what waits for the key;
    /// a later component with the same key is handed nothing.
    pub proof fn lemma_handed(&self, office: PostOfficeView<M>, focus: Key, dimensions: Dimensions)
        requires
            self.pass(office, focus, dimensions).error is None,
        ensures
            self.handed(office, focus, dimensions).len() == self.keys().len(),
            forall|i: int|
                0 <= i < self.keys().len() ==> #[trigger] self.handed(office, focus, dimensions)[i]
                    == if first_at(self.keys(), i) {
                    office.mail(self.keys()[i])
                } else {
                    Seq::empty()
                },
        decreases self, 0nat,
    {
        let own = self.component.spec_key();
        let below = self.children@;
        let keys = self.keys();
        let keys_below = Self::keys_of(below, below.len());
        let handed_below = Self::handed_of(
            below,
            below.len(),
            office.clear(own),
            focus,
            dimensions,
        );
        Self::lemma_handed_of(below, below.len(), office.clear(own), focus, dimensions);
        assert forall|i: int| 0 <= i < keys.len() implies #[trigger] self.handed(
            office,
            focus,
            dimensions,
        )[i] == if first_at(keys, i) {
            office.mail(keys[i])
        } else {
            Seq::empty()
        } by {
            if i > 0 {
                assert(self.handed(office, focus, dimensions)[i] == handed_below[i - 1]);
                assert(keys[i] == keys_below[i - 1]);
                if first_at(keys, i) {
                    assert(keys[0] != keys[i]);
                    assert forall|j: int| 0 <= j < i - 1 implies #[trigger] keys_below[j]
                        != keys_below[i - 1] by {
                        assert(keys[j + 1] == keys_below[j]);
                    }
                } else {
                    let j = choose|j: int| 0 <= j < i && keys[j] == keys[i];
                    if j > 0 {
                        assert(keys_below[j - 1] == keys[j]);
                        assert(!first_at(keys_below, i - 1));
                    }
                }
            }
        }
    }

    /// Every component of a list of trees is handed a mailbox: see
    /// [`Node::lemma_handed`].
    pub proof fn lemma_handed_of(
        nodes: Seq<Node<M>>,
        n: nat,
        office: PostOfficeView<M>,
        focus: Key,
        dimensions: Dimensions,
    )
        requires
            n <= nodes.len(),
            Self::pass_of(nodes, n, office, focus, dimensions).error is None,
        ensures
            Self::handed_of(nodes, n, office, focus, dimensions).len() == Self::keys_of(
                nodes,
                n,
            ).len(),
            forall|i: int|
                0 <= i < Self::keys_of(nodes, n).len() ==> #[trigger] Self::handed_of(
                    nodes,
                    n,
                    office,
                    focus,
                    dimensions,
                )[i] == if first_at(Self::keys_of(nodes, n), i) {
                    office.mail(Self::keys_of(nodes, n)[i])
                } else {
                    Seq::empty()
                },
        decreases nodes, n,
    {
        if n > 0 {
            let first = Self::keys_of(nodes, (n - 1) as nat);
            let last = nodes[n - 1].keys();
            let keys = Self::keys_of(nodes, n);
            let before = Self::pass_of(nodes, (n - 1) as nat, office, focus, dimensions).office;
            let handed_first = Self::handed_of(nodes, (n - 1) as nat, office, focus, dimensions);
            let handed_last = nodes[n - 1].handed(before, focus, dimensions);
            Self::lemma_handed_of(nodes, (n - 1) as nat, office, focus, dimensions);
            nodes[n - 1].lemma_handed(before, focus, dimensions);
            assert forall|i: int| 0 <= i < keys.len() implies #[trigger] Self::handed_of(
                nodes,
                n,
                office,
                focus,
                dimensions,
            )[i] == if first_at(keys, i) {
                office.mail(keys[i])
            } else {
                Seq::empty()
            } by {
                if i < first.len() {
                    assert(Self::handed_of(nodes, n, office, focus, dimensions)[i]
                        == handed_first[i]);
                    assert(keys[i] == first[i]);
                    assert(first_at(keys, i) == first_at(first, i)) by {
                        if first_at(first, i) {
                            assert forall|j: int| 0 <= j < i implies #[trigger] keys[j]
                                != keys[i] by {
                                assert(keys[j] == first[j]);
                            }
                        } else {
                            let j = choose|j: int| 0 <= j < i && first[j] == first[i];
                            assert(keys[j] == first[j]);
                        }
                    }
                } else {
                    let k = i - first.len();
                    assert(Self::handed_of(nodes, n, office, focus, dimensions)[i]
                        == handed_last[k]);
                    assert(keys[i] == last[k]);
                    Self::lemma_pass_of_takes_mail(
                        nodes,
                        (n - 1) as nat,
                        office,
                        focus,
                        dimensions,
                        keys[i],
                    );
                    if first_at(keys, i) {
                        assert forall|j: int| 0 <= j < k implies #[trigger] last[j] != last[k] by {
                            assert(keys[first.len() + j] == last[j]);
                        }
                        assert(!first.contains(keys[i])) by {
                            if first.contains(keys[i]) {
                                let j = choose|j: int| 0 <= j < first.len() && first[j] == keys[i];
                                assert(keys[j] == first[j]);
                            }
                        }
                    } else {
                        let j = choose|j: int| 0 <= j < i && keys[j] == keys[i];
                        if j < first.len() {
                            assert(first[j] == keys[j]);
                            assert(first.contains(keys[i]));
                        } else {
                            assert(last[j - first.len()] == keys[j]);
                            assert(!first_at(last, k));
                        }
                    }
                }
            }
        }
    }

    /// A message that is sent to the key of a component before an update pass
    /// is handed out once in the pass, where the pass does not fail: the first
    /// component with the key gets it, behind what already waited for the
    /// key; no other component is handed anything else than without the
    /// message; and after the pass nothing waits for the key.
    pub proof fn lemma_message_handed_once(
        &self,
        office: PostOfficeView<M>,
        focus: Key,
        dimensions: Dimensions,
        key: Key,
        message: RawComponentMessage<M>,
        i: int,
    )
        requires
            0 <= i < self.keys().len(),
            self.keys()[i] == key,
            first_at(self.keys(), i),
            self.pass(office, focus, dimensions).error is None,
            self.pass(office.send(key, message), focus, dimensions).error is None,
        ensures
            self.handed(office.send(key, message), focus, dimensions).len() == self.keys().len(),
            self.handed(office, focus, dimensions).len() == self.keys().len(),
            self.handed(office.send(key, message), focus, dimensions)[i] == office.mail(key).push(
                message,
            ),
            forall|p: int|
                0 <= p < self.keys().len() && p != i ==> #[trigger] self.handed(
                    office.send(key, message),
                    focus,
                    dimensions,
                )[p] == self.handed(office, focus, dimensions)[p],
            self.pass(office.send(key, message), focus, dimensions).office.mail(key) == Seq::<
                RawComponentMessage<M>,
            >::empty(),
    {
        let sent = office.send(key, message);
        self.lemma_handed(office, focus, dimensions);
        self.lemma_handed(sent, focus, dimensions);
        self.lemma_pass_takes_mail(sent, focus, dimensions, key);
        let keys = self.keys();
        assert(keys.contains(key));
        assert forall|p: int| 0 <= p < keys.len() && p != i implies #[trigger] self.handed(
            sent,
            focus,
            dimensions,
        )[p] == self.handed(office, focus, dimensions)[p] by {
            if keys[p] == key {
                if p < i {
                    assert(!first_at(keys, i));
                } else {
                    assert(!first_at(keys, p));
                }
            }
        }
    }

    /// An update pass that does not fail takes what waits for every component
    /// of the tree, so that no message is handed out twice: after the pass
    /// nothing waits for a key of the tree, and what waits for any other key
    /// is as it was.
    pub proof fn lemma_pass_takes_mail(
        &self,
        office: PostOfficeView<M>,
        focus: Key,
        dimensions: Dimensions,
        key: Key,
    )
        requires
            self.pass(office, focus, dimensions).error is None,
        ensures
            self.keys().contains(key) ==> self.pass(office, focus, dimensions).office.mail(key)
                == Seq::<RawComponentMessage<M>>::empty(),
            !self.keys().contains(key) ==> self.pass(office, focus, dimensions).office.mail(key)
                == office.mail(key),
            self.pass(office, focus, dimensions).office.control == office.control,
        decreases self, 0nat,
    {
        let own = self.component.spec_key();
        let below = self.children@;
        Self::lemma_pass_of_takes_mail(
            below,
            below.len(),
            office.clear(own),
            focus,
            dimensions,
            key,
        );
        let keys_below = Self::keys_of(below, below.len());
        if key == own {
            assert(self.keys()[0] == key);
        } else if keys_below.contains(key) {
            let i = choose|i: int| 0 <= i < keys_below.len() && keys_below[i] == key;
            assert(self.keys()[i + 1] == key);
        } else {
            assert forall|i: int| 0 <= i < self.keys().len() implies self.keys()[i] != key by {
                if i > 0 {
                    assert(keys_below[i - 1] == self.keys()[i]);
                }
            }
        }
    }

    /// An update pass over a list of trees that does not fail takes what
    /// waits for every component of the list.
    pub proof fn lemma_pass_of_takes_mail(
        nodes: Seq<Node<M>>,
        n: nat,
        office: PostOfficeView<M>,
        focus: Key,
        dimensions: Dimensions,
        key: Key,
    )
        requires
            n <= nodes.len(),
            Self::pass_of(nodes, n, office, focus, dimensions).error is None,
        ensures
            Self::keys_of(nodes, n).contains(key) ==> Self::pass_of(
                nodes,
                n,
                office,
                focus,
                dimensions,
            ).office.mail(key) == Seq::<RawComponentMessage<M>>::empty(),
            !Self::keys_of(nodes, n).contains(key) ==> Self::pass_of(
                nodes,
                n,
                office,
                focus,
                dimensions,
            ).office.mail(key) == office.mail(key),
            Self::pass_of(nodes, n, office, focus, dimensions).office.control == office.control,
        decreases nodes, n,
    {
        if n > 0 {
            let before = Self::pass_of(nodes, (n - 1) as nat, office, focus, dimensions);
            Self::lemma_pass_of_takes_mail(nodes, (n - 1) as nat, office, focus, dimensions, key);
            nodes[n - 1].lemma_pass_takes_mail(before.office, focus, dimensions, key);
            let first = Self::keys_of(nodes, (n - 1) as nat);
            let last = nodes[n - 1].keys();
            if first.contains(key) {
                let i = choose|i: int| 0 <= i < first.len() && first[i] == key;
                assert((first + last)[i] == key);
            } else if last.contains(key) {
                let i = choose|i: int| 0 <= i < last.len() && last[i] == key;
                assert((first + last)[first.len() + i] == key);
            } else {
                assert forall|i: int| 0 <= i < (first + last).len() implies (first + last)[i]
                    != key by {
                    if i >= first.len() {
                        assert(last[i - first.len()] == (first + last)[i]);
                    }
                }
            }
        }
    }

    /// Lists of trees that agree tree by tree on their keys agree on the keys
    /// of the whole list.
    pub proof fn lemma_keys_of_agree(a: Seq<Node<M>>, b: Seq<Node<M>>, n: nat)
        requires
            a.len() == b.len(),
            n <= a.len(),
            forall|j: int| 0 <= j < n ==> (#[trigger] a[j]).keys() == b[j].keys(),
        ensures
            Self::keys_of(a, n) == Self::keys_of(b, n),
        decreases n,
    {
        if n > 0 {
            Self::lemma_keys_of_agree(a, b, (n - 1) as nat);
        }
    }

    /// What an update pass makes of the tree. The keys stay, and the post office
    /// and the messages that were sent are those of [`Node::pass`]. Where the
    /// pass fails, its error is handed back. Where it does not, the tree draws
    /// what [`Node::rendered_next`] says, and it tells the layout what
    /// [`Node::layout_items_next`] says.
    pub open spec fn passed(
        before: Node<M>,
        after: Node<M>,
        office: PostOfficeView<M>,
        office_after: PostOfficeView<M>,
        sent: Seq<Delivery<M>>,
        focus: Key,
        dimensions: Dimensions,
        r: Result<(), ComponentError>,
    ) -> bool {
        &&& after.keys() == before.keys()
        &&& office_after.control == office.control
        &&& office_after == before.pass(office, focus, dimensions).office
        &&& sent == before.pass(office, focus, dimensions).sends
        &&& match before.pass(office, focus, dimensions).error {
            Some(message) => r matches Err(e) && e.message@ == message,
            None => {
                &&& r is Ok
                &&& forall|ctx: RenderContext, layout: Map<Key, Coordinates>| #[trigger]
                    after.rendered(ctx, layout) == before.rendered_next(
                        office,
                        focus,
                        dimensions,
                        ctx,
                        layout,
                    )
                &&& after.layout_items() == before.layout_items_next(office, focus, dimensions)
            },
        }
    }

    /// Updates the tree: the node first, then each child's tree in turn. Each
    /// component is handed the messages that wait in its mailbox, and the
    /// mailbox is emptied. What the components send is added to `outgoing`.
    /// The first error ends the pass.
    pub fn update(
        &mut self,
        post_office: &mut PostOffice<M>,
        focus: Key,
        dimensions: Dimensions,
        outgoing: &mut Vec<Delivery<M>>,
    ) -> (r: Result<(), ComponentError>)
        ensures
            old(outgoing)@.is_prefix_of(final(outgoing)@),
            Self::passed(
                *old(self),
                *final(self),
                old(post_office)@,
                final(post_office)@,
                final(outgoing)@.skip(old(outgoing)@.len() as int),
                focus,
                dimensions,
                r,
            ),
        decreases *old(self),
    {
        let key = self.component.key();
        let ghost office = post_office@;
        let ghost mail = office.mail(key);
        let ghost cleared = office.clear(key);
        let mailbox = post_office.take_mailbox(key);
        let mut ctx = UpdateContext::new(mailbox, focus, dimensions);
        let updated = self.component.update(&mut ctx);
        if let Err(e) = updated {
            proof {
                Self::lemma_keys_of_agree(
                    self.children@,
                    old(self).children@,
                    self.children@.len(),
                );
                assert(outgoing@.skip(outgoing@.len() as int) =~= Seq::empty());
            }
            return Err(e);
        }
        let UpdateContext { mailbox: _, sender, focus: _, dimensions: _ } = ctx;
        let mut sent = sender.into_sent();
        let ghost own = sent@;
        outgoing.append(&mut sent);
        let mut i: usize = 0;
        while i < self.children.len()
            invariant
                i <= self.children.len(),
                self.children@.len() == old(self).children@.len(),
                self.component.spec_key() == old(self).component.spec_key(),
                key == old(self).component.spec_key(),
                office == old(post_office)@,
                cleared == office.clear(key),
                mail == office.mail(key),
                old(self).component.spec_update_error(mail, focus, dimensions) is None,
                own == old(self).component.spec_sends(mail, focus),
                forall|next: RenderContext| #[trigger]
                    self.component.spec_render(next) == old(self).component.spec_render_next(
                        mail,
                        focus,
                        dimensions,
                        next,
                    ),
                self.component.spec_dimensions() == old(self).component.spec_dimensions_next(
                    mail,
                    focus,
                    dimensions,
                ),
                self.component.spec_style() == old(self).component.spec_style_next(
                    mail,
                    focus,
                    dimensions,
                ),
                Self::layout_items_of(self.children@, i as nat) == Self::layout_items_next_of(
                    old(self).children@,
                    i as nat,
                    cleared,
                    focus,
                    dimensions,
                ),
                forall|j: int|
                    0 <= j < i ==> (#[trigger] self.children@[j]).keys()
                        == old(self).children@[j].keys(),
                forall|j: int|
                    i <= j < self.children@.len() ==> #[trigger] self.children@[j]
                        == old(self).children@[j],
                Self::pass_of(old(self).children@, i as nat, cleared, focus, dimensions).error
                    is None,
                post_office@ == Self::pass_of(
                    old(self).children@,
                    i as nat,
                    cleared,
                    focus,
                    dimensions,
                ).office,
                outgoing@ == old(outgoing)@ + own + Self::pass_of(
                    old(self).children@,
                    i as nat,
                    cleared,
                    focus,
                    dimensions,
                ).sends,
                post_office@.control == old(post_office)@.control,
                forall|ctx: RenderContext, layout: Map<Key, Coordinates>| #[trigger]
                    Self::rendered_of(self.children@, i as nat, ctx, layout)
                        == Self::rendered_next_of(
                        old(self).children@,
                        i as nat,
                        cleared,
                        focus,
                        dimensions,
                        ctx,
                        layout,
                    ),
            decreases self.children.len() - i,
        {
            let ghost before = self.children@;
            let ghost office_i = post_office@;
            let ghost outgoing_i = outgoing@;
            let r = self.children[i].update(post_office, focus, dimensions, outgoing);
            assert(self.children@.len() == before.len());
            assert(forall|j: int|
                0 <= j < self.children@.len() && j != i ==> #[trigger] self.children@[j]
                    == before[j]);
            assert(before[i as int] == old(self).children@[i as int]);
            if let Err(e) = r {
                proof {
                    Self::lemma_keys_of_agree(
                        self.children@,
                        old(self).children@,
                        self.children@.len(),
                    );
                    Self::lemma_pass_error_stays(
                        old(self).children@,
                        (i + 1) as nat,
                        old(self).children@.len(),
                        cleared,
                        focus,
                        dimensions,
                    );
                    lemma_prefix_of_appended(old(outgoing)@, own, outgoing_i, outgoing@);
                    let child_sent = outgoing@.skip(outgoing_i.len() as int);
                    assert(outgoing@ =~= outgoing_i + child_sent);
                    let failed = Self::pass_of(
                        old(self).children@,
                        (i + 1) as nat,
                        cleared,
                        focus,
                        dimensions,
                    );
                    assert(outgoing@.skip(old(outgoing)@.len() as int) =~= own + failed.sends);
                }
                return Err(e);
            }
            proof {
                let child_sent = outgoing@.skip(outgoing_i.len() as int);
                assert(outgoing@ =~= outgoing_i + child_sent);
                Self::lemma_layout_items_of_agree(self.children@, before, i as nat);
                assert forall|ctx: RenderContext, layout: Map<Key, Coordinates>| #[trigger]
                    Self::rendered_of(self.children@, (i + 1) as nat, ctx, layout)
                        == Self::rendered_next_of(
                        old(self).children@,
                        (i + 1) as nat,
                        cleared,
                        focus,
                        dimensions,
                        ctx,
                        layout,
                    ) by {
                    Self::lemma_rendered_of_agree(self.children@, before, i as nat, ctx, layout);
                    assert(self.children@[i as int].rendered(ctx, layout)
                        == old(self).children@[i as int].rendered_next(
                        office_i,
                        focus,
                        dimensions,
                        ctx,
                        layout,
                    ));
                }
            }
            i += 1;
        }
        proof {
            Self::lemma_keys_of_agree(self.children@, old(self).children@, self.children@.len());
            let all = Self::pass_of(
                old(self).children@,
                old(self).children@.len(),
                cleared,
                focus,
                dimensions,
            );
            assert(outgoing@.skip(old(outgoing)@.len() as int) =~= own + all.sends);
            assert forall|ctx: RenderContext, layout: Map<Key, Coordinates>| #[trigger]
                self.rendered(ctx, layout) == old(self).rendered_next(
                    office,
                    focus,
                    dimensions,
                    ctx,
                    layout,
                ) by {
                assert(self.component.spec_render(ctx) == old(self).component.spec_render_next(
                    mail,
                    focus,
                    dimensions,
                    ctx,
                ));
                assert(Self::rendered_of(self.children@, self.children@.len(), ctx, layout)
                    == Self::rendered_next_of(
                    old(self).children@,
                    old(self).children@.len(),
                    cleared,
                    focus,
                    dimensions,
                    ctx,
                    layout,
                ));
            }
            assert(old(self).pass(office, focus, dimensions).error is None);
            assert(old(self).pass(office, focus, dimensions).office == post_office@);
            assert(old(self).pass(office, focus, dimensions).sends == own + all.sends);
        }
        Ok(())
    }

    /// Adds the keys of the tree to `keys`.
    pub fn collect_keys(&self, keys: &mut std::collections::HashSet<Key>)
        ensures
            final(keys)@ == old(keys)@.union(self.keys().to_set()),
        decreases self,
    {
        broadcast use vstd::std_specs::hash::group_hash_axioms;

        let own = self.component.key();
        keys.insert(own);
        assert(keys@ =~= old(keys)@.union(seq![own].to_set())) by {
            assert(seq![own].to_set() =~= set![own]) by {
                assert forall|k: Key| seq![own].to_set().contains(k) <==> k == own by {
                    if k == own {
                        assert(seq![own][0] == k);
                    }
                }
            }
        }
        let mut i: usize = 0;
        while i < self.children.len()
            invariant
                i <= self.children.len(),
                keys@ == old(keys)@.union(
                    (seq![self.component.spec_key()] + Self::keys_of(
                        self.children@,
                        i as nat,
                    )).to_set(),
                ),
            decreases self.children.len() - i,
        {
            let ghost before = seq![self.component.spec_key()] + Self::keys_of(
                self.children@,
                i as nat,
            );
            let ghost added = self.children@[i as int].keys();
            self.children[i].collect_keys(keys);
            proof {
                vstd::seq_lib::seq_to_set_distributes_over_add(before, added);
                assert(before + added =~= seq![self.component.spec_key()] + Self::keys_of(
                    self.children@,
                    (i + 1) as nat,
                ));
                assert(keys@ =~= old(keys)@.union((before + added).to_set()));
            }
            i += 1;
        }
    }

    /// The keys of the tree.
    pub fn get_all_child_keys(&self) -> (keys: std::collections::HashSet<Key>)
        ensures
            keys@ == self.keys().to_set(),
    {
        broadcast use vstd::std_specs::hash::group_hash_axioms;

        let mut keys = std::collections::HashSet::new();
        self.collect_keys(&mut keys);
        assert(keys@ =~= self.keys().to_set());
        keys
    }

    /// The key of the node's component.
    pub fn key(&self) -> (key: Key)
        ensures
            key == self.component.spec_key(),
    {
        self.component.key()
    }

    /// Renders the tree: the node first, then each child's tree in turn. The
    /// first error ends the pass.
    pub fn render(&self, ctx: &RenderContext, layout: &Layout) -> (r: Result<
        Vec<DrawCommandBatch>,
        ComponentError,
    >)
        ensures
            match r {
                Ok(batches) => self.rendered(*ctx, layout@) == Ok::<Seq<BatchView>, Seq<char>>(
                    batches_view(batches@),
                ),
                Err(e) => self.rendered(*ctx, layout@) == Err::<Seq<BatchView>, Seq<char>>(
                    e.message@,
                ),
            },
        decreases self,
    {
        let mut draw_commands: Vec<DrawCommandBatch> = Vec::new();
        let own = match self.component.render(ctx) {
            Ok(own) => own,
            Err(e) => {
                return Err(e);
            },
        };
        let ghost own_commands = commands_view(own.1@);
        let placed = layout.place(own);
        draw_commands.push(placed);
        assert(batches_view(draw_commands@) =~= seq![
            place(self.component.spec_key(), own_commands, layout@),
        ]);
        let mut i: usize = 0;
        while i < self.children.len()
            invariant
                i <= self.children.len(),
                self.component.spec_render(*ctx) == Ok::<Seq<DrawCommandView>, Seq<char>>(
                    own_commands,
                ),
                Self::rendered_of(self.children@, i as nat, *ctx, layout@) is Ok,
                batches_view(draw_commands@) == seq![
                    place(self.component.spec_key(), own_commands, layout@),
                ] + Self::rendered_of(self.children@, i as nat, *ctx, layout@)->Ok_0,
            decreases self.children.len() - i,
        {
            let ghost before = batches_view(draw_commands@);
            let mut child_draw_commands = match self.children[i].render(ctx, layout) {
                Ok(batches) => batches,
                Err(e) => {
                    proof {
                        Self::lemma_render_error_stays(
                            self.children@,
                            (i + 1) as nat,
                            self.children@.len(),
                            *ctx,
                            layout@,
                        );
                    }
                    return Err(e);
                },
            };
            let ghost added = batches_view(child_draw_commands@);
            draw_commands.append(&mut child_draw_commands);
            assert(batches_view(draw_commands@) =~= before + added);
            i += 1;
        }
        Ok(draw_commands)
    }
}

/// What was added to a list stays a part of it when more is added.
pub proof fn lemma_prefix_of_appended<A>(start: Seq<A>, first: Seq<A>, middle: Seq<A>, end: Seq<A>)
    requires
        middle == start + first || start.is_prefix_of(middle),
        middle.is_prefix_of(end),
    ensures
        start.is_prefix_of(end),
{
    assert(start.is_prefix_of(middle));
    assert forall|i: int| 0 <= i < start.len() implies start[i] == end[i] by {
        assert(start[i] == middle[i]);
        assert(middle[i] == end[i]);
    }
    assert(start =~= end.subrange(0, start.len() as int));
}

/// Whether place `i` is the first place of its key.
pub open spec fn first_at(keys: Seq<Key>, i: int) -> bool {
    forall|j: int| 0 <= j < i ==> #[trigger] keys[j] != keys[i]
}

} // verus!
