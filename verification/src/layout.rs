//! Where the layout has put the components.

use vstd::prelude::*;
use crate::tree::place;
use crate::{commands_view, Coordinates, DrawCommand, DrawCommandBatch, DrawCommandView, Key};

verus! {

/// Where the layout has put each component: the cell of its top left corner,
/// by key.
#[derive(Debug)]
pub struct Layout {
    positions: std::collections::HashMap<Key, Coordinates>,
}

impl View for Layout {
    type V = Map<Key, Coordinates>;

    closed spec fn view(&self) -> Map<Key, Coordinates> {
        self.positions@
    }
}

impl Layout {
    /// A layout that has a place for no component.
    pub fn new() -> (layout: Self)
        ensures
            layout@ == Map::<Key, Coordinates>::empty(),
    {
        Layout { positions: std::collections::HashMap::new() }
    }

    /// Puts the component with the given key at `position`.
    pub fn set(&mut self, key: Key, position: Coordinates)
        ensures
            final(self)@ == old(self)@.insert(key, position),
    {
        broadcast use vstd::std_specs::hash::group_hash_axioms;

        self.positions.insert(key, position);
    }

    /// The place of the component with the given key.
    pub fn get(&self, key: Key) -> (position: Option<Coordinates>)
        ensures
            position == if self@.contains_key(key) {
                Some(self@[key])
            } else {
                None
            },
    {
        broadcast use vstd::std_specs::hash::group_hash_axioms;

        match self.positions.get(&key) {
            Some(position) => Some(*position),
            None => None,
        }
    }

    /// Puts a move of the cursor to the component's place before its commands,
    /// where the layout has a place for it.
    pub fn place(&self, batch: DrawCommandBatch) -> (placed: DrawCommandBatch)
        ensures
            crate::batch_view(placed) == place(batch.0, commands_view(batch.1@), self@),
    {
        let (key, mut commands) = batch;
        match self.get(key) {
            Some((x, y)) => {
                let ghost before = commands_view(commands@);
                commands.insert(0, DrawCommand::MoveCursorAbsolute { x, y });
                assert(commands_view(commands@) =~= seq![
                    DrawCommandView::MoveCursorAbsolute { x, y },
                ] + before);
                (key, commands)
            },
            None => (key, commands),
        }
    }
}

} // verus!
