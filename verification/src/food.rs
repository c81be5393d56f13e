//! Food: something that lies on one cell until it is eaten.

use crate::vector::IntVector2;
use vstd::prelude::*;

verus! {

/// A piece of food. Its cell is fixed when it is placed.
pub struct Food {
    pos: IntVector2,
}

impl View for Food {
    type V = IntVector2;

    /// The cell the food lies on.
    closed spec fn view(&self) -> IntVector2 {
        self.pos
    }
}

impl Food {
    /// Places food on `pos`.
    pub fn new(pos: IntVector2) -> (food: Food)
        ensures
            food@ == pos,
    {
        Food { pos }
    }

    /// Returns the cell the food lies on.
    pub fn pos(&self) -> (pos: &IntVector2)
        ensures
            *pos == self@,
    {
        &self.pos
    }
}

} // verus!
