//! What any menu offers: a list of items, a movable selection.

use vstd::prelude::*;

verus! {

/// A menu with a list of items and one selected item.
pub trait Menu {
    type Item;

    /// Every item of the menu, in display order.
    fn items(&self) -> Vec<Self::Item>;

    /// Move the selection one item down, where there is one.
    fn select_next(&mut self);

    /// Move the selection one item up, where there is one.
    fn select_previous(&mut self);

    /// Whether `item` is the selected one.
    fn is_selected(&self, item: &Self::Item) -> bool;

    /// The selected item.
    fn selected(&self) -> Self::Item;
}

} // verus!
