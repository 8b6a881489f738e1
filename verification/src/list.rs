//! What list-like elements have in common.
//!
//! Bulleted lists, numbered lists and term lists are all built from items
//! and a tightness, and all of them hand styles down to the children of
//! their items. The two traits state that for any kind of list.

use crate::style::{PropertyView, Styles};
use vstd::prelude::*;

verus! {

/// An item of a list-like element: styles can be applied to what it holds.
pub trait ListItemLike: Sized + View {
    /// What an item is once `styles` are applied to its children.
    spec fn styled_view(item: Self::V, styles: Seq<PropertyView>) -> Self::V;

    /// Applies `styles` to the children of `item`.
    fn styled(item: Self, styles: Styles) -> (r: Self)
        ensures
            r@ == Self::styled_view(item@, styles@),
    ;
}

/// An element that is a list of items and can be tight or wide.
pub trait ListLike: Sized + View {
    /// The kind of item that the list holds.
    type Item: ListItemLike;

    /// What the list of the given items and tightness is.
    spec fn created_view(children: Seq<<Self::Item as View>::V>, tight: bool) -> Self::V;

    /// Makes the list from its items and its tightness.
    fn create(children: Vec<Self::Item>, tight: bool) -> (r: Self)
        ensures
            r@ == Self::created_view(Seq::new(children@.len(), |i: int| children@[i]@), tight),
    ;
}

} // verus!
