//! Rendering of term lists.
//!
//! A term list is a list of terms and their descriptions, as in a glossary.
//! Rendering turns one into a content tree: a padded stack of blocks with
//! hanging indent for layout, or a definition list for semantic markup. What
//! is rendered depends on the list and on the styles in force, and on
//! nothing else.
//!
//! - [`length`] and [`geometry`] hold the measures: lengths in fixed point,
//!   directions and sides.
//! - [`content`] holds the content tree and its combinators.
//! - [`style`] holds the style properties and the cascade that resolves them.
//! - [`list`] states what all list-like elements have in common.
//! - [`item`] holds the term list item and the ways to make one.
//! - [`terms`] holds the term list and the rule that renders it.
//! - [`laws`] proves what holds of every rendering.
//!
//! Every executable type has a view, the same value over mathematical
//! sequences, and every function states its result as a function of the
//! views of its arguments.

pub mod content;
pub mod geometry;
pub mod item;
pub mod laws;
pub mod length;
pub mod list;
pub mod style;
pub mod terms;
