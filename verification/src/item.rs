//! Term list items and the ways to make one.

use crate::content::{content_view, Content, ContentView, Elem, ElemView, Span};
use crate::list::ListItemLike;
use crate::style::{PropertyView, Styles};
use vstd::prelude::*;

verus! {

/// A term list item: a term and its description.
#[derive(Debug, PartialEq, Eq)]
pub struct TermItem {
    /// The term described by the list item.
    pub term: Content,
    /// The description of the term.
    pub description: Content,
}

/// The view of [`TermItem`].
pub struct TermItemView {
    pub term: ContentView,
    pub description: ContentView,
}

/// The view of one item.
pub open spec fn item_view(item: TermItem) -> TermItemView
    decreases item,
{
    TermItemView { term: content_view(item.term), description: content_view(item.description) }
}

/// The views of a sequence of items, in order.
pub open spec fn items_view(s: Seq<TermItem>) -> Seq<TermItemView> {
    Seq::new(s.len(), |i: int| item_view(s[i]))
}

impl View for TermItem {
    type V = TermItemView;

    open spec fn view(&self) -> TermItemView {
        item_view(*self)
    }
}

impl Clone for TermItem {
    fn clone(&self) -> (r: TermItem)
        ensures
            r@ == self@,
        decreases self,
    {
        TermItem { term: self.term.clone(), description: self.description.clone() }
    }
}

/// A value that can stand where content is expected.
#[derive(Debug, PartialEq, Eq)]
pub enum Value {
    /// Nothing; it becomes empty content.
    Nothing,
    /// A string; it becomes text.
    Str(String),
    /// Content.
    Content(Content),
}

/// The view of [`Value`].
pub enum ValueView {
    Nothing,
    Str(Seq<char>),
    Content(ContentView),
}

impl View for Value {
    type V = ValueView;

    open spec fn view(&self) -> ValueView {
        match self {
            Value::Nothing => ValueView::Nothing,
            Value::Str(s) => ValueView::Str(s@),
            Value::Content(c) => ValueView::Content(c@),
        }
    }
}

impl ValueView {
    /// The content that this value is cast to.
    pub open spec fn into_content(self) -> ContentView {
        match self {
            ValueView::Nothing => ContentView::empty(),
            ValueView::Str(s) => ContentView::text(s),
            ValueView::Content(c) => c,
        }
    }
}

impl Value {
    /// Casts this value to content.
    pub fn into_content(self) -> (r: Content)
        ensures
            r@ == self@.into_content(),
    {
        match self {
            Value::Nothing => Content::empty(),
            Value::Str(s) => Content { elem: Elem::Text(s), span: Span::detached() },
            Value::Content(c) => c,
        }
    }
}

/// Why a value could not be made into a term item.
#[derive(Clone, Copy, Debug, PartialEq, Eq, Structural)]
pub enum CastError {
    /// An array did not have exactly two entries.
    Shape,
    /// Content was given that is not a term item.
    Type,
}

impl CastError {
    /// The message shown to the user.
    pub open spec fn spec_message(self) -> Seq<char> {
        match self {
            CastError::Shape => "array must contain exactly two entries"@,
            CastError::Type => "expected term item or array"@,
        }
    }

    /// The message shown to the user.
    pub fn message(self) -> (r: String)
        ensures
            r@ == self.spec_message(),
    {
        match self {
            CastError::Shape => "array must contain exactly two entries".to_owned(),
            CastError::Type => "expected term item or array".to_owned(),
        }
    }
}

impl TermItem {
    /// An item of a term and its description.
    pub fn new(term: Content, description: Content) -> (r: TermItem)
        ensures
            r@ == (TermItemView { term: term@, description: description@ }),
    {
        TermItem { term, description }
    }

    /// An item from the shorthand of a two-entry array: the first entry is
    /// the term, the second the description. Any other number of entries is
    /// a shape error.
    pub fn from_array(array: Vec<Value>) -> (r: Result<TermItem, CastError>)
        ensures
            match r {
                Ok(item) => array@.len() == 2 && item@ == (TermItemView {
                    term: array@[0]@.into_content(),
                    description: array@[1]@.into_content(),
                }),
                Err(e) => array@.len() != 2 && e == CastError::Shape,
            },
    {
        let mut array = array;
        if array.len() != 2 {
            return Err(CastError::Shape);
        }
        let second = array.pop().unwrap();
        let first = array.pop().unwrap();
        Ok(TermItem::new(first.into_content(), second.into_content()))
    }

    /// An item from content: content that is a term item gives that item,
    /// any other content is a type error.
    pub fn from_content(content: Content) -> (r: Result<TermItem, CastError>)
        ensures
            match r {
                Ok(item) => content@.elem == ElemView::Item(Box::new(item@)),
                Err(e) => !(content@.elem is Item) && e == CastError::Type,
            },
    {
        match content.elem {
            Elem::Item(item) => Ok(*item),
            _ => Err(CastError::Type),
        }
    }
}

impl ListItemLike for TermItem {
    open spec fn styled_view(item: TermItemView, styles: Seq<PropertyView>) -> TermItemView {
        item.styled(styles)
    }

    /// Applies `styles` to the term and to the description, each on its
    /// own.
    fn styled(item: TermItem, styles: Styles) -> (r: TermItem)
        ensures
            r@ == item@.styled(styles@),
    {
        let mut item = item;
        item.term.style_in_place(styles.clone());
        item.description.style_in_place(styles);
        item
    }
}

impl TermItemView {
    /// This item with `styles` on the term and on the description.
    pub open spec fn styled(self, styles: Seq<PropertyView>) -> TermItemView {
        TermItemView { term: self.term.styled(styles), description: self.description.styled(styles) }
    }
}

} // verus!
