//! The content tree and its combinators.
//!
//! Content is the value that rendering rules hand to one another: a tree of
//! elements, each with the span of source it came from. Executable content
//! holds vectors and strings; its view is the same tree over sequences, and
//! every combinator is specified by the function of the same name on views.

use crate::geometry::Sides;
use crate::length::Length;
use crate::style::{props_view, PropertyView, Styles};
use crate::item::{item_view, TermItem, TermItemView};
use vstd::prelude::*;

verus! {

/// Where a piece of content came from in the source; zero when unknown.
#[derive(Clone, Copy, Debug, PartialEq, Eq, Structural)]
pub struct Span(pub u64);

impl Span {
    /// The span of content that has no place in the source.
    pub open spec fn spec_detached() -> Span {
        Span(0)
    }

    /// Whether this is the detached span.
    pub open spec fn spec_is_detached(self) -> bool {
        self.0 == 0
    }

    #[verifier::when_used_as_spec(spec_detached)]
    pub fn detached() -> (r: Span)
        ensures
            r == Span::spec_detached(),
    {
        Span(0)
    }

    #[verifier::when_used_as_spec(spec_is_detached)]
    pub fn is_detached(self) -> (r: bool)
        ensures
            r == self.spec_is_detached(),
    {
        self.0 == 0
    }
}

/// The tags of a definition list in markup output.
#[derive(Clone, Copy, Debug, PartialEq, Eq, Structural)]
pub enum Tag {
    /// The list itself.
    Dl,
    /// A term label.
    Dt,
    /// A term value.
    Dd,
}

/// A node of the content tree together with its source span.
#[derive(Debug, PartialEq, Eq)]
pub struct Content {
    pub elem: Elem,
    pub span: Span,
}

/// The kinds of content.
#[derive(Debug, PartialEq, Eq)]
pub enum Elem {
    /// A run of text.
    Text(String),
    /// Several pieces of content, one after the other.
    Sequence(Vec<Content>),
    /// Strongly emphasized content.
    Strong(Box<Content>),
    /// Content under a list of style properties.
    Styled(Box<Content>, Styles),
    /// A paragraph break.
    Parbreak,
    /// Horizontal spacing.
    HSpace { amount: Length, weak: bool },
    /// Vertical spacing.
    VSpace { amount: Length, weak: bool, attach: bool },
    /// Blocks stacked along the block axis with a gap between them.
    Stack { blocks: Vec<Content>, spacing: Option<Length> },
    /// Content with padding on its sides.
    Pad { sides: Sides, child: Box<Content> },
    /// A tagged container of markup output.
    Html { tag: Tag, body: Option<Box<Content>> },
    /// A term list item.
    Item(Box<TermItem>),
}

/// The view of [`Content`].
pub struct ContentView {
    pub elem: ElemView,
    pub span: Span,
}

/// The view of [`Elem`].
pub enum ElemView {
    Text(Seq<char>),
    Sequence(Seq<ContentView>),
    Strong(Box<ContentView>),
    Styled(Box<ContentView>, Seq<PropertyView>),
    Parbreak,
    HSpace { amount: Length, weak: bool },
    VSpace { amount: Length, weak: bool, attach: bool },
    Stack { blocks: Seq<ContentView>, spacing: Option<Length> },
    Pad { sides: Sides, child: Box<ContentView> },
    Html { tag: Tag, body: Option<Box<ContentView>> },
    Item(Box<TermItemView>),
}

/// The view of one piece of content.
pub open spec fn content_view(c: Content) -> ContentView
    decreases c,
{
    ContentView { elem: elem_view(c.elem), span: c.span }
}

/// The views of a sequence of contents, in order.
pub open spec fn seq_view(s: Seq<Content>) -> Seq<ContentView>
    decreases s,
{
    Seq::new(s.len(), |i: int| if 0 <= i < s.len() { content_view(s[i]) } else { arbitrary() })
}

/// The view of one element.
pub open spec fn elem_view(e: Elem) -> ElemView
    decreases e,
{
    match e {
        Elem::Text(s) => ElemView::Text(s@),
        Elem::Sequence(v) => ElemView::Sequence(seq_view(v@)),
        Elem::Strong(b) => ElemView::Strong(Box::new(content_view(*b))),
        Elem::Styled(b, s) => ElemView::Styled(Box::new(content_view(*b)), props_view(s.entries@)),
        Elem::Parbreak => ElemView::Parbreak,
        Elem::HSpace { amount, weak } => ElemView::HSpace { amount, weak },
        Elem::VSpace { amount, weak, attach } => ElemView::VSpace { amount, weak, attach },
        Elem::Stack { blocks, spacing } => ElemView::Stack { blocks: seq_view(blocks@), spacing },
        Elem::Pad { sides, child } => ElemView::Pad { sides, child: Box::new(content_view(*child)) },
        Elem::Html { tag, body } => ElemView::Html {
            tag,
            body: match body {
                Some(b) => Some(Box::new(content_view(*b))),
                None => None,
            },
        },
        Elem::Item(item) => ElemView::Item(Box::new(item_view(*item))),
    }
}

impl View for Content {
    type V = ContentView;

    open spec fn view(&self) -> ContentView {
        content_view(*self)
    }
}

impl View for Elem {
    type V = ElemView;

    open spec fn view(&self) -> ElemView {
        elem_view(*self)
    }
}

impl ContentView {
    /// An element that has no place in the source yet.
    pub open spec fn detached(elem: ElemView) -> ContentView {
        ContentView { elem, span: Span::detached() }
    }

    /// A run of text.
    pub open spec fn text(chars: Seq<char>) -> ContentView {
        ContentView::detached(ElemView::Text(chars))
    }

    /// The sequence of nothing.
    pub open spec fn empty() -> ContentView {
        ContentView::detached(ElemView::Sequence(Seq::empty()))
    }

    /// A paragraph break.
    pub open spec fn parbreak() -> ContentView {
        ContentView::detached(ElemView::Parbreak)
    }

    /// Horizontal spacing.
    pub open spec fn hspace(amount: Length, weak: bool) -> ContentView {
        ContentView::detached(ElemView::HSpace { amount, weak })
    }

    /// Vertical spacing.
    pub open spec fn vspace(amount: Length, weak: bool, attach: bool) -> ContentView {
        ContentView::detached(ElemView::VSpace { amount, weak, attach })
    }

    /// Blocks stacked with a gap between them.
    pub open spec fn stack(blocks: Seq<ContentView>, spacing: Option<Length>) -> ContentView {
        ContentView::detached(ElemView::Stack { blocks, spacing })
    }

    /// A tagged container of markup output.
    pub open spec fn html(tag: Tag, body: Option<ContentView>) -> ContentView {
        ContentView::detached(
            ElemView::Html {
                tag,
                body: match body {
                    Some(b) => Some(Box::new(b)),
                    None => None,
                },
            },
        )
    }

    /// An item as a piece of content.
    pub open spec fn item(item: TermItemView) -> ContentView {
        ContentView::detached(ElemView::Item(Box::new(item)))
    }

    /// Several contents as one: a single content stands for itself, any
    /// other number becomes a sequence element.
    pub open spec fn sequence(items: Seq<ContentView>) -> ContentView {
        if items.len() == 1 {
            items[0]
        } else {
            ContentView::detached(ElemView::Sequence(items))
        }
    }

    /// This content with `span`, unless it has a span already.
    pub open spec fn spanned(self, span: Span) -> ContentView {
        if self.span.is_detached() {
            ContentView { elem: self.elem, span }
        } else {
            self
        }
    }

    /// This content strongly emphasized; the span carries over.
    pub open spec fn strong(self) -> ContentView {
        ContentView { elem: ElemView::Strong(Box::new(self)), span: self.span }
    }

    /// What this content contributes to a sequence: its children if it is a
    /// sequence itself, else the content alone.
    pub open spec fn pieces(self) -> Seq<ContentView> {
        match self.elem {
            ElemView::Sequence(children) => children,
            _ => seq![self],
        }
    }

    /// This content followed by `rhs`: a sequence of the pieces of both. It
    /// keeps the span of the first side that was a sequence already.
    pub open spec fn join(self, rhs: ContentView) -> ContentView {
        ContentView {
            elem: ElemView::Sequence(self.pieces() + rhs.pieces()),
            span: if self.elem is Sequence {
                self.span
            } else if rhs.elem is Sequence {
                rhs.span
            } else {
                Span::detached()
            },
        }
    }

    /// This content under `styles`. No styles change nothing; styles on
    /// styled content go in front of those already there; other content is
    /// wrapped.
    pub open spec fn styled(self, styles: Seq<PropertyView>) -> ContentView {
        if styles.len() == 0 {
            self
        } else {
            match self.elem {
                ElemView::Styled(body, inner) => ContentView {
                    elem: ElemView::Styled(body, styles + inner),
                    span: self.span,
                },
                _ => ContentView::detached(ElemView::Styled(Box::new(self), styles)),
            }
        }
    }

    /// This content with padding around it.
    pub open spec fn padded(self, sides: Sides) -> ContentView {
        ContentView::detached(ElemView::Pad { sides, child: Box::new(self) })
    }
}

impl Content {
    /// The span of this content.
    pub fn span(&self) -> (r: Span)
        ensures
            r == self@.span,
    {
        self.span
    }

    /// A run of text.
    pub fn text(s: &str) -> (r: Content)
        ensures
            r@ == ContentView::text(s@),
    {
        Content { elem: Elem::Text(s.to_owned()), span: Span::detached() }
    }

    /// The sequence of nothing.
    pub fn empty() -> (r: Content)
        ensures
            r@ == ContentView::empty(),
    {
        let r = Content { elem: Elem::Sequence(Vec::new()), span: Span::detached() };
        assert(seq_view(Seq::<Content>::empty()) =~= Seq::<ContentView>::empty());
        r
    }

    /// A paragraph break.
    pub fn parbreak() -> (r: Content)
        ensures
            r@ == ContentView::parbreak(),
    {
        Content { elem: Elem::Parbreak, span: Span::detached() }
    }

    /// Horizontal spacing.
    pub fn hspace(amount: Length, weak: bool) -> (r: Content)
        ensures
            r@ == ContentView::hspace(amount, weak),
    {
        Content { elem: Elem::HSpace { amount, weak }, span: Span::detached() }
    }

    /// Vertical spacing.
    pub fn vspace(amount: Length, weak: bool, attach: bool) -> (r: Content)
        ensures
            r@ == ContentView::vspace(amount, weak, attach),
    {
        Content { elem: Elem::VSpace { amount, weak, attach }, span: Span::detached() }
    }

    /// Blocks stacked with a gap between them.
    pub fn stack(blocks: Vec<Content>, spacing: Option<Length>) -> (r: Content)
        ensures
            r@ == ContentView::stack(seq_view(blocks@), spacing),
    {
        Content { elem: Elem::Stack { blocks, spacing }, span: Span::detached() }
    }

    /// A tagged container of markup output.
    pub fn html(tag: Tag, body: Option<Content>) -> (r: Content)
        ensures
            r@ == ContentView::html(
                tag,
                match body {
                    Some(b) => Some(b@),
                    None => None,
                },
            ),
    {
        let body = match body {
            Some(b) => Some(Box::new(b)),
            None => None,
        };
        Content { elem: Elem::Html { tag, body }, span: Span::detached() }
    }

    /// An item as a piece of content.
    pub fn item(item: TermItem) -> (r: Content)
        ensures
            r@ == ContentView::item(item@),
    {
        Content { elem: Elem::Item(Box::new(item)), span: Span::detached() }
    }

    /// Several contents as one.
    pub fn sequence(items: Vec<Content>) -> (r: Content)
        ensures
            r@ == ContentView::sequence(seq_view(items@)),
    {
        let mut items = items;
        if items.len() == 1 {
            items.pop().unwrap()
        } else {
            Content { elem: Elem::Sequence(items), span: Span::detached() }
        }
    }

    /// This content with `span`, unless it has a span already.
    pub fn spanned(self, span: Span) -> (r: Content)
        ensures
            r@ == self@.spanned(span),
    {
        if self.span.is_detached() {
            Content { elem: self.elem, span }
        } else {
            self
        }
    }

    /// This content strongly emphasized.
    pub fn strong(self) -> (r: Content)
        ensures
            r@ == self@.strong(),
    {
        let span = self.span;
        Content { elem: Elem::Strong(Box::new(self)), span }
    }

    /// This content followed by `rhs`.
    pub fn join(self, rhs: Content) -> (r: Content)
        ensures
            r@ == self@.join(rhs@),
    {
        let Content { elem: left, span: left_span } = self;
        let Content { elem: right, span: right_span } = rhs;
        match (left, right) {
            (Elem::Sequence(mut a), Elem::Sequence(mut b)) => {
                assert(seq_view(a@ + b@) =~= seq_view(a@) + seq_view(b@));
                a.append(&mut b);
                Content { elem: Elem::Sequence(a), span: left_span }
            },
            (Elem::Sequence(mut a), right) => {
                let tail = Content { elem: right, span: right_span };
                assert(seq_view(a@.push(tail)) =~= seq_view(a@) + seq![tail@]);
                a.push(tail);
                Content { elem: Elem::Sequence(a), span: left_span }
            },
            (left, Elem::Sequence(mut b)) => {
                let head = Content { elem: left, span: left_span };
                assert(seq_view(b@.insert(0, head)) =~= seq![head@] + seq_view(b@));
                b.insert(0, head);
                Content { elem: Elem::Sequence(b), span: right_span }
            },
            (left, right) => {
                let head = Content { elem: left, span: left_span };
                let tail = Content { elem: right, span: right_span };
                assert(seq_view(seq![head, tail]) =~= seq![head@] + seq![tail@]);
                let mut both: Vec<Content> = Vec::new();
                both.push(head);
                both.push(tail);
                assert(both@ =~= seq![head, tail]);
                Content { elem: Elem::Sequence(both), span: Span::detached() }
            },
        }
    }

    /// This content under `styles`.
    pub fn styled(self, styles: Styles) -> (r: Content)
        ensures
            r@ == self@.styled(styles@),
    {
        if styles.entries.len() == 0 {
            return self;
        }
        let Content { elem, span } = self;
        match elem {
            Elem::Styled(body, inner) => {
                let mut outer = styles.entries;
                let mut rest = inner.entries;
                assert(props_view(outer@ + rest@) =~= props_view(outer@) + props_view(rest@));
                outer.append(&mut rest);
                Content { elem: Elem::Styled(body, Styles { entries: outer }), span }
            },
            other => Content {
                elem: Elem::Styled(Box::new(Content { elem: other, span }), styles),
                span: Span::detached(),
            },
        }
    }

    /// Puts this content under `styles`, in place.
    pub fn style_in_place(&mut self, styles: Styles)
        ensures
            final(self)@ == old(self)@.styled(styles@),
    {
        let mut taken = Content::empty();
        std::mem::swap(self, &mut taken);
        *self = taken.styled(styles);
    }

    /// This content with padding around it.
    pub fn padded(self, sides: Sides) -> (r: Content)
        ensures
            r@ == self@.padded(sides),
    {
        Content { elem: Elem::Pad { sides, child: Box::new(self) }, span: Span::detached() }
    }
}

impl Clone for Content {
    fn clone(&self) -> (r: Content)
        ensures
            r@ == self@,
        decreases self,
    {
        Content { elem: self.elem.clone(), span: self.span }
    }
}

impl Clone for Elem {
    fn clone(&self) -> (r: Elem)
        ensures
            r@ == self@,
        decreases self,
    {
        match self {
            Elem::Text(s) => Elem::Text(s.clone()),
            Elem::Sequence(v) => Elem::Sequence(clone_contents(v)),
            Elem::Strong(b) => Elem::Strong(Box::new((**b).clone())),
            Elem::Styled(b, s) => Elem::Styled(Box::new((**b).clone()), s.clone()),
            Elem::Parbreak => Elem::Parbreak,
            Elem::HSpace { amount, weak } => Elem::HSpace { amount: *amount, weak: *weak },
            Elem::VSpace { amount, weak, attach } => Elem::VSpace {
                amount: *amount,
                weak: *weak,
                attach: *attach,
            },
            Elem::Stack { blocks, spacing } => Elem::Stack {
                blocks: clone_contents(blocks),
                spacing: *spacing,
            },
            Elem::Pad { sides, child } => Elem::Pad {
                sides: *sides,
                child: Box::new((**child).clone()),
            },
            Elem::Html { tag, body } => Elem::Html {
                tag: *tag,
                body: match body {
                    Some(b) => Some(Box::new((**b).clone())),
                    None => None,
                },
            },
            Elem::Item(item) => Elem::Item(Box::new((**item).clone())),
        }
    }
}

/// Copies a list of contents.
pub fn clone_contents(v: &Vec<Content>) -> (r: Vec<Content>)
    ensures
        seq_view(r@) == seq_view(v@),
    decreases v,
{
    let mut out: Vec<Content> = Vec::new();
    let mut i: usize = 0;
    while i < v.len()
        invariant
            i <= v.len(),
            out.len() == i,
            forall|j: int| 0 <= j < i ==> content_view(out@[j]) == content_view(v@[j]),
        decreases v.len() - i,
    {
        out.push(v[i].clone());
        i += 1;
    }
    out
}

} // verus!
