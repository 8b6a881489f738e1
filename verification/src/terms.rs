//! Term lists and the rule that renders them.
//!
//! A list is rendered in one of two ways, chosen by the output target of the
//! style context. For semantic markup it becomes a definition list of term
//! labels and term values. Otherwise it becomes a padded stack of blocks, one
//! per item, with hanging indent and the configured gap between them.

use crate::content::{content_view, seq_view, Content, ContentView, Span, Tag};
use crate::geometry::{with_side, Dir, Sides};
use crate::item::{items_view, TermItem, TermItemView};
use crate::length::{Length, Smart};
use crate::list::ListLike;
use crate::style::{Property, PropertyView, StyleChain, StyleChainView, Styles};
use vstd::prelude::*;

verus! {

/// A list of terms and their descriptions.
///
/// Each of the five settings is either set on the list itself or left to the
/// style cascade, which falls back to a default. Whether rendering happens
/// within another term list is not a setting of the list: it is the `Within`
/// property of the style context, which rendering sets on what it produces.
#[derive(Debug, PartialEq, Eq)]
pub struct TermsElem {
    /// Whether items are spaced by paragraph leading rather than by
    /// paragraph spacing.
    pub tight: Option<bool>,
    /// What stands between a term and its description.
    pub separator: Option<Content>,
    /// The indent of each item.
    pub indent: Option<Length>,
    /// The indent of the lines of a description after the first, on top of
    /// `indent`.
    pub hanging_indent: Option<Length>,
    /// The gap between items; automatic means leading or paragraph spacing.
    pub spacing: Option<Smart<Length>>,
    /// The items, in order.
    pub children: Vec<TermItem>,
    /// Where the list stands in the source.
    pub span: Span,
}

/// The view of [`TermsElem`].
pub struct TermsView {
    pub tight: Option<bool>,
    pub separator: Option<ContentView>,
    pub indent: Option<Length>,
    pub hanging_indent: Option<Length>,
    pub spacing: Option<Smart<Length>>,
    pub children: Seq<TermItemView>,
    pub span: Span,
}

impl View for TermsElem {
    type V = TermsView;

    open spec fn view(&self) -> TermsView {
        TermsView {
            tight: self.tight,
            separator: match self.separator {
                Some(c) => Some(c@),
                None => None,
            },
            indent: self.indent,
            hanging_indent: self.hanging_indent,
            spacing: self.spacing,
            children: items_view(self.children@),
            span: self.span,
        }
    }
}

/// The settings of a term list as they are in force for one rendering.
#[derive(Debug, PartialEq, Eq)]
pub struct Config {
    pub tight: bool,
    pub separator: Content,
    pub indent: Length,
    pub hanging_indent: Length,
    /// The gap between items.
    pub gutter: Length,
    /// The direction of text, which decides the padded side.
    pub dir: Dir,
}

/// The view of [`Config`].
pub struct ConfigView {
    pub tight: bool,
    pub separator: ContentView,
    pub indent: Length,
    pub hanging_indent: Length,
    pub gutter: Length,
    pub dir: Dir,
}

impl View for Config {
    type V = ConfigView;

    open spec fn view(&self) -> ConfigView {
        ConfigView {
            tight: self.tight,
            separator: self.separator@,
            indent: self.indent,
            hanging_indent: self.hanging_indent,
            gutter: self.gutter,
            dir: self.dir,
        }
    }
}

impl ConfigView {
    /// The padding at the start edge: hanging indent plus indent.
    pub open spec fn pad(self) -> Length {
        self.hanging_indent.plus(self.indent)
    }

    /// The padding of the stack: `pad` on the side where text starts.
    pub open spec fn padding(self) -> Sides {
        Sides::spec_zero().spec_with(self.dir.start(), self.pad())
    }
}

/// The label and the value that one item becomes in markup output. The
/// description of a wide list is followed by a paragraph break, so that its
/// text forms a paragraph. Each node takes the span of what it wraps.
pub open spec fn markup_pair(item: TermItemView, tight: bool) -> Seq<ContentView> {
    let description = if tight {
        item.description
    } else {
        item.description.join(ContentView::parbreak())
    };
    seq![
        ContentView::html(Tag::Dt, Some(item.term)).spanned(item.term.span),
        ContentView::html(Tag::Dd, Some(description)).spanned(item.description.span),
    ]
}

/// The children of the definition list: for every item in order, its label
/// and then its value.
pub open spec fn markup_body(items: Seq<TermItemView>, tight: bool) -> Seq<ContentView> {
    Seq::new(2 * items.len(), |k: int| markup_pair(items[k / 2], tight)[k % 2])
}

/// The definition list that the items become in markup output.
pub open spec fn markup(items: Seq<TermItemView>, tight: bool) -> ContentView {
    ContentView::html(Tag::Dl, Some(ContentView::sequence(markup_body(items, tight))))
}

/// The horizontal shift by the negated hanging indent, which lets the
/// first line of an item start at the indent.
pub open spec fn shift(hanging_indent: Length, span: Span) -> ContentView {
    ContentView::hspace(hanging_indent.negated(), false).spanned(span)
}

/// What undoes the hanging indent on the first line of an item: the shift,
/// or nothing when the hanging indent is zero.
pub open spec fn unpad(hanging_indent: Length, span: Span) -> Seq<ContentView> {
    if hanging_indent.is_zero() {
        Seq::empty()
    } else {
        seq![shift(hanging_indent, span)]
    }
}

/// The term, the separator and the description of one item.
pub open spec fn item_core(item: TermItemView, config: ConfigView) -> Seq<ContentView> {
    seq![item.term.strong(), config.separator, item.description]
}

/// The paragraph break that ends each item of a wide list.
pub open spec fn item_end(tight: bool) -> Seq<ContentView> {
    if tight {
        Seq::empty()
    } else {
        seq![ContentView::parbreak()]
    }
}

/// What is laid out for one item, in order.
pub open spec fn item_parts(item: TermItemView, config: ConfigView, span: Span) -> Seq<ContentView> {
    unpad(config.hanging_indent, span) + item_core(item, config) + item_end(config.tight)
}

/// The block that one item becomes.
pub open spec fn item_block(item: TermItemView, config: ConfigView, span: Span) -> ContentView {
    ContentView::sequence(item_parts(item, config, span))
}

/// The blocks of all items, in order.
pub open spec fn item_blocks(items: Seq<TermItemView>, config: ConfigView, span: Span) -> Seq<
    ContentView,
> {
    Seq::new(items.len(), |i: int| item_block(items[i], config, span))
}

/// The stack of the item blocks, padded at the start edge and marked as
/// lying within a term list.
pub open spec fn realized(items: Seq<TermItemView>, config: ConfigView, span: Span) -> ContentView {
    ContentView::stack(item_blocks(items, config, span), Some(config.gutter)).spanned(span).padded(
        config.padding(),
    ).styled(seq![PropertyView::Within(true)])
}

/// What the items become when laid out: the realized stack, after a weak
/// attaching gap if the list is tight. That gap has the size of the gutter,
/// which for a tight list is the spacing or, where the spacing is automatic,
/// the paragraph leading; so it can merge with the space that a paragraph
/// before the list leaves.
pub open spec fn layout(items: Seq<TermItemView>, config: ConfigView, span: Span) -> ContentView {
    if config.tight {
        ContentView::vspace(config.gutter, true, true).spanned(span).join(
            realized(items, config, span),
        )
    } else {
        realized(items, config, span)
    }
}

impl TermsView {
    /// Whether the list is tight under `styles`.
    pub open spec fn tight_in(self, styles: StyleChainView) -> bool {
        match self.tight {
            Some(v) => v,
            None => styles.tight(),
        }
    }

    /// The separator under `styles`.
    pub open spec fn separator_in(self, styles: StyleChainView) -> ContentView {
        match self.separator {
            Some(v) => v,
            None => styles.separator(),
        }
    }

    /// The indent under `styles`.
    pub open spec fn indent_in(self, styles: StyleChainView) -> Length {
        match self.indent {
            Some(v) => v,
            None => styles.indent(),
        }
    }

    /// The hanging indent under `styles`.
    pub open spec fn hanging_indent_in(self, styles: StyleChainView) -> Length {
        match self.hanging_indent {
            Some(v) => v,
            None => styles.hanging_indent(),
        }
    }

    /// The spacing under `styles`, which may be automatic.
    pub open spec fn spacing_in(self, styles: StyleChainView) -> Smart<Length> {
        match self.spacing {
            Some(v) => v,
            None => styles.spacing(),
        }
    }

    /// The gap between items under `styles`: the spacing, or when that is
    /// automatic the paragraph leading for a tight list and the paragraph
    /// spacing for a wide one.
    pub open spec fn gutter_in(self, styles: StyleChainView) -> Length {
        self.spacing_in(styles).unwrap_or(
            if self.tight_in(styles) {
                styles.leading()
            } else {
                styles.par_spacing()
            },
        )
    }

    /// The settings in force under `styles`.
    pub open spec fn config(self, styles: StyleChainView) -> ConfigView {
        ConfigView {
            tight: self.tight_in(styles),
            separator: self.separator_in(styles),
            indent: self.indent_in(styles),
            hanging_indent: self.hanging_indent_in(styles),
            gutter: self.gutter_in(styles),
            dir: styles.text_dir(),
        }
    }

    /// What the list is rendered to under `styles`.
    pub open spec fn show(self, styles: StyleChainView) -> ContentView {
        if styles.target().is_html() {
            markup(self.children, self.tight_in(styles))
        } else {
            layout(self.children, self.config(styles), self.span)
        }
    }
}

impl TermsElem {
    /// A list of the given items with nothing set.
    pub fn new(children: Vec<TermItem>) -> (r: TermsElem)
        ensures
            r@ == (TermsView {
                tight: None,
                separator: None,
                indent: None,
                hanging_indent: None,
                spacing: None,
                children: items_view(children@),
                span: Span::detached(),
            }),
    {
        TermsElem {
            tight: None,
            separator: None,
            indent: None,
            hanging_indent: None,
            spacing: None,
            children,
            span: Span::detached(),
        }
    }

    /// This list with its tightness set.
    pub fn with_tight(self, tight: bool) -> (r: TermsElem)
        ensures
            r@ == (TermsView { tight: Some(tight), ..self@ }),
    {
        let mut out = self;
        out.tight = Some(tight);
        out
    }

    /// This list with its separator set.
    pub fn with_separator(self, separator: Content) -> (r: TermsElem)
        ensures
            r@ == (TermsView { separator: Some(separator@), ..self@ }),
    {
        let mut out = self;
        out.separator = Some(separator);
        out
    }

    /// This list with its indent set.
    pub fn with_indent(self, indent: Length) -> (r: TermsElem)
        ensures
            r@ == (TermsView { indent: Some(indent), ..self@ }),
    {
        let mut out = self;
        out.indent = Some(indent);
        out
    }

    /// This list with its hanging indent set.
    pub fn with_hanging_indent(self, hanging_indent: Length) -> (r: TermsElem)
        ensures
            r@ == (TermsView { hanging_indent: Some(hanging_indent), ..self@ }),
    {
        let mut out = self;
        out.hanging_indent = Some(hanging_indent);
        out
    }

    /// This list with its spacing set.
    pub fn with_spacing(self, spacing: Smart<Length>) -> (r: TermsElem)
        ensures
            r@ == (TermsView { spacing: Some(spacing), ..self@ }),
    {
        let mut out = self;
        out.spacing = Some(spacing);
        out
    }

    /// This list at the given place in the source.
    pub fn spanned(self, span: Span) -> (r: TermsElem)
        ensures
            r@ == (TermsView { span, ..self@ }),
    {
        let mut out = self;
        out.span = span;
        out
    }

    /// Whether the list is tight under `styles`.
    pub fn tight_in(&self, styles: &StyleChain) -> (r: bool)
        ensures
            r == self@.tight_in(styles@),
    {
        match self.tight {
            Some(v) => v,
            None => styles.tight(),
        }
    }

    /// The settings in force under `styles`.
    pub fn config(&self, styles: &StyleChain) -> (r: Config)
        ensures
            r@ == self@.config(styles@),
    {
        let tight = self.tight_in(styles);
        let separator = match &self.separator {
            Some(v) => v.clone(),
            None => styles.separator(),
        };
        let indent = match self.indent {
            Some(v) => v,
            None => styles.indent(),
        };
        let hanging_indent = match self.hanging_indent {
            Some(v) => v,
            None => styles.hanging_indent(),
        };
        let spacing = match self.spacing {
            Some(v) => v,
            None => styles.spacing(),
        };
        let gutter = match spacing {
            Smart::Custom(v) => v,
            Smart::Auto => if tight {
                styles.leading()
            } else {
                styles.par_spacing()
            },
        };
        Config { tight, separator, indent, hanging_indent, gutter, dir: styles.text_dir() }
    }

    /// Renders the list under `styles`: as a definition list where the
    /// target is semantic markup, else as a padded stack of blocks.
    pub fn show(&self, styles: &StyleChain) -> (out: Content)
        ensures
            out@ == self@.show(styles@),
    {
        if styles.target().is_html() {
            render_markup(&self.children, self.tight_in(styles))
        } else {
            let config = self.config(styles);
            render_layout(&self.children, &config, self.span)
        }
    }
}

impl ListLike for TermsElem {
    type Item = TermItem;

    open spec fn created_view(children: Seq<TermItemView>, tight: bool) -> TermsView {
        TermsView {
            tight: Some(tight),
            separator: None,
            indent: None,
            hanging_indent: None,
            spacing: None,
            children,
            span: Span::detached(),
        }
    }

    /// A list of the given items with its tightness set and nothing else.
    fn create(children: Vec<TermItem>, tight: bool) -> (r: TermsElem)
        ensures
            r@ == Self::created_view(items_view(children@), tight),
    {
        assert(items_view(children@) =~= Seq::new(children@.len(), |i: int| children@[i]@));
        TermsElem::new(children).with_tight(tight)
    }
}

/// Renders items as a definition list: a label and a value for every item,
/// in order.
pub fn render_markup(items: &Vec<TermItem>, tight: bool) -> (out: Content)
    ensures
        out@ == markup(items_view(items@), tight),
{
    let ghost views = items_view(items@);
    let mut body: Vec<Content> = Vec::new();
    let mut i: usize = 0;
    while i < items.len()
        invariant
            i <= items.len(),
            views == items_view(items@),
            body@.len() == 2 * i,
            forall|k: int|
                0 <= k < 2 * i ==> content_view(#[trigger] body@[k]) == markup_pair(
                    views[k / 2],
                    tight,
                )[k % 2],
        decreases items.len() - i,
    {
        let item = &items[i];
        let mut description = item.description.clone();
        if !tight {
            description = description.join(Content::parbreak());
        }
        let label = Content::html(Tag::Dt, Some(item.term.clone())).spanned(item.term.span());
        let value = Content::html(Tag::Dd, Some(description)).spanned(item.description.span());
        body.push(label);
        body.push(value);
        i += 1;
    }
    assert(seq_view(body@) =~= markup_body(views, tight));
    Content::html(Tag::Dl, Some(Content::sequence(body)))
}

/// Renders one item as a block for the stack.
pub fn render_block(item: &TermItem, config: &Config, span: Span) -> (out: Content)
    ensures
        out@ == item_block(item@, config@, span),
{
    let mut parts: Vec<Content> = Vec::new();
    if !config.hanging_indent.is_zero() {
        parts.push(Content::hspace(config.hanging_indent.negated(), false).spanned(span));
    }
    parts.push(item.term.clone().strong());
    parts.push(config.separator.clone());
    parts.push(item.description.clone());
    if !config.tight {
        parts.push(Content::parbreak());
    }
    assert(seq_view(parts@) =~= item_parts(item@, config@, span));
    Content::sequence(parts)
}

/// Renders items as a padded stack of blocks, one block per item in order.
pub fn render_layout(items: &Vec<TermItem>, config: &Config, span: Span) -> (out: Content)
    ensures
        out@ == layout(items_view(items@), config@, span),
{
    let ghost views = items_view(items@);
    let pad = config.hanging_indent.plus(config.indent);
    let mut blocks: Vec<Content> = Vec::new();
    let mut i: usize = 0;
    while i < items.len()
        invariant
            i <= items.len(),
            views == items_view(items@),
            blocks@.len() == i,
            forall|k: int|
                0 <= k < i ==> content_view(#[trigger] blocks@[k]) == item_block(
                    views[k],
                    config@,
                    span,
                ),
        decreases items.len() - i,
    {
        let block = render_block(&items[i], config, span);
        blocks.push(block);
        i += 1;
    }
    assert(seq_view(blocks@) =~= item_blocks(views, config@, span));
    let padding = with_side(Sides::default(), config.dir.start(), pad);
    let realized = Content::stack(blocks, Some(config.gutter)).spanned(span).padded(padding).styled(
        Styles::one(Property::Within(true)),
    );
    if config.tight {
        Content::vspace(config.gutter, true, true).spanned(span).join(realized)
    } else {
        realized
    }
}

} // verus!
