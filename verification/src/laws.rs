//! What holds of every rendering of a term list.

use crate::content::{ContentView, ElemView, Span, Tag};
use crate::geometry::{Dir, Side, Sides};
use crate::item::TermItemView;
use crate::length::{Length, Smart};
use crate::style::{
    lemma_nearest, Field, PropertyView, StyleChainView, Target, DEFAULT_HANGING_INDENT_EM,
    DEFAULT_LEADING_EM, DEFAULT_SEPARATOR_EM,
};
use crate::terms::{
    item_block, item_blocks, item_core, item_end, item_parts, layout, markup, markup_body,
    markup_pair, realized, shift, unpad, ConfigView, TermsView,
};
use vstd::prelude::*;

verus! {

/// The part of a laid-out list that holds the stack: for a tight list the
/// piece after the leading gap, for a wide list the whole output.
pub open spec fn laid_out_body(out: ContentView, tight: bool) -> ContentView {
    if tight {
        out.elem->Sequence_0[1]
    } else {
        out
    }
}

/// The padding element of a laid-out list.
pub open spec fn laid_out_pad(out: ContentView, tight: bool) -> ContentView {
    *laid_out_body(out, tight).elem->Styled_0
}

/// The stack element of a laid-out list.
pub open spec fn laid_out_stack(out: ContentView, tight: bool) -> ContentView {
    *laid_out_pad(out, tight).elem->child
}

/// The blocks of the stack that a list is laid out to.
pub open spec fn laid_out_blocks(node: TermsView, styles: StyleChainView) -> Seq<ContentView> {
    laid_out_stack(node.show(styles), node.tight_in(styles)).elem->blocks
}

/// The children of the definition list that a list is rendered to.
pub open spec fn markup_children(out: ContentView) -> Seq<ContentView> {
    out.elem->body->0.elem->Sequence_0
}

/// The body of the value that an item becomes in markup output.
pub open spec fn markup_value_body(item: TermItemView, tight: bool) -> ContentView {
    *markup_pair(item, tight)[1].elem->body->0
}

/// A laid-out list is a stack inside padding inside the `Within` mark, and
/// a tight one has exactly one thing in front of that: a weak, attaching
/// vertical gap of the size of the gutter.
pub proof fn lemma_layout_shape(items: Seq<TermItemView>, config: ConfigView, span: Span)
    ensures
        ({
            let out = layout(items, config, span);
            let body = laid_out_body(out, config.tight);
            let pad = laid_out_pad(out, config.tight);
            let stack = laid_out_stack(out, config.tight);
            &&& config.tight ==> out.elem is Sequence && out.elem->Sequence_0.len() == 2
                && out.elem->Sequence_0[0] == (ContentView {
                elem: ElemView::VSpace { amount: config.gutter, weak: true, attach: true },
                span,
            })
            &&& body == realized(items, config, span)
            &&& body.elem is Styled
            &&& body.elem->Styled_1 == seq![PropertyView::Within(true)]
            &&& pad.elem is Pad
            &&& pad.elem->sides == config.padding()
            &&& stack.elem is Stack
            &&& stack.elem->spacing == Some(config.gutter)
            &&& stack.elem->blocks == item_blocks(items, config, span)
            &&& stack.span == span
        }),
{
}

/// In layout, the stack holds one block for every item, in the order of the
/// items.
pub proof fn lemma_layout_keeps_items(node: TermsView, styles: StyleChainView)
    requires
        !styles.target().is_html(),
    ensures
        laid_out_stack(node.show(styles), node.tight_in(styles)).elem is Stack,
        laid_out_blocks(node, styles).len() == node.children.len(),
        forall|i: int|
            0 <= i < node.children.len() ==> #[trigger] laid_out_blocks(node, styles)[i]
                == item_block(node.children[i], node.config(styles), node.span),
{
    lemma_layout_shape(node.children, node.config(styles), node.span);
}

/// In markup, the output is a definition list that holds a label and a
/// value for every item, in the order of the items.
pub proof fn lemma_markup_keeps_items(node: TermsView, styles: StyleChainView)
    requires
        styles.target().is_html(),
    ensures
        node.show(styles).elem is Html,
        node.show(styles).elem->tag == Tag::Dl,
        node.show(styles).elem->body is Some,
        node.show(styles).elem->body->0.elem is Sequence,
        markup_children(node.show(styles)).len() == 2 * node.children.len(),
        forall|i: int|
            0 <= i < node.children.len() ==> markup_children(node.show(styles))[2 * i]
                == markup_pair(#[trigger] node.children[i], node.tight_in(styles))[0],
        forall|i: int|
            0 <= i < node.children.len() ==> markup_children(node.show(styles))[2 * i + 1]
                == markup_pair(#[trigger] node.children[i], node.tight_in(styles))[1],
{
    let tight = node.tight_in(styles);
    let body = markup_body(node.children, tight);
    assert forall|i: int| 0 <= i < node.children.len() implies body[2 * i] == markup_pair(
        #[trigger] node.children[i],
        tight,
    )[0] by {
        lemma_pair_index(i);
    }
    assert forall|i: int| 0 <= i < node.children.len() implies body[2 * i + 1] == markup_pair(
        #[trigger] node.children[i],
        tight,
    )[1] by {
        lemma_pair_index(i);
    }
}

proof fn lemma_pair_index(i: int)
    requires
        0 <= i,
    ensures
        (2 * i) / 2 == i,
        (2 * i) % 2 == 0,
        (2 * i + 1) / 2 == i,
        (2 * i + 1) % 2 == 1,
{
}

/// The label of an item wraps its term and the value wraps its
/// description; each has the span of what it wraps.
pub proof fn lemma_markup_pair(item: TermItemView, tight: bool)
    ensures
        markup_pair(item, tight).len() == 2,
        markup_pair(item, tight)[0].elem == ContentView::html(Tag::Dt, Some(item.term)).elem,
        markup_pair(item, tight)[0].span == item.term.span,
        markup_pair(item, tight)[1].elem is Html,
        markup_pair(item, tight)[1].elem->tag == Tag::Dd,
        markup_pair(item, tight)[1].elem->body is Some,
        markup_pair(item, tight)[1].span == item.description.span,
{
}

/// With nothing set on the list and nothing set in the style context, the
/// defaults are in force: tight, a weak space of 0.6 em as the separator, no
/// indent, a hanging indent of 2 em, paragraph leading as the gutter,
/// left-to-right text, and the layout target.
pub proof fn lemma_defaults(node: TermsView)
    requires
        node.tight is None,
        node.separator is None,
        node.indent is None,
        node.hanging_indent is None,
        node.spacing is None,
    ensures
        node.config(StyleChainView::empty()) == (ConfigView {
            tight: true,
            separator: ContentView::hspace(Length { abs: 0, em: DEFAULT_SEPARATOR_EM }, true),
            indent: Length::zero(),
            hanging_indent: Length { abs: 0, em: DEFAULT_HANGING_INDENT_EM },
            gutter: Length { abs: 0, em: DEFAULT_LEADING_EM },
            dir: Dir::Ltr,
        }),
        StyleChainView::empty().target() == Target::Paged,
        node.show(StyleChainView::empty()) == layout(
            node.children,
            node.config(StyleChainView::empty()),
            node.span,
        ),
{
}

/// A field that no scope of the style context sets has its default.
pub proof fn lemma_unset_is_default(styles: StyleChainView, field: Field)
    requires
        forall|j: int| 0 <= j < styles.entries.len() ==> (#[trigger] styles.entries[j]).field() != field,
    ensures
        styles.get(field) == PropertyView::default_of(field),
{
    lemma_nearest(styles.entries, field);
}

/// A tight list never has a paragraph break put after a description; a wide
/// list has exactly one put after every description. In layout the block of
/// an item ends with the description or with that break; in markup the body
/// of the value is the description itself or a sequence of the pieces of the
/// description and that break.
pub proof fn lemma_parbreak_iff_wide(item: TermItemView, config: ConfigView, span: Span)
    ensures
        item_block(item, config, span).pieces() == item_parts(item, config, span),
        config.tight ==> item_parts(item, config, span) == unpad(config.hanging_indent, span)
            + item_core(item, config),
        !config.tight ==> item_parts(item, config, span) == (unpad(config.hanging_indent, span)
            + item_core(item, config)).push(ContentView::parbreak()),
        markup_pair(item, config.tight)[1].elem is Html,
        markup_pair(item, config.tight)[1].elem->body is Some,
        config.tight ==> markup_value_body(item, config.tight) == item.description,
        !config.tight ==> markup_value_body(item, config.tight).elem is Sequence,
        !config.tight ==> markup_value_body(item, config.tight).pieces()
            == item.description.pieces().push(ContentView::parbreak()),
{
    assert(item.description.pieces() + seq![ContentView::parbreak()]
        =~= item.description.pieces().push(ContentView::parbreak()));
}

/// In the layout of a tight list no block has a paragraph break put after
/// the description; in the layout of a wide list every block has exactly
/// one, as its last piece.
pub proof fn lemma_layout_breaks(node: TermsView, styles: StyleChainView)
    requires
        !styles.target().is_html(),
    ensures
        laid_out_blocks(node, styles).len() == node.children.len(),
        node.tight_in(styles) ==> forall|i: int|
            0 <= i < node.children.len() ==> (#[trigger] laid_out_blocks(node, styles)[i]).pieces()
                == unpad(node.hanging_indent_in(styles), node.span) + item_core(
                node.children[i],
                node.config(styles),
            ),
        !node.tight_in(styles) ==> forall|i: int|
            0 <= i < node.children.len() ==> (#[trigger] laid_out_blocks(node, styles)[i]).pieces()
                == (unpad(node.hanging_indent_in(styles), node.span) + item_core(
                node.children[i],
                node.config(styles),
            )).push(ContentView::parbreak()),
{
    let config = node.config(styles);
    lemma_layout_shape(node.children, config, node.span);
    assert forall|i: int| 0 <= i < node.children.len() implies (#[trigger] laid_out_blocks(
        node,
        styles,
    )[i]).pieces() == item_parts(node.children[i], config, node.span) by {
        lemma_parbreak_iff_wide(node.children[i], config, node.span);
    }
    assert forall|i: int| 0 <= i < node.children.len() implies item_parts(
        #[trigger] node.children[i],
        config,
        node.span,
    ) == if config.tight {
        unpad(config.hanging_indent, node.span) + item_core(node.children[i], config)
    } else {
        (unpad(config.hanging_indent, node.span) + item_core(node.children[i], config)).push(
            ContentView::parbreak(),
        )
    } by {
        lemma_parbreak_iff_wide(node.children[i], config, node.span);
    }
}

/// In the markup of a tight list the body of every value is the
/// description as it is; in the markup of a wide list it is the pieces of
/// the description followed by exactly one paragraph break.
pub proof fn lemma_markup_breaks(node: TermsView, styles: StyleChainView)
    requires
        styles.target().is_html(),
    ensures
        markup_children(node.show(styles)).len() == 2 * node.children.len(),
        node.tight_in(styles) ==> forall|i: int|
            0 <= i < node.children.len() ==> *markup_children(node.show(styles))[2 * i
                + 1].elem->body->0 == (#[trigger] node.children[i]).description,
        !node.tight_in(styles) ==> forall|i: int|
            0 <= i < node.children.len() ==> (*markup_children(node.show(styles))[2 * i
                + 1].elem->body->0).pieces() == (#[trigger] node.children[i]).description.pieces().push(
                ContentView::parbreak(),
            ),
{
    let tight = node.tight_in(styles);
    lemma_markup_keeps_items(node, styles);
    assert forall|i: int| 0 <= i < node.children.len() implies *markup_children(
        node.show(styles),
    )[2 * i + 1].elem->body->0 == markup_value_body(#[trigger] node.children[i], tight) by {}
    assert forall|i: int| 0 <= i < node.children.len() implies if tight {
        markup_value_body(#[trigger] node.children[i], tight) == node.children[i].description
    } else {
        markup_value_body(node.children[i], tight).pieces()
            == node.children[i].description.pieces().push(ContentView::parbreak())
    } by {
        lemma_parbreak_iff_wide(node.children[i], node.config(styles), node.span);
    }
}

/// When the hanging indent is zero no horizontal shift is laid out: every
/// block starts with the term. Otherwise every block starts with the shift
/// by the negated hanging indent, and the term follows.
pub proof fn lemma_shift_iff_hanging(item: TermItemView, config: ConfigView, span: Span)
    ensures
        config.hanging_indent.is_zero() ==> item_parts(item, config, span) == item_core(
            item,
            config,
        ) + item_end(config.tight),
        !config.hanging_indent.is_zero() ==> item_parts(item, config, span) == seq![
            shift(config.hanging_indent, span),
        ] + item_core(item, config) + item_end(config.tight),
        shift(config.hanging_indent, span).elem is HSpace,
        shift(config.hanging_indent, span).elem->HSpace_amount
            == config.hanging_indent.negated(),
        !(item_core(item, config)[0].elem is HSpace),
{
    if config.hanging_indent.is_zero() {
        assert(unpad(config.hanging_indent, span) + item_core(item, config) =~= item_core(
            item,
            config,
        ));
    }
}

/// Where the hanging indent in force is zero, no block of the layout holds
/// a horizontal shift: every block is the term, the separator and the
/// description, and the paragraph break of a wide list.
pub proof fn lemma_no_shift_without_hanging(node: TermsView, styles: StyleChainView)
    requires
        !styles.target().is_html(),
        node.hanging_indent_in(styles).is_zero(),
    ensures
        laid_out_blocks(node, styles).len() == node.children.len(),
        forall|i: int|
            0 <= i < node.children.len() ==> (#[trigger] laid_out_blocks(node, styles)[i]).pieces()
                == item_core(node.children[i], node.config(styles)) + item_end(
                node.tight_in(styles),
            ),
{
    let config = node.config(styles);
    lemma_layout_shape(node.children, config, node.span);
    assert forall|i: int| 0 <= i < node.children.len() implies (#[trigger] laid_out_blocks(
        node,
        styles,
    )[i]).pieces() == item_core(node.children[i], config) + item_end(config.tight) by {
        lemma_parbreak_iff_wide(node.children[i], config, node.span);
        lemma_shift_iff_hanging(node.children[i], config, node.span);
    }
}

/// The padding lies on the side where text starts and nowhere else: on the
/// left for left-to-right text, on the opposite side for right-to-left
/// text. Its amount is hanging indent plus indent whatever the direction,
/// and exactly their sum where that can be represented.
pub proof fn lemma_padding_side(config: ConfigView)
    ensures
        config.padding().spec_get(config.dir.start()) == config.pad(),
        forall|side: Side|
            side != config.dir.start() ==> #[trigger] config.padding().spec_get(side)
                == Length::zero(),
        config.dir == Dir::Ltr ==> config.padding() == (Sides {
            left: config.pad(),
            ..Sides::spec_zero()
        }),
        config.dir == Dir::Rtl ==> config.padding() == (Sides {
            right: config.pad(),
            ..Sides::spec_zero()
        }),
        Dir::Rtl.start() == Dir::Ltr.start().spec_opposite(),
        config.hanging_indent.sum_fits(config.indent) ==> config.pad().abs
            == config.hanging_indent.abs + config.indent.abs && config.pad().em
            == config.hanging_indent.em + config.indent.em,
{
}

/// Rendering a list under right-to-left text puts the padding on the right
/// where left-to-right text has it on the left, and the amount is the same.
pub proof fn lemma_direction_moves_padding(
    node: TermsView,
    ltr: StyleChainView,
    rtl: StyleChainView,
)
    requires
        !ltr.target().is_html(),
        !rtl.target().is_html(),
        ltr.text_dir() == Dir::Ltr,
        rtl.text_dir() == Dir::Rtl,
        node.indent_in(ltr) == node.indent_in(rtl),
        node.hanging_indent_in(ltr) == node.hanging_indent_in(rtl),
    ensures
        ({
            let pad = node.hanging_indent_in(ltr).plus(node.indent_in(ltr));
            let left = laid_out_pad(node.show(ltr), node.tight_in(ltr));
            let right = laid_out_pad(node.show(rtl), node.tight_in(rtl));
            &&& left.elem is Pad
            &&& left.elem->sides == (Sides { left: pad, ..Sides::spec_zero() })
            &&& right.elem is Pad
            &&& right.elem->sides == (Sides { right: pad, ..Sides::spec_zero() })
        }),
{
    lemma_layout_shape(node.children, node.config(ltr), node.span);
    lemma_layout_shape(node.children, node.config(rtl), node.span);
}

/// Markup output depends on the items and on the tightness alone: two
/// lists with the same items and the same tightness in force render to the
/// same markup, whatever their indent, hanging indent, separator and
/// spacing are.
pub proof fn lemma_markup_ignores_layout(
    a: TermsView,
    a_styles: StyleChainView,
    b: TermsView,
    b_styles: StyleChainView,
)
    requires
        a_styles.target().is_html(),
        b_styles.target().is_html(),
        a.children == b.children,
        a.tight_in(a_styles) == b.tight_in(b_styles),
    ensures
        a.show(a_styles) == b.show(b_styles),
        a.show(a_styles) == markup(a.children, a.tight_in(a_styles)),
{
}

/// Changing the indent, the hanging indent, the separator or the spacing of
/// a list does not change its markup output.
pub proof fn lemma_markup_ignores_settings(
    node: TermsView,
    styles: StyleChainView,
    separator: Option<ContentView>,
    indent: Option<Length>,
    hanging_indent: Option<Length>,
    spacing: Option<Smart<Length>>,
)
    requires
        styles.target().is_html(),
    ensures
        (TermsView { separator, indent, hanging_indent, spacing, ..node }).show(styles)
            == node.show(styles),
{
}

/// Under the mark that rendering puts on its output, the cascade answers
/// that content lies within a term list, whatever the scopes outside say.
pub proof fn lemma_within_is_visible(styles: StyleChainView)
    ensures
        styles.chain(seq![PropertyView::Within(true)]).within(),
{
    lemma_nearest(styles.chain(seq![PropertyView::Within(true)]).entries, Field::Within);
}

/// Styles are not deduplicated: styling content twice is styling it once
/// with both lists of styles, the later list in front.
pub proof fn lemma_styled_twice(
    content: ContentView,
    first: Seq<PropertyView>,
    second: Seq<PropertyView>,
)
    ensures
        content.styled(first).styled(second) == content.styled(second + first),
{
    if let ElemView::Styled(_, inner) = content.elem {
        assert(second + (first + inner) =~= (second + first) + inner);
    }
}

/// Styling an item twice styles its term and its description twice.
pub proof fn lemma_item_styled_twice(
    item: TermItemView,
    first: Seq<PropertyView>,
    second: Seq<PropertyView>,
)
    ensures
        item.styled(first).styled(second) == item.styled(second + first),
{
    lemma_styled_twice(item.term, first, second);
    lemma_styled_twice(item.description, first, second);
}

} // verus!
