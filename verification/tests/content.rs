use term_list::content::{clone_contents, Content, Elem, Span, Tag};
use term_list::geometry::Sides;
use term_list::length::Length;
use term_list::style::{Property, Styles};
use term_list::item::TermItem;

fn plain(elem: Elem) -> Content {
    Content { elem, span: Span(0) }
}

fn word(s: &str) -> Content {
    plain(Elem::Text(String::from(s)))
}

#[test]
fn detached_span_is_zero() {
    assert_eq!(Span::detached(), Span(0));
    assert!(Span::detached().is_detached());
    assert!(!Span(7).is_detached());
}

#[test]
fn text_holds_the_string() {
    assert_eq!(Content::text("Term"), word("Term"));
    assert_eq!(Content::text("Term").span(), Span(0));
}

#[test]
fn empty_is_a_sequence_of_nothing() {
    assert_eq!(Content::empty(), plain(Elem::Sequence(vec![])));
}

#[test]
fn primitives_are_detached() {
    assert_eq!(Content::parbreak(), plain(Elem::Parbreak));
    assert_eq!(
        Content::hspace(Length::ems(600), true),
        plain(Elem::HSpace { amount: Length::ems(600), weak: true })
    );
    assert_eq!(
        Content::vspace(Length::ems(650), true, false),
        plain(Elem::VSpace { amount: Length::ems(650), weak: true, attach: false })
    );
    assert_eq!(
        Content::stack(vec![word("a")], Some(Length::points(3))),
        plain(Elem::Stack { blocks: vec![word("a")], spacing: Some(Length::points(3)) })
    );
    assert_eq!(
        Content::html(Tag::Dt, Some(word("a"))),
        plain(Elem::Html { tag: Tag::Dt, body: Some(Box::new(word("a"))) })
    );
    assert_eq!(Content::html(Tag::Dl, None), plain(Elem::Html { tag: Tag::Dl, body: None }));
}

#[test]
fn item_wraps_a_term_item() {
    let item = TermItem::new(word("t"), word("d"));
    assert_eq!(
        Content::item(item),
        plain(Elem::Item(Box::new(TermItem { term: word("t"), description: word("d") })))
    );
}

#[test]
fn sequence_of_none_is_empty() {
    assert_eq!(Content::sequence(vec![]), Content::empty());
}

#[test]
fn sequence_of_one_is_that_one() {
    let only = Content { elem: Elem::Parbreak, span: Span(9) };
    assert_eq!(Content::sequence(vec![only.clone()]), only);
}

#[test]
fn sequence_of_more_keeps_order() {
    assert_eq!(
        Content::sequence(vec![word("a"), word("b"), word("c")]),
        plain(Elem::Sequence(vec![word("a"), word("b"), word("c")]))
    );
}

#[test]
fn spanned_sets_a_missing_span() {
    assert_eq!(word("a").spanned(Span(4)), Content { elem: Elem::Text(String::from("a")), span: Span(4) });
}

#[test]
fn spanned_keeps_an_existing_span() {
    let placed = word("a").spanned(Span(4));
    assert_eq!(placed.clone().spanned(Span(5)), placed);
}

#[test]
fn strong_wraps_and_keeps_the_span() {
    let placed = word("a").spanned(Span(4));
    assert_eq!(
        placed.clone().strong(),
        Content { elem: Elem::Strong(Box::new(placed)), span: Span(4) }
    );
    assert_eq!(word("a").strong(), plain(Elem::Strong(Box::new(word("a")))));
}

#[test]
fn join_of_two_plain_contents_makes_a_sequence() {
    let a = word("a").spanned(Span(1));
    let b = word("b").spanned(Span(2));
    assert_eq!(a.clone().join(b.clone()), plain(Elem::Sequence(vec![a, b])));
}

#[test]
fn join_onto_a_sequence_appends() {
    let seq = Content { elem: Elem::Sequence(vec![word("a"), word("b")]), span: Span(3) };
    assert_eq!(
        seq.join(Content::parbreak()),
        Content {
            elem: Elem::Sequence(vec![word("a"), word("b"), Content::parbreak()]),
            span: Span(3)
        }
    );
}

#[test]
fn join_before_a_sequence_prepends() {
    let seq = Content { elem: Elem::Sequence(vec![word("b"), word("c")]), span: Span(3) };
    assert_eq!(
        word("a").spanned(Span(8)).join(seq),
        Content {
            elem: Elem::Sequence(vec![word("a").spanned(Span(8)), word("b"), word("c")]),
            span: Span(3)
        }
    );
}

#[test]
fn join_of_two_sequences_concatenates() {
    let left = Content { elem: Elem::Sequence(vec![word("a")]), span: Span(1) };
    let right = Content { elem: Elem::Sequence(vec![word("b"), word("c")]), span: Span(2) };
    assert_eq!(
        left.join(right),
        Content { elem: Elem::Sequence(vec![word("a"), word("b"), word("c")]), span: Span(1) }
    );
}

#[test]
fn join_with_empty_keeps_the_pieces() {
    assert_eq!(Content::empty().join(word("a")), plain(Elem::Sequence(vec![word("a")])));
    assert_eq!(word("a").join(Content::empty()), plain(Elem::Sequence(vec![word("a")])));
}

#[test]
fn styled_with_no_styles_changes_nothing() {
    let placed = word("a").spanned(Span(4));
    assert_eq!(placed.clone().styled(Styles::new()), placed);
}

#[test]
fn styled_wraps_plain_content() {
    let placed = word("a").spanned(Span(4));
    let styles = Styles::one(Property::Tight(false));
    assert_eq!(
        placed.clone().styled(styles),
        plain(Elem::Styled(Box::new(placed), Styles { entries: vec![Property::Tight(false)] }))
    );
}

#[test]
fn styled_puts_new_styles_in_front() {
    let inner = Styles { entries: vec![Property::Tight(false), Property::Within(true)] };
    let once = Content { elem: Elem::Styled(Box::new(word("a")), inner), span: Span(6) };
    let outer = Styles::one(Property::Indent(Length::points(1000)));
    assert_eq!(
        once.styled(outer),
        Content {
            elem: Elem::Styled(
                Box::new(word("a")),
                Styles {
                    entries: vec![
                        Property::Indent(Length::points(1000)),
                        Property::Tight(false),
                        Property::Within(true),
                    ]
                }
            ),
            span: Span(6)
        }
    );
}

#[test]
fn style_in_place_is_styled() {
    let mut content = word("a").spanned(Span(4));
    content.style_in_place(Styles::one(Property::Within(true)));
    assert_eq!(content, word("a").spanned(Span(4)).styled(Styles::one(Property::Within(true))));
    let before = content.clone();
    content.style_in_place(Styles::new());
    assert_eq!(content, before);
}

#[test]
fn styling_twice_applies_twice() {
    let mut content = word("a");
    content.style_in_place(Styles::one(Property::Within(true)));
    content.style_in_place(Styles::one(Property::Within(true)));
    assert_eq!(
        content,
        plain(Elem::Styled(
            Box::new(word("a")),
            Styles { entries: vec![Property::Within(true), Property::Within(true)] }
        ))
    );
}

#[test]
fn padded_wraps_in_padding() {
    let sides = Sides {
        left: Length::ems(2000),
        top: Length::zero(),
        right: Length::zero(),
        bottom: Length::zero(),
    };
    let placed = word("a").spanned(Span(4));
    assert_eq!(
        placed.clone().padded(sides),
        plain(Elem::Pad { sides, child: Box::new(placed) })
    );
}

#[test]
fn clone_copies_the_whole_tree() {
    let tree = Content {
        elem: Elem::Sequence(vec![
            word("a").strong(),
            Content::html(Tag::Dd, Some(word("b").join(Content::parbreak()))).spanned(Span(2)),
            Content::stack(vec![word("c"), Content::hspace(Length::ems(-2000), false)], None)
                .padded(Sides::default())
                .styled(Styles::one(Property::Separator(word(": ")))),
            Content::item(TermItem::new(word("t"), word("d"))),
            Content::vspace(Length::ems(650), true, true),
        ]),
        span: Span(11),
    };
    assert_eq!(tree.clone(), tree);
    assert_eq!(tree.elem.clone(), tree.elem);
}

#[test]
fn clone_contents_keeps_every_entry() {
    let list = vec![word("a"), Content::parbreak(), word("b").strong()];
    assert_eq!(clone_contents(&list), list);
    assert_eq!(clone_contents(&vec![]), vec![]);
}
