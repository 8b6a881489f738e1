use term_list::content::{Content, Elem, Span};
use term_list::geometry::Dir;
use term_list::length::{Length, Smart};
use term_list::style::{
    Field, Property, StyleChain, Styles, Target, DEFAULT_HANGING_INDENT_EM, DEFAULT_LEADING_EM,
    DEFAULT_PAR_SPACING_EM, DEFAULT_SEPARATOR_EM,
};

fn chain_of(entries: Vec<Property>) -> StyleChain {
    StyleChain::new().chain(Styles { entries })
}

#[test]
fn default_amounts() {
    assert_eq!(DEFAULT_SEPARATOR_EM, 600);
    assert_eq!(DEFAULT_HANGING_INDENT_EM, 2000);
    assert_eq!(DEFAULT_LEADING_EM, 650);
    assert_eq!(DEFAULT_PAR_SPACING_EM, 1200);
}

#[test]
fn every_property_names_its_field() {
    assert_eq!(Property::Tight(true).field(), Field::Tight);
    assert_eq!(Property::Separator(Content::empty()).field(), Field::Separator);
    assert_eq!(Property::Indent(Length::zero()).field(), Field::Indent);
    assert_eq!(Property::HangingIndent(Length::zero()).field(), Field::HangingIndent);
    assert_eq!(Property::Spacing(Smart::Auto).field(), Field::Spacing);
    assert_eq!(Property::Within(true).field(), Field::Within);
    assert_eq!(Property::Leading(Length::zero()).field(), Field::Leading);
    assert_eq!(Property::ParSpacing(Length::zero()).field(), Field::ParSpacing);
    assert_eq!(Property::TextDir(Dir::Rtl).field(), Field::TextDir);
    assert_eq!(Property::Target(Target::Html).field(), Field::Target);
}

#[test]
fn defaults_of_every_field() {
    assert_eq!(Property::default_of(Field::Tight), Property::Tight(true));
    assert_eq!(
        Property::default_of(Field::Separator),
        Property::Separator(Content {
            elem: Elem::HSpace { amount: Length { abs: 0, em: 600 }, weak: true },
            span: Span(0),
        })
    );
    assert_eq!(Property::default_of(Field::Indent), Property::Indent(Length { abs: 0, em: 0 }));
    assert_eq!(
        Property::default_of(Field::HangingIndent),
        Property::HangingIndent(Length { abs: 0, em: 2000 })
    );
    assert_eq!(Property::default_of(Field::Spacing), Property::Spacing(Smart::Auto));
    assert_eq!(Property::default_of(Field::Within), Property::Within(false));
    assert_eq!(Property::default_of(Field::Leading), Property::Leading(Length { abs: 0, em: 650 }));
    assert_eq!(
        Property::default_of(Field::ParSpacing),
        Property::ParSpacing(Length { abs: 0, em: 1200 })
    );
    assert_eq!(Property::default_of(Field::TextDir), Property::TextDir(Dir::Ltr));
    assert_eq!(Property::default_of(Field::Target), Property::Target(Target::Paged));
}

#[test]
fn styles_are_built_in_order() {
    assert_eq!(Styles::new(), Styles { entries: vec![] });
    assert_eq!(Styles::one(Property::Tight(false)), Styles { entries: vec![Property::Tight(false)] });
    assert_eq!(
        Styles::one(Property::Tight(false)).with(Property::Within(true)),
        Styles { entries: vec![Property::Tight(false), Property::Within(true)] }
    );
}

#[test]
fn styles_clone_keeps_every_entry() {
    let styles = Styles {
        entries: vec![
            Property::Separator(Content::text(": ")),
            Property::Spacing(Smart::Custom(Length::points(3000))),
            Property::TextDir(Dir::Rtl),
        ],
    };
    assert_eq!(styles.clone(), styles);
    assert_eq!(Property::Target(Target::Html).clone(), Property::Target(Target::Html));
}

#[test]
fn empty_chain_gives_defaults() {
    let styles = StyleChain::new();
    assert!(styles.tight());
    assert_eq!(styles.separator(), Content::hspace(Length::ems(600), true));
    assert_eq!(styles.indent(), Length::zero());
    assert_eq!(styles.hanging_indent(), Length::ems(2000));
    assert_eq!(styles.spacing(), Smart::Auto);
    assert!(!styles.within());
    assert_eq!(styles.leading(), Length::ems(650));
    assert_eq!(styles.par_spacing(), Length::ems(1200));
    assert_eq!(styles.text_dir(), Dir::Ltr);
    assert_eq!(styles.target(), Target::Paged);
}

#[test]
fn chain_appends_inner_scopes() {
    let styles = StyleChain::new()
        .chain(Styles::one(Property::Tight(false)))
        .chain(Styles::one(Property::Within(true)).with(Property::Indent(Length::points(1))));
    assert_eq!(
        styles,
        StyleChain {
            entries: vec![
                Property::Tight(false),
                Property::Within(true),
                Property::Indent(Length::points(1)),
            ]
        }
    );
}

#[test]
fn a_set_property_overrides_the_default() {
    let styles = chain_of(vec![
        Property::Tight(false),
        Property::Separator(Content::text(": ")),
        Property::Indent(Length::points(5000)),
        Property::HangingIndent(Length::zero()),
        Property::Spacing(Smart::Custom(Length::points(12000))),
        Property::Within(true),
        Property::Leading(Length::ems(500)),
        Property::ParSpacing(Length::ems(1500)),
        Property::TextDir(Dir::Rtl),
        Property::Target(Target::Html),
    ]);
    assert!(!styles.tight());
    assert_eq!(styles.separator(), Content::text(": "));
    assert_eq!(styles.indent(), Length::points(5000));
    assert_eq!(styles.hanging_indent(), Length::zero());
    assert_eq!(styles.spacing(), Smart::Custom(Length::points(12000)));
    assert!(styles.within());
    assert_eq!(styles.leading(), Length::ems(500));
    assert_eq!(styles.par_spacing(), Length::ems(1500));
    assert_eq!(styles.text_dir(), Dir::Rtl);
    assert_eq!(styles.target(), Target::Html);
    assert!(styles.target().is_html());
    assert!(!Target::Paged.is_html());
}

#[test]
fn the_nearest_scope_wins() {
    let styles = chain_of(vec![
        Property::Indent(Length::points(1000)),
        Property::Tight(false),
        Property::Indent(Length::points(2000)),
        Property::TextDir(Dir::Rtl),
        Property::Indent(Length::points(3000)),
        Property::Tight(true),
    ]);
    assert_eq!(styles.indent(), Length::points(3000));
    assert!(styles.tight());
    assert_eq!(styles.text_dir(), Dir::Rtl);
    assert_eq!(styles.get(Field::Indent), Property::Indent(Length::points(3000)));
}

#[test]
fn an_inner_scope_overrides_an_outer_one() {
    let outer = chain_of(vec![Property::HangingIndent(Length::ems(1000))]);
    assert_eq!(outer.hanging_indent(), Length::ems(1000));
    let inner = outer.chain(Styles::one(Property::HangingIndent(Length::ems(3000))));
    assert_eq!(inner.hanging_indent(), Length::ems(3000));
}

#[test]
fn other_fields_do_not_shadow() {
    let styles = chain_of(vec![Property::Indent(Length::points(1000)), Property::Tight(false)]);
    assert_eq!(styles.get(Field::Indent), Property::Indent(Length::points(1000)));
    assert_eq!(styles.get(Field::HangingIndent), Property::HangingIndent(Length::ems(2000)));
    assert_eq!(styles.get(Field::Target), Property::Target(Target::Paged));
}

#[test]
fn the_within_mark_is_seen_inside() {
    let outside = chain_of(vec![Property::Within(false), Property::Tight(false)]);
    assert!(!outside.within());
    let inside = outside.chain(Styles::one(Property::Within(true)));
    assert!(inside.within());
}
