//! Style properties and the cascade that resolves them.

use crate::content::{content_view, Content, ContentView};
use crate::geometry::Dir;
use crate::length::{Length, Smart};
use vstd::prelude::*;

verus! {

/// The output for which content is produced.
#[derive(Clone, Copy, Debug, PartialEq, Eq, Structural)]
pub enum Target {
    /// Laid-out pages.
    Paged,
    /// Semantic markup.
    Html,
}

/// The names of the style properties.
#[derive(Clone, Copy, Debug, PartialEq, Eq, Structural)]
pub enum Field {
    Tight,
    Separator,
    Indent,
    HangingIndent,
    Spacing,
    Within,
    Leading,
    ParSpacing,
    TextDir,
    Target,
}

/// The default separator is a weak space of this many thousandths of an em.
pub const DEFAULT_SEPARATOR_EM: i64 = 600;

/// The default hanging indent, in thousandths of an em.
pub const DEFAULT_HANGING_INDENT_EM: i64 = 2000;

/// The default paragraph leading, in thousandths of an em.
pub const DEFAULT_LEADING_EM: i64 = 650;

/// The default paragraph spacing, in thousandths of an em.
pub const DEFAULT_PAR_SPACING_EM: i64 = 1200;

/// One style property with the value it is set to.
#[derive(Debug, PartialEq, Eq)]
pub enum Property {
    /// Whether term lists are tight.
    Tight(bool),
    /// What separates a term from its description.
    Separator(Content),
    /// The indent of each term list item.
    Indent(Length),
    /// The hanging indent of term descriptions.
    HangingIndent(Length),
    /// The gap between term list items.
    Spacing(Smart<Length>),
    /// Whether the content lies within a term list.
    Within(bool),
    /// The leading of paragraphs.
    Leading(Length),
    /// The spacing between paragraphs.
    ParSpacing(Length),
    /// The direction of text.
    TextDir(Dir),
    /// The output target.
    Target(Target),
}

/// A list of style properties; later entries override earlier ones.
#[derive(Debug, PartialEq, Eq)]
pub struct Styles {
    pub entries: Vec<Property>,
}

/// The view of [`Property`].
pub enum PropertyView {
    Tight(bool),
    Separator(ContentView),
    Indent(Length),
    HangingIndent(Length),
    Spacing(Smart<Length>),
    Within(bool),
    Leading(Length),
    ParSpacing(Length),
    TextDir(Dir),
    Target(Target),
}

/// The view of one property.
pub open spec fn property_view(p: Property) -> PropertyView
    decreases p,
{
    match p {
        Property::Tight(b) => PropertyView::Tight(b),
        Property::Separator(c) => PropertyView::Separator(content_view(c)),
        Property::Indent(l) => PropertyView::Indent(l),
        Property::HangingIndent(l) => PropertyView::HangingIndent(l),
        Property::Spacing(s) => PropertyView::Spacing(s),
        Property::Within(b) => PropertyView::Within(b),
        Property::Leading(l) => PropertyView::Leading(l),
        Property::ParSpacing(l) => PropertyView::ParSpacing(l),
        Property::TextDir(d) => PropertyView::TextDir(d),
        Property::Target(t) => PropertyView::Target(t),
    }
}

/// The views of a sequence of properties, in order.
pub open spec fn props_view(s: Seq<Property>) -> Seq<PropertyView>
    decreases s,
{
    Seq::new(s.len(), |i: int| if 0 <= i < s.len() { property_view(s[i]) } else { arbitrary() })
}

impl View for Property {
    type V = PropertyView;

    open spec fn view(&self) -> PropertyView {
        property_view(*self)
    }
}

impl View for Styles {
    type V = Seq<PropertyView>;

    open spec fn view(&self) -> Seq<PropertyView> {
        props_view(self.entries@)
    }
}

impl PropertyView {
    /// The name of this property.
    pub open spec fn field(self) -> Field {
        match self {
            PropertyView::Tight(_) => Field::Tight,
            PropertyView::Separator(_) => Field::Separator,
            PropertyView::Indent(_) => Field::Indent,
            PropertyView::HangingIndent(_) => Field::HangingIndent,
            PropertyView::Spacing(_) => Field::Spacing,
            PropertyView::Within(_) => Field::Within,
            PropertyView::Leading(_) => Field::Leading,
            PropertyView::ParSpacing(_) => Field::ParSpacing,
            PropertyView::TextDir(_) => Field::TextDir,
            PropertyView::Target(_) => Field::Target,
        }
    }

    /// The value that a property has where nothing sets it.
    pub open spec fn default_of(field: Field) -> PropertyView {
        match field {
            Field::Tight => PropertyView::Tight(true),
            Field::Separator => PropertyView::Separator(
                ContentView::hspace(Length { abs: 0, em: DEFAULT_SEPARATOR_EM }, true),
            ),
            Field::Indent => PropertyView::Indent(Length::zero()),
            Field::HangingIndent => PropertyView::HangingIndent(
                Length { abs: 0, em: DEFAULT_HANGING_INDENT_EM },
            ),
            Field::Spacing => PropertyView::Spacing(Smart::Auto),
            Field::Within => PropertyView::Within(false),
            Field::Leading => PropertyView::Leading(Length { abs: 0, em: DEFAULT_LEADING_EM }),
            Field::ParSpacing => PropertyView::ParSpacing(
                Length { abs: 0, em: DEFAULT_PAR_SPACING_EM },
            ),
            Field::TextDir => PropertyView::TextDir(Dir::Ltr),
            Field::Target => PropertyView::Target(Target::Paged),
        }
    }
}

impl Property {
    /// The name of this property.
    pub fn field(&self) -> (f: Field)
        ensures
            f == self@.field(),
    {
        match self {
            Property::Tight(_) => Field::Tight,
            Property::Separator(_) => Field::Separator,
            Property::Indent(_) => Field::Indent,
            Property::HangingIndent(_) => Field::HangingIndent,
            Property::Spacing(_) => Field::Spacing,
            Property::Within(_) => Field::Within,
            Property::Leading(_) => Field::Leading,
            Property::ParSpacing(_) => Field::ParSpacing,
            Property::TextDir(_) => Field::TextDir,
            Property::Target(_) => Field::Target,
        }
    }

    /// The value that a property has where nothing sets it.
    pub fn default_of(field: Field) -> (p: Property)
        ensures
            p@ == PropertyView::default_of(field),
    {
        match field {
            Field::Tight => Property::Tight(true),
            Field::Separator => Property::Separator(
                Content::hspace(Length::ems(DEFAULT_SEPARATOR_EM), true),
            ),
            Field::Indent => Property::Indent(Length::zero()),
            Field::HangingIndent => Property::HangingIndent(Length::ems(DEFAULT_HANGING_INDENT_EM)),
            Field::Spacing => Property::Spacing(Smart::Auto),
            Field::Within => Property::Within(false),
            Field::Leading => Property::Leading(Length::ems(DEFAULT_LEADING_EM)),
            Field::ParSpacing => Property::ParSpacing(Length::ems(DEFAULT_PAR_SPACING_EM)),
            Field::TextDir => Property::TextDir(Dir::Ltr),
            Field::Target => Property::Target(Target::Paged),
        }
    }
}

impl Styles {
    /// No properties.
    pub fn new() -> (r: Styles)
        ensures
            r@ == Seq::<PropertyView>::empty(),
    {
        Styles { entries: Vec::new() }
    }

    /// A single property.
    pub fn one(property: Property) -> (r: Styles)
        ensures
            r@ == seq![property@],
    {
        let mut entries: Vec<Property> = Vec::new();
        entries.push(property);
        Styles { entries }
    }

    /// These properties followed by one more.
    pub fn with(self, property: Property) -> (r: Styles)
        ensures
            r@ == self@.push(property@),
    {
        let mut entries = self.entries;
        entries.push(property);
        Styles { entries }
    }
}

/// Whether entry `i` sets `field` and no later entry does.
pub open spec fn is_nearest(entries: Seq<PropertyView>, field: Field, i: int) -> bool {
    &&& 0 <= i < entries.len()
    &&& entries[i].field() == field
    &&& forall|j: int| i < j < entries.len() ==> (#[trigger] entries[j]).field() != field
}

/// The index of the last entry that sets `field`, if any does.
pub open spec fn nearest(entries: Seq<PropertyView>, field: Field) -> Option<int>
    decreases entries.len(),
{
    if entries.len() == 0 {
        None
    } else if entries.last().field() == field {
        Some(entries.len() - 1)
    } else {
        nearest(entries.drop_last(), field)
    }
}

/// The cascade picks the nearest override: `nearest` names the one entry
/// that sets the field with no later entry setting it too, and names none
/// exactly when no entry sets the field.
pub proof fn lemma_nearest(entries: Seq<PropertyView>, field: Field)
    ensures
        match nearest(entries, field) {
            Some(i) => is_nearest(entries, field, i),
            None => forall|j: int| 0 <= j < entries.len() ==> (#[trigger] entries[j]).field() != field,
        },
        forall|i: int| is_nearest(entries, field, i) ==> nearest(entries, field) == Some(i),
    decreases entries.len(),
{
    if entries.len() > 0 && entries.last().field() != field {
        let front = entries.drop_last();
        lemma_nearest(front, field);
        assert forall|j: int| 0 <= j < front.len() implies #[trigger] entries[j] == front[j] by {}
        assert forall|i: int| is_nearest(entries, field, i) implies is_nearest(front, field, i) by {
            assert forall|j: int| i < j < front.len() implies (#[trigger] front[j]).field()
                != field by {
                assert(front[j] == entries[j]);
            }
        }
    }
}

/// The style context of a rendering call: every property set at an enclosing
/// scope, outermost first.
#[derive(Debug, PartialEq, Eq)]
pub struct StyleChain {
    pub entries: Vec<Property>,
}

/// The view of [`StyleChain`].
pub struct StyleChainView {
    pub entries: Seq<PropertyView>,
}

impl View for StyleChain {
    type V = StyleChainView;

    open spec fn view(&self) -> StyleChainView {
        StyleChainView { entries: props_view(self.entries@) }
    }
}

impl StyleChainView {
    /// The context in which nothing is set.
    pub open spec fn empty() -> StyleChainView {
        StyleChainView { entries: Seq::empty() }
    }

    /// This context with the properties of one more scope inside it.
    pub open spec fn chain(self, inner: Seq<PropertyView>) -> StyleChainView {
        StyleChainView { entries: self.entries + inner }
    }

    /// The active value of `field`: that of the nearest scope which sets
    /// it, else the default.
    pub open spec fn get(self, field: Field) -> PropertyView {
        match nearest(self.entries, field) {
            Some(i) => self.entries[i],
            None => PropertyView::default_of(field),
        }
    }

    pub open spec fn tight(self) -> bool {
        self.get(Field::Tight)->Tight_0
    }

    pub open spec fn separator(self) -> ContentView {
        self.get(Field::Separator)->Separator_0
    }

    pub open spec fn indent(self) -> Length {
        self.get(Field::Indent)->Indent_0
    }

    pub open spec fn hanging_indent(self) -> Length {
        self.get(Field::HangingIndent)->HangingIndent_0
    }

    pub open spec fn spacing(self) -> Smart<Length> {
        self.get(Field::Spacing)->Spacing_0
    }

    pub open spec fn within(self) -> bool {
        self.get(Field::Within)->Within_0
    }

    pub open spec fn leading(self) -> Length {
        self.get(Field::Leading)->Leading_0
    }

    pub open spec fn par_spacing(self) -> Length {
        self.get(Field::ParSpacing)->ParSpacing_0
    }

    pub open spec fn text_dir(self) -> Dir {
        self.get(Field::TextDir)->TextDir_0
    }

    pub open spec fn target(self) -> Target {
        self.get(Field::Target)->Target_0
    }

    /// What the cascade returns for a field is a value of that field.
    pub proof fn lemma_get_field(self, field: Field)
        ensures
            self.get(field).field() == field,
    {
        lemma_nearest(self.entries, field);
    }

    /// An inner scope overrides what lies outside it: with one more scope
    /// inside, a field has the last value that the scope sets for it, and
    /// what it had before where the scope does not set it.
    pub proof fn lemma_chain(self, inner: Seq<PropertyView>, field: Field)
        ensures
            self.chain(inner).get(field) == match nearest(inner, field) {
                Some(i) => inner[i],
                None => self.get(field),
            },
        decreases inner.len(),
    {
        if inner.len() > 0 && inner.last().field() != field {
            let front = inner.drop_last();
            assert((self.entries + inner).drop_last() =~= self.entries + front);
            self.lemma_chain(front, field);
            lemma_nearest(front, field);
            lemma_nearest(self.entries + front, field);
        }
    }
}

impl StyleChain {
    /// The context in which nothing is set.
    pub fn new() -> (r: StyleChain)
        ensures
            r@ == StyleChainView::empty(),
    {
        let r = StyleChain { entries: Vec::new() };
        assert(r@.entries =~= Seq::<PropertyView>::empty());
        r
    }

    /// This context with the properties of one more scope inside it.
    pub fn chain(self, inner: Styles) -> (r: StyleChain)
        ensures
            r@ == self@.chain(inner@),
    {
        let mut entries = self.entries;
        let mut more = inner.entries;
        assert(props_view(entries@ + more@) =~= props_view(entries@) + props_view(more@));
        entries.append(&mut more);
        StyleChain { entries }
    }

    /// The active value of `field`.
    pub fn get(&self, field: Field) -> (p: Property)
        ensures
            p@ == self@.get(field),
    {
        let mut i: usize = self.entries.len();
        while i > 0
            invariant
                i <= self.entries.len(),
                forall|j: int| i <= j < self.entries.len() ==> (#[trigger] self@.entries[j]).field() != field,
            decreases i,
        {
            i -= 1;
            if self.entries[i].field() == field {
                proof {
                    assert(is_nearest(self@.entries, field, i as int));
                    lemma_nearest(self@.entries, field);
                }
                return self.entries[i].clone();
            }
        }
        proof {
            lemma_nearest(self@.entries, field);
        }
        Property::default_of(field)
    }

    /// Whether term lists are tight.
    pub fn tight(&self) -> (r: bool)
        ensures
            r == self@.tight(),
    {
        proof {
            self@.lemma_get_field(Field::Tight);
        }
        match self.get(Field::Tight) {
            Property::Tight(v) => v,
            _ => unreached(),
        }
    }

    /// What separates a term from its description.
    pub fn separator(&self) -> (r: Content)
        ensures
            r@ == self@.separator(),
    {
        proof {
            self@.lemma_get_field(Field::Separator);
        }
        match self.get(Field::Separator) {
            Property::Separator(v) => v,
            _ => unreached(),
        }
    }

    /// The indent of each term list item.
    pub fn indent(&self) -> (r: Length)
        ensures
            r == self@.indent(),
    {
        proof {
            self@.lemma_get_field(Field::Indent);
        }
        match self.get(Field::Indent) {
            Property::Indent(v) => v,
            _ => unreached(),
        }
    }

    /// The hanging indent of term descriptions.
    pub fn hanging_indent(&self) -> (r: Length)
        ensures
            r == self@.hanging_indent(),
    {
        proof {
            self@.lemma_get_field(Field::HangingIndent);
        }
        match self.get(Field::HangingIndent) {
            Property::HangingIndent(v) => v,
            _ => unreached(),
        }
    }

    /// The gap between term list items.
    pub fn spacing(&self) -> (r: Smart<Length>)
        ensures
            r == self@.spacing(),
    {
        proof {
            self@.lemma_get_field(Field::Spacing);
        }
        match self.get(Field::Spacing) {
            Property::Spacing(v) => v,
            _ => unreached(),
        }
    }

    /// Whether the content lies within a term list.
    pub fn within(&self) -> (r: bool)
        ensures
            r == self@.within(),
    {
        proof {
            self@.lemma_get_field(Field::Within);
        }
        match self.get(Field::Within) {
            Property::Within(v) => v,
            _ => unreached(),
        }
    }

    /// The leading of paragraphs.
    pub fn leading(&self) -> (r: Length)
        ensures
            r == self@.leading(),
    {
        proof {
            self@.lemma_get_field(Field::Leading);
        }
        match self.get(Field::Leading) {
            Property::Leading(v) => v,
            _ => unreached(),
        }
    }

    /// The spacing between paragraphs.
    pub fn par_spacing(&self) -> (r: Length)
        ensures
            r == self@.par_spacing(),
    {
        proof {
            self@.lemma_get_field(Field::ParSpacing);
        }
        match self.get(Field::ParSpacing) {
            Property::ParSpacing(v) => v,
            _ => unreached(),
        }
    }

    /// The direction of text.
    pub fn text_dir(&self) -> (r: Dir)
        ensures
            r == self@.text_dir(),
    {
        proof {
            self@.lemma_get_field(Field::TextDir);
        }
        match self.get(Field::TextDir) {
            Property::TextDir(v) => v,
            _ => unreached(),
        }
    }

    /// The output target.
    pub fn target(&self) -> (r: Target)
        ensures
            r == self@.target(),
    {
        proof {
            self@.lemma_get_field(Field::Target);
        }
        match self.get(Field::Target) {
            Property::Target(v) => v,
            _ => unreached(),
        }
    }
}

impl Target {
    /// Whether this is the semantic markup target.
    pub open spec fn spec_is_html(self) -> bool {
        self == Target::Html
    }

    #[verifier::when_used_as_spec(spec_is_html)]
    pub fn is_html(self) -> (r: bool)
        ensures
            r == self.spec_is_html(),
    {
        match self {
            Target::Html => true,
            Target::Paged => false,
        }
    }
}

impl Clone for Property {
    fn clone(&self) -> (r: Property)
        ensures
            r@ == self@,
        decreases self,
    {
        match self {
            Property::Tight(b) => Property::Tight(*b),
            Property::Separator(c) => Property::Separator(c.clone()),
            Property::Indent(l) => Property::Indent(*l),
            Property::HangingIndent(l) => Property::HangingIndent(*l),
            Property::Spacing(s) => Property::Spacing(*s),
            Property::Within(b) => Property::Within(*b),
            Property::Leading(l) => Property::Leading(*l),
            Property::ParSpacing(l) => Property::ParSpacing(*l),
            Property::TextDir(d) => Property::TextDir(*d),
            Property::Target(t) => Property::Target(*t),
        }
    }
}

impl Clone for Styles {
    fn clone(&self) -> (r: Styles)
        ensures
            r@ == self@,
        decreases self,
    {
        let mut out: Vec<Property> = Vec::new();
        let mut i: usize = 0;
        while i < self.entries.len()
            invariant
                i <= self.entries.len(),
                out.len() == i,
                forall|j: int| 0 <= j < i ==> property_view(out@[j]) == property_view(self.entries@[j]),
            decreases self.entries.len() - i,
        {
            out.push(self.entries[i].clone());
            i += 1;
        }
        Styles { entries: out }
    }
}

} // verus!
