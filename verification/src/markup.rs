//! The tags of drawing markup, as the `svg` crate's parser reads them.

use svg::node::element::tag::Type;
use svg::parser::Event;
use vstd::prelude::*;

verus! {

/// The three forms of a tag.
#[derive(Debug, Clone, Copy, PartialEq, Eq, Structural)]
pub enum TagKind {
    /// `<name ...>`
    Start,
    /// `</name>`
    End,
    /// `<name .../>`
    Empty,
}

/// A tag with the values of the attributes that were asked for.
#[derive(Debug, Clone, PartialEq)]
pub struct Tag {
    pub name: String,
    pub kind: TagKind,
    /// One entry for each key that was asked for, in the order of the keys:
    /// the attribute's value, or `None` where the tag has no such attribute.
    pub attributes: Vec<Option<String>>,
}

/// One event of the markup.
#[derive(Debug, Clone, PartialEq)]
pub enum MarkupEvent {
    /// An element's tag.
    Tag(Tag),
    /// Text, a comment, a declaration, an instruction or an error.
    Other,
}

/// A tag as plain values.
pub struct TagView {
    pub name: Seq<char>,
    pub kind: TagKind,
    pub attributes: Seq<Option<Seq<char>>>,
}

/// An event as plain values.
pub enum MarkupEventView {
    Tag(TagView),
    Other,
}

impl DeepView for Tag {
    type V = TagView;

    open spec fn deep_view(&self) -> TagView {
        TagView {
            name: self.name@,
            kind: self.kind,
            attributes: self.attributes.deep_view(),
        }
    }
}

impl DeepView for MarkupEvent {
    type V = MarkupEventView;

    open spec fn deep_view(&self) -> MarkupEventView {
        match self {
            MarkupEvent::Tag(tag) => MarkupEventView::Tag(tag.deep_view()),
            MarkupEvent::Other => MarkupEventView::Other,
        }
    }
}

/// The events that the markup `text` is read as, each tag with its values
/// for `keys`.
pub uninterp spec fn markup_events(text: Seq<char>, keys: Seq<Seq<char>>) -> Seq<MarkupEventView>;

/// Runs `svg::Parser` over `text` to its end and copies each event out. Of
/// a tag it keeps the name, the form and, for each of `keys`, what
/// `HashMap::get` finds among the tag's attributes. The contract names the
/// outcome without describing the reading itself.
#[verifier::external_body]
pub(crate) fn read_markup(text: &str, keys: &Vec<&str>) -> (events: Vec<MarkupEvent>)
    ensures
        events.deep_view() == markup_events(text@, keys.deep_view()),
{
    svg::Parser::new(text).map(|event| match event {
        Event::Tag(name, kind, attributes) => MarkupEvent::Tag(Tag {
            name: name.to_owned(),
            kind: match kind {
                Type::Start => TagKind::Start,
                Type::End => TagKind::End,
                Type::Empty => TagKind::Empty,
            },
            attributes: keys.iter().map(|key| attributes.get(*key).map(|v| v.to_string())).collect(),
        }),
        _ => MarkupEvent::Other,
    }).collect()
}

} // verus!
