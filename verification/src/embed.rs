//! The content of a rich message ("embed") that the bot sends, as plain
//! values: what the replies say is decided here, and the sending is done
//! elsewhere.

use vstd::prelude::*;
use vstd::string::*;

verus! {

/// The colours that the bot's replies use.
#[derive(Clone, Copy, Debug, PartialEq, Eq, Structural)]
pub enum EmbedColor {
    Pink,
    Purple,
    Yellow,
    Red,
}

/// A titled field of an embed.
pub struct EmbedField {
    pub name: String,
    pub value: String,
    pub inline: bool,
}

/// The mathematical model of a field.
pub struct FieldView {
    pub name: Seq<char>,
    pub value: Seq<char>,
    pub inline: bool,
}

impl View for EmbedField {
    type V = FieldView;

    open spec fn view(&self) -> FieldView {
        FieldView { name: self.name@, value: self.value@, inline: self.inline }
    }
}

/// The content of an embed: each part is optional, fields keep their order.
pub struct EmbedContent {
    pub title: Option<String>,
    pub description: Option<String>,
    pub image: Option<String>,
    pub thumbnail: Option<String>,
    pub color: Option<EmbedColor>,
    pub fields: Vec<EmbedField>,
    pub footer: Option<String>,
}

/// The mathematical model of an embed.
pub struct EmbedView {
    pub title: Option<Seq<char>>,
    pub description: Option<Seq<char>>,
    pub image: Option<Seq<char>>,
    pub thumbnail: Option<Seq<char>>,
    pub color: Option<EmbedColor>,
    pub fields: Seq<FieldView>,
    pub footer: Option<Seq<char>>,
}

pub open spec fn field_view(name: Seq<char>, value: Seq<char>, inline: bool) -> FieldView {
    FieldView { name, value, inline }
}

impl EmbedView {
    /// An embed with nothing set.
    pub open spec fn empty() -> EmbedView {
        EmbedView {
            title: None,
            description: None,
            image: None,
            thumbnail: None,
            color: None,
            fields: Seq::empty(),
            footer: None,
        }
    }
}

impl View for EmbedContent {
    type V = EmbedView;

    open spec fn view(&self) -> EmbedView {
        EmbedView {
            title: self.title.deep_view(),
            description: self.description.deep_view(),
            image: self.image.deep_view(),
            thumbnail: self.thumbnail.deep_view(),
            color: self.color,
            fields: self.fields@.map_values(|f: EmbedField| f@),
            footer: self.footer.deep_view(),
        }
    }
}

impl DeepView for EmbedContent {
    type V = EmbedView;

    open spec fn deep_view(&self) -> EmbedView {
        self@
    }
}

/// A new `String` holding the characters of `s`.
pub fn owned(s: &str) -> (r: String)
    ensures
        r@ == s@,
{
    String::from_str(s)
}

/// A field with the given name, value and inline flag.
pub fn make_field(name: &str, value: &str, inline: bool) -> (r: EmbedField)
    ensures
        r@ == field_view(name@, value@, inline),
{
    EmbedField { name: owned(name), value: owned(value), inline }
}

impl EmbedContent {
    /// An embed with nothing set.
    pub fn new() -> (r: EmbedContent)
        ensures
            r@ == EmbedView::empty(),
    {
        let r = EmbedContent {
            title: None,
            description: None,
            image: None,
            thumbnail: None,
            color: None,
            fields: Vec::new(),
            footer: None,
        };
        assert(r@.fields =~= Seq::<FieldView>::empty());
        r
    }

    /// Appends a field after the existing ones.
    pub fn add_field(&mut self, field: EmbedField)
        ensures
            final(self)@ == (EmbedView { fields: old(self)@.fields.push(field@), ..old(self)@ }),
    {
        self.fields.push(field);
        assert(self@.fields =~= old(self)@.fields.push(field@));
    }
}

} // verus!
