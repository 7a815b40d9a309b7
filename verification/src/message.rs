//! The structured message that answers a command: a title, a body and named
//! fields, as plain text.

use vstd::prelude::*;

verus! {

/// One named value of a message.
#[derive(Clone, Debug, PartialEq, Eq)]
pub struct Field {
    pub name: String,
    pub value: String,
    pub inline: bool,
}

/// What a [`Field`] holds.
pub struct FieldView {
    pub name: Seq<char>,
    pub value: Seq<char>,
    pub inline: bool,
}

impl View for Field {
    type V = FieldView;

    open spec fn view(&self) -> FieldView {
        FieldView { name: self.name@, value: self.value@, inline: self.inline }
    }
}

/// A message to send.
#[derive(Clone, Debug, PartialEq, Eq)]
pub struct Embed {
    pub title: String,
    pub description: Option<String>,
    pub thumbnail: Option<String>,
    pub fields: Vec<Field>,
}

/// What an [`Embed`] holds.
pub struct EmbedView {
    pub title: Seq<char>,
    pub description: Option<Seq<char>>,
    pub thumbnail: Option<Seq<char>>,
    pub fields: Seq<FieldView>,
}

/// The characters of a text that may be missing.
pub open spec fn opt_text(o: Option<String>) -> Option<Seq<char>> {
    match o {
        Some(s) => Some(s@),
        None => None,
    }
}

impl View for Embed {
    type V = EmbedView;

    open spec fn view(&self) -> EmbedView {
        EmbedView {
            title: self.title@,
            description: opt_text(self.description),
            thumbnail: opt_text(self.thumbnail),
            fields: self.fields@.map_values(|f: Field| f@),
        }
    }
}

/// A field with the given name and value.
pub fn field(name: &str, value: String, inline: bool) -> (r: Field)
    ensures
        r@ == (FieldView { name: name@, value: value@, inline }),
{
    Field { name: name.to_owned(), value, inline }
}

} // verus!
