//! The rich messages ("embeds") that the bot answers with, as plain data.
use vstd::prelude::*;

use crate::outside::colour_from_rgb;

verus! {

/// One titled field of an embed.
pub struct EmbedField {
    pub name: String,
    pub value: String,
    pub inline: bool,
}

/// An embed: its colour, title, description, thumbnail url, fields in order, and footer.
pub struct Embed {
    pub colour: u32,
    pub title: Option<String>,
    pub description: Option<String>,
    pub thumbnail: Option<String>,
    pub fields: Vec<EmbedField>,
    pub footer: Option<String>,
}

#[verifier::ext_equal]
pub struct EmbedView {
    pub colour: u32,
    pub title: Option<Seq<char>>,
    pub description: Option<Seq<char>>,
    pub thumbnail: Option<Seq<char>>,
    pub fields: Seq<(Seq<char>, Seq<char>, bool)>,
    pub footer: Option<Seq<char>>,
}

pub open spec fn opt_view(o: Option<String>) -> Option<Seq<char>> {
    match o {
        Some(s) => Some(s@),
        None => None,
    }
}

impl View for EmbedField {
    type V = (Seq<char>, Seq<char>, bool);

    open spec fn view(&self) -> (Seq<char>, Seq<char>, bool) {
        (self.name@, self.value@, self.inline)
    }
}

impl View for Embed {
    type V = EmbedView;

    open spec fn view(&self) -> EmbedView {
        EmbedView {
            colour: self.colour,
            title: opt_view(self.title),
            description: opt_view(self.description),
            thumbnail: opt_view(self.thumbnail),
            fields: self.fields@.map_values(|f: EmbedField| f@),
            footer: opt_view(self.footer),
        }
    }
}

/// The colour of every embed of the bot: cyan, red 0, green 255, blue 255.
pub open spec fn embed_colour() -> u32 {
    0x00ffff
}

/// The embed that every answer starts from: cyan, and nothing else set.
pub open spec fn base_embed() -> EmbedView {
    EmbedView {
        colour: embed_colour(),
        title: None,
        description: None,
        thumbnail: None,
        fields: Seq::empty(),
        footer: None,
    }
}

/// A field that is not inline.
pub open spec fn block_field(name: Seq<char>, value: Seq<char>) -> (Seq<char>, Seq<char>, bool) {
    (name, value, false)
}

/// Creates the basic embed that the other answers build on.
pub fn create_embed() -> (e: Embed)
    ensures
        e@ == base_embed(),
{
    let e = Embed {
        colour: colour_from_rgb(0, 255, 255),
        title: None,
        description: None,
        thumbnail: None,
        fields: Vec::new(),
        footer: None,
    };
    assert(e@.fields =~= Seq::<(Seq<char>, Seq<char>, bool)>::empty());
    e
}

impl Embed {
    /// Sets the title.
    pub fn set_title(&mut self, title: String)
        ensures
            final(self)@ == (EmbedView { title: Some(title@), ..old(self)@ }),
    {
        self.title = Some(title);
    }

    /// Sets the description.
    pub fn set_description(&mut self, description: String)
        ensures
            final(self)@ == (EmbedView { description: Some(description@), ..old(self)@ }),
    {
        self.description = Some(description);
    }

    /// Sets the thumbnail url.
    pub fn set_thumbnail(&mut self, url: String)
        ensures
            final(self)@ == (EmbedView { thumbnail: Some(url@), ..old(self)@ }),
    {
        self.thumbnail = Some(url);
    }

    /// Sets the footer text.
    pub fn set_footer(&mut self, text: String)
        ensures
            final(self)@ == (EmbedView { footer: Some(text@), ..old(self)@ }),
    {
        self.footer = Some(text);
    }

    /// Adds a field after the others.
    pub fn add_field(&mut self, name: String, value: String, inline: bool)
        ensures
            final(self)@ == (EmbedView {
                fields: old(self)@.fields.push((name@, value@, inline)),
                ..old(self)@
            }),
    {
        let ghost before = self@;
        self.fields.push(EmbedField { name, value, inline });
        assert(self@.fields =~= before.fields.push((name@, value@, inline)));
    }

    /// Adds a field that is not inline, from two literals.
    pub fn add_block_field(&mut self, name: &str, value: &str)
        ensures
            final(self)@ == (EmbedView {
                fields: old(self)@.fields.push(block_field(name@, value@)),
                ..old(self)@
            }),
    {
        self.add_field(String::from_str(name), String::from_str(value), false);
    }
}

} // verus!
