//! The outbound structured message: a payload of title, optional
//! description, ordered labelled fields, optional thumbnail and footer, and
//! a colour. A payload is assembled once per invocation and sent whole;
//! an edit replaces the previous payload entirely.

use vstd::prelude::*;

verus! {

/// Mathematical model of one labelled field.
#[verifier::ext_equal]
pub struct FieldModel {
    pub label: Seq<char>,
    pub value: Seq<char>,
    pub inline: bool,
}

/// Mathematical model of a whole payload.
#[verifier::ext_equal]
pub struct PayloadModel {
    pub title: Seq<char>,
    pub description: Option<Seq<char>>,
    pub fields: Seq<FieldModel>,
    pub thumbnail: Option<Seq<char>>,
    pub footer: Option<Seq<char>>,
    pub colour: u32,
}

/// One labelled field of a payload; `inline` fields share a row.
#[derive(Clone, Debug, PartialEq, Eq)]
pub struct EmbedField {
    pub label: String,
    pub value: String,
    pub inline: bool,
}

impl View for EmbedField {
    type V = FieldModel;

    open spec fn view(&self) -> FieldModel {
        FieldModel { label: self.label@, value: self.value@, inline: self.inline }
    }
}

/// The view of an optional string.
pub open spec fn opt_view(o: Option<String>) -> Option<Seq<char>> {
    match o {
        Some(s) => Some(s@),
        None => None,
    }
}

/// The structured message a handler emits.
#[derive(Clone, Debug, PartialEq, Eq)]
pub struct ResponsePayload {
    pub title: String,
    pub description: Option<String>,
    pub fields: Vec<EmbedField>,
    pub thumbnail: Option<String>,
    pub footer: Option<String>,
    pub colour: u32,
}

impl View for ResponsePayload {
    type V = PayloadModel;

    open spec fn view(&self) -> PayloadModel {
        PayloadModel {
            title: self.title@,
            description: opt_view(self.description),
            fields: self.fields@.map_values(|f: EmbedField| f@),
            thumbnail: opt_view(self.thumbnail),
            footer: opt_view(self.footer),
            colour: self.colour,
        }
    }
}

/// A fresh payload: a title and a colour, nothing else yet.
pub open spec fn new_model(title: Seq<char>, colour: u32) -> PayloadModel {
    PayloadModel {
        title: title,
        description: None,
        fields: Seq::empty(),
        thumbnail: None,
        footer: None,
        colour: colour,
    }
}

/// `m` with one more field appended.
pub open spec fn with_field(m: PayloadModel, label: Seq<char>, value: Seq<char>, inline: bool) -> PayloadModel {
    PayloadModel { fields: m.fields.push(FieldModel { label, value, inline }), ..m }
}

/// `m` with its description set.
pub open spec fn with_description(m: PayloadModel, d: Seq<char>) -> PayloadModel {
    PayloadModel { description: Some(d), ..m }
}

/// `m` with its thumbnail set.
pub open spec fn with_thumbnail(m: PayloadModel, t: Seq<char>) -> PayloadModel {
    PayloadModel { thumbnail: Some(t), ..m }
}

/// `m` with its footer set.
pub open spec fn with_footer(m: PayloadModel, f: Seq<char>) -> PayloadModel {
    PayloadModel { footer: Some(f), ..m }
}

impl ResponsePayload {
    /// Starts a payload from its title and colour.
    pub fn new(title: String, colour: u32) -> (r: Self)
        ensures
            r@ == new_model(title@, colour),
    {
        let r = ResponsePayload {
            title,
            description: None,
            fields: Vec::new(),
            thumbnail: None,
            footer: None,
            colour,
        };
        proof {
            assert(r@ =~~= new_model(r.title@, colour));
        }
        r
    }

    /// Appends one labelled field; field order is user-observable and is
    /// exactly the order of the calls.
    pub fn field(self, label: String, value: String, inline: bool) -> (r: Self)
        ensures
            r@ == with_field(self@, label@, value@, inline),
    {
        let ghost before = self@;
        let mut fields = self.fields;
        let ghost lv = label@;
        let ghost vv = value@;
        fields.push(EmbedField { label, value, inline });
        let r = ResponsePayload {
            title: self.title,
            description: self.description,
            fields,
            thumbnail: self.thumbnail,
            footer: self.footer,
            colour: self.colour,
        };
        proof {
            assert(r@ =~~= with_field(before, lv, vv, inline));
        }
        r
    }

    /// Sets the description.
    pub fn description(self, d: String) -> (r: Self)
        ensures
            r@ == with_description(self@, d@),
    {
        let ghost before = self@;
        let ghost dv = d@;
        let r = ResponsePayload { description: Some(d), ..self };
        proof {
            assert(r@ =~~= with_description(before, dv));
        }
        r
    }

    /// Sets the thumbnail reference.
    pub fn thumbnail(self, t: String) -> (r: Self)
        ensures
            r@ == with_thumbnail(self@, t@),
    {
        let ghost before = self@;
        let ghost tv = t@;
        let r = ResponsePayload { thumbnail: Some(t), ..self };
        proof {
            assert(r@ =~~= with_thumbnail(before, tv));
        }
        r
    }

    /// Sets the footer text.
    pub fn footer(self, f: String) -> (r: Self)
        ensures
            r@ == with_footer(self@, f@),
    {
        let ghost before = self@;
        let ghost fv = f@;
        let r = ResponsePayload { footer: Some(f), ..self };
        proof {
            assert(r@ =~~= with_footer(before, fv));
        }
        r
    }
}

} // verus!
