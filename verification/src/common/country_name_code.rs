use vstd::prelude::*;

use crate::xml::{
    lemma_four_optional_attributes, optional_attribute, push_optional_attribute, start_attribute,
    start_text, AttributeName, ElementName, XmlEvent,
};

verus! {

/// Country name code information.
#[derive(Debug, Clone, PartialEq, Eq)]
pub struct CountryNameCode {
    /// The country name code value.
    pub value: String,
    /// The Scheme attribute, if present.
    pub scheme: Option<String>,
    /// The Code attribute, if present.
    pub code: Option<String>,
}

impl CountryNameCode {
    /// Create a new CountryNameCode with the given value and no attributes.
    pub fn new(value: String) -> (r: Self)
        ensures
            r.value == value,
            r.scheme is None,
            r.code is None,
    {
        CountryNameCode { value, scheme: None, code: None }
    }

    /// The events of this element: the `Scheme` and `Code` attributes where
    /// present, and the value as text.
    pub open spec fn spec_events(self) -> Seq<XmlEvent> {
        seq![XmlEvent::Start(ElementName::CountryNameCode)] + optional_attribute(
            AttributeName::Scheme,
            self.scheme,
        ) + optional_attribute(AttributeName::Code, self.code) + seq![
            XmlEvent::Text(self.value),
            XmlEvent::End(ElementName::CountryNameCode),
        ]
    }

    /// Append the events of this element to `out`.
    pub fn write_events(&self, out: &mut Vec<XmlEvent>)
        ensures
            final(out)@ == old(out)@ + self.spec_events(),
    {
        out.push(XmlEvent::Start(ElementName::CountryNameCode));
        push_optional_attribute(out, AttributeName::Scheme, &self.scheme);
        push_optional_attribute(out, AttributeName::Code, &self.code);
        out.push(XmlEvent::Text(self.value.clone()));
        out.push(XmlEvent::End(ElementName::CountryNameCode));
    }
}

/// Reading back a written country name code: its `Scheme` and `Code`
/// attributes give back its scheme and code, each exactly when it has one,
/// and its text its value.
pub proof fn lemma_country_name_code_events_read_back(c: CountryNameCode)
    ensures
        start_attribute(c.spec_events(), AttributeName::Scheme) == c.scheme,
        start_attribute(c.spec_events(), AttributeName::Code) == c.code,
        start_text(c.spec_events()) == Some(c.value),
{
    let tail = seq![XmlEvent::Text(c.value), XmlEvent::End(ElementName::CountryNameCode)];
    assert(c.spec_events().drop_first() =~= optional_attribute(AttributeName::Id, None)
        + optional_attribute(AttributeName::DisplayOrder, None) + optional_attribute(
        AttributeName::Scheme,
        c.scheme,
    ) + optional_attribute(AttributeName::Code, c.code) + tail);
    lemma_four_optional_attributes(
        AttributeName::Id,
        None,
        AttributeName::DisplayOrder,
        None,
        AttributeName::Scheme,
        c.scheme,
        AttributeName::Code,
        c.code,
        tail,
        AttributeName::Scheme,
    );
    lemma_four_optional_attributes(
        AttributeName::Id,
        None,
        AttributeName::DisplayOrder,
        None,
        AttributeName::Scheme,
        c.scheme,
        AttributeName::Code,
        c.code,
        tail,
        AttributeName::Code,
    );
    assert(tail[0] == XmlEvent::Text(c.value));
}

} // verus!
