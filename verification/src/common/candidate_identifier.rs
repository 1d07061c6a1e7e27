use vstd::prelude::*;

use crate::xml::{
    lemma_four_optional_attributes, optional_attribute, push_optional_attribute, start_attribute,
    AttributeName, ElementName, XmlEvent,
};

verus! {

/// Candidate identifier, but not for 510 document types.
///
/// The identifier, display order and short code are held as the strings that
/// the document spells them with.
#[derive(Debug, Clone, PartialEq, Eq)]
pub struct CandidateIdentifier {
    /// The candidate id.
    pub id: String,
    /// The display order of the candidate.
    pub display_order: Option<String>,
    /// The short code of the candidate.
    pub short_code: Option<String>,
    /// The expected confirmation reference of the candidate.
    pub expected_confirmation_reference: Option<String>,
}

impl CandidateIdentifier {
    /// Create a new CandidateIdentifier.
    pub fn new(id: String) -> (r: Self)
        ensures
            r.id == id,
            r.display_order is None,
            r.short_code is None,
            r.expected_confirmation_reference is None,
    {
        CandidateIdentifier {
            id,
            display_order: None,
            short_code: None,
            expected_confirmation_reference: None,
        }
    }

    /// Build a CandidateIdentifier from what its element holds: the `Id`,
    /// `DisplayOrder`, `ShortCode` and `ExpectedConfirmationReference`
    /// attributes, and the text of a `ShortCode` child. The short code
    /// attribute takes precedence over the child.
    pub fn from_parts(
        id: String,
        display_order: Option<String>,
        short_code_attribute: Option<String>,
        expected_confirmation_reference: Option<String>,
        short_code_child: Option<String>,
    ) -> (r: Self)
        ensures
            r.id == id,
            r.display_order == display_order,
            r.short_code == (if short_code_attribute is Some {
                short_code_attribute
            } else {
                short_code_child
            }),
            r.expected_confirmation_reference == expected_confirmation_reference,
    {
        let short_code = match short_code_attribute {
            Some(s) => Some(s),
            None => short_code_child,
        };
        CandidateIdentifier { id, display_order, short_code, expected_confirmation_reference }
    }

    /// The events of this identifier's element: the `Id` attribute, then
    /// `DisplayOrder`, `ShortCode` and `ExpectedConfirmationReference` where
    /// present, and no content.
    pub open spec fn spec_events(self) -> Seq<XmlEvent> {
        seq![
            XmlEvent::Start(ElementName::CandidateIdentifier),
            XmlEvent::Attribute(AttributeName::Id, self.id),
        ] + optional_attribute(AttributeName::DisplayOrder, self.display_order)
            + optional_attribute(AttributeName::ShortCode, self.short_code)
            + optional_attribute(
            AttributeName::ExpectedConfirmationReference,
            self.expected_confirmation_reference,
        ) + seq![XmlEvent::End(ElementName::CandidateIdentifier)]
    }

    /// Append the events of this identifier's element to `out`.
    pub fn write_events(&self, out: &mut Vec<XmlEvent>)
        ensures
            final(out)@ == old(out)@ + self.spec_events(),
    {
        out.push(XmlEvent::Start(ElementName::CandidateIdentifier));
        out.push(XmlEvent::Attribute(AttributeName::Id, self.id.clone()));
        push_optional_attribute(out, AttributeName::DisplayOrder, &self.display_order);
        push_optional_attribute(out, AttributeName::ShortCode, &self.short_code);
        push_optional_attribute(
            out,
            AttributeName::ExpectedConfirmationReference,
            &self.expected_confirmation_reference,
        );
        out.push(XmlEvent::End(ElementName::CandidateIdentifier));
    }
}

/// Reading back a written candidate identifier: its `Id`, `DisplayOrder`,
/// `ShortCode` and `ExpectedConfirmationReference` attributes give back its
/// id, display order, short code and expected confirmation reference, each
/// exactly when it has one.
pub proof fn lemma_candidate_identifier_events_read_back(c: CandidateIdentifier)
    ensures
        start_attribute(c.spec_events(), AttributeName::Id) == Some(c.id),
        start_attribute(c.spec_events(), AttributeName::DisplayOrder) == c.display_order,
        start_attribute(c.spec_events(), AttributeName::ShortCode) == c.short_code,
        start_attribute(c.spec_events(), AttributeName::ExpectedConfirmationReference)
            == c.expected_confirmation_reference,
{
    let tail = seq![XmlEvent::End(ElementName::CandidateIdentifier)];
    let attrs = optional_attribute(AttributeName::Id, Some(c.id)) + optional_attribute(
        AttributeName::DisplayOrder,
        c.display_order,
    ) + optional_attribute(AttributeName::ShortCode, c.short_code) + optional_attribute(
        AttributeName::ExpectedConfirmationReference,
        c.expected_confirmation_reference,
    ) + tail;
    assert(c.spec_events().drop_first() =~= attrs);
    assert forall|a: AttributeName| #[trigger] start_attribute(c.spec_events(), a) == if a
        == AttributeName::Id {
        Some(c.id)
    } else if a == AttributeName::DisplayOrder {
        c.display_order
    } else if a == AttributeName::ShortCode {
        c.short_code
    } else if a == AttributeName::ExpectedConfirmationReference {
        c.expected_confirmation_reference
    } else {
        None::<String>
    } by {
        lemma_four_optional_attributes(
            AttributeName::Id,
            Some(c.id),
            AttributeName::DisplayOrder,
            c.display_order,
            AttributeName::ShortCode,
            c.short_code,
            AttributeName::ExpectedConfirmationReference,
            c.expected_confirmation_reference,
            tail,
            a,
        );
    }
}

} // verus!
