use vstd::prelude::*;

use crate::xml::{
    attribute_text_element, lemma_attribute_text_element_read_back, start_attribute, start_text,
    AttributeName, ElementName, XmlEvent,
};

verus! {

/// Election domain of an election.
///
/// The (top level) region where the election takes place. Only needed if the
/// ElectionDomain is part of the election name, e.g. election of the council of
/// a municipality or province. Not needed e.g. for Tweede Kamer or European
/// Parliament.
#[derive(Debug, Clone, PartialEq, Eq)]
pub struct ElectionDomain {
    /// Identifier of the election domain, as the document spells it
    pub id: String,
    /// Name of the election domain
    pub name: String,
}

impl ElectionDomain {
    /// Create a new ElectionDomain
    pub fn new(id: String, name: String) -> (r: Self)
        ensures
            r.id == id,
            r.name == name,
    {
        ElectionDomain { id, name }
    }

    /// The events of this domain's element: the `Id` attribute and the name
    /// as text.
    pub open spec fn spec_events(self) -> Seq<XmlEvent> {
        seq![
            XmlEvent::Start(ElementName::ElectionDomain),
            XmlEvent::Attribute(AttributeName::Id, self.id),
            XmlEvent::Text(self.name),
            XmlEvent::End(ElementName::ElectionDomain),
        ]
    }

    /// Append the events of this domain's element to `out`.
    pub fn write_events(&self, out: &mut Vec<XmlEvent>)
        ensures
            final(out)@ == old(out)@ + self.spec_events(),
    {
        out.push(XmlEvent::Start(ElementName::ElectionDomain));
        out.push(XmlEvent::Attribute(AttributeName::Id, self.id.clone()));
        out.push(XmlEvent::Text(self.name.clone()));
        out.push(XmlEvent::End(ElementName::ElectionDomain));
    }
}

/// Reading back a written election domain: its `Id` attribute gives back its
/// id and its text its name.
pub proof fn lemma_election_domain_events_read_back(d: ElectionDomain)
    ensures
        start_attribute(d.spec_events(), AttributeName::Id) == Some(d.id),
        start_text(d.spec_events()) == Some(d.name),
{
    lemma_attribute_text_element_read_back(ElementName::ElectionDomain, AttributeName::Id, d.id, d.name);
    assert(d.spec_events() =~= attribute_text_element(
        ElementName::ElectionDomain,
        AttributeName::Id,
        d.id,
        d.name,
    ));
}

} // verus!
