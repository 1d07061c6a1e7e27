use vstd::prelude::*;

use crate::common::CountryNameCode;
use crate::xml::{
    lemma_last_text_of_found, last_text_of, no_end_of, push_text_element, read_error,
    text_element, ChildName, ElementName, QName, ReadError, ReadErrorKind, Span, XmlEvent,
};

verus! {

/// The minimal details for a qualifying address
#[derive(Debug, Clone, PartialEq, Eq)]
pub enum MinimalQualifyingAddress {
    /// This qualifying address is a locality
    Locality(MinimalQualifyingAddressLocality),
    /// This qualifying address is a country
    Country(MinimalQualifyingAddressCountry),
}

/// The minimal details for locality in a qualifying address
#[derive(Debug, Clone, PartialEq, Eq)]
pub struct MinimalQualifyingAddressLocality {
    /// Name of the locality
    pub locality_name: String,
}

/// The minimal details for country in a qualifying address
#[derive(Debug, Clone, PartialEq, Eq)]
pub struct MinimalQualifyingAddressCountry {
    /// The country name code.
    pub country_name_code: CountryNameCode,
    /// The locality within the country.
    pub locality: MinimalQualifyingAddressLocality,
}

impl MinimalQualifyingAddressLocality {
    /// The events of an `xal:Locality` element: its `xal:LocalityName` child,
    /// which holds the name as text.
    pub open spec fn spec_events(self) -> Seq<XmlEvent> {
        seq![XmlEvent::Start(ElementName::Locality)] + text_element(
            ElementName::LocalityName,
            self.locality_name,
        ) + seq![XmlEvent::End(ElementName::Locality)]
    }

    /// Append the events of this element to `out`.
    pub fn write_events(&self, out: &mut Vec<XmlEvent>)
        ensures
            final(out)@ == old(out)@ + self.spec_events(),
    {
        out.push(XmlEvent::Start(ElementName::Locality));
        push_text_element(out, ElementName::LocalityName, &self.locality_name);
        out.push(XmlEvent::End(ElementName::Locality));
    }
}

impl MinimalQualifyingAddressCountry {
    /// The events of an `xal:Country` element: its country name code, then
    /// its locality.
    pub open spec fn spec_events(self) -> Seq<XmlEvent> {
        seq![XmlEvent::Start(ElementName::Country)] + self.country_name_code.spec_events()
            + self.locality.spec_events() + seq![XmlEvent::End(ElementName::Country)]
    }

    /// Append the events of this element to `out`.
    pub fn write_events(&self, out: &mut Vec<XmlEvent>)
        ensures
            final(out)@ == old(out)@ + self.spec_events(),
    {
        out.push(XmlEvent::Start(ElementName::Country));
        self.country_name_code.write_events(out);
        self.locality.write_events(out);
        out.push(XmlEvent::End(ElementName::Country));
    }
}

/// A child element of a qualifying address, already read, with the span of
/// its element.
#[derive(Debug)]
pub enum AddressChild {
    /// An `xal:Locality` child.
    Locality(MinimalQualifyingAddressLocality, Span),
    /// An `xal:Country` child.
    Country(MinimalQualifyingAddressCountry, Span),
    /// Any other child element.
    Other(QName, Span),
}

/// The address that the children choose: the first `Locality` or `Country`
/// child, if there is one.
pub open spec fn address_choice(cs: Seq<AddressChild>) -> Option<MinimalQualifyingAddress>
    decreases cs.len(),
{
    if cs.len() == 0 {
        None
    } else {
        let prev = address_choice(cs.drop_last());
        if prev is Some {
            prev
        } else {
            match cs.last() {
                AddressChild::Locality(l, _) => Some(MinimalQualifyingAddress::Locality(l)),
                AddressChild::Country(c, _) => Some(MinimalQualifyingAddress::Country(c)),
                AddressChild::Other(..) => None,
            }
        }
    }
}

/// One unexpected element error for each child, in order, that may not stand
/// in the address: a `Locality` or `Country` after the chosen one, and any
/// other element, each at the span of the child's element.
pub open spec fn address_unexpected(cs: Seq<AddressChild>) -> Seq<ReadError>
    decreases cs.len(),
{
    if cs.len() == 0 {
        seq![]
    } else {
        let prev = address_unexpected(cs.drop_last());
        let chosen = address_choice(cs.drop_last()) is Some;
        match cs.last() {
            AddressChild::Locality(_, span) => if chosen {
                prev.push(
                    read_error(
                        ReadErrorKind::UnexpectedElement(
                            ChildName::Known(ElementName::Locality),
                            ElementName::QualifyingAddress,
                        ),
                        span,
                    ),
                )
            } else {
                prev
            },
            AddressChild::Country(_, span) => if chosen {
                prev.push(
                    read_error(
                        ReadErrorKind::UnexpectedElement(
                            ChildName::Known(ElementName::Country),
                            ElementName::QualifyingAddress,
                        ),
                        span,
                    ),
                )
            } else {
                prev
            },
            AddressChild::Other(q, span) => prev.push(
                read_error(
                    ReadErrorKind::UnexpectedElement(
                        ChildName::Unknown(q),
                        ElementName::QualifyingAddress,
                    ),
                    span,
                ),
            ),
        }
    }
}

impl MinimalQualifyingAddress {
    /// Read a qualifying address from its children, in document order;
    /// `full_span` is the span of the whole address element.
    ///
    /// The first `Locality` or `Country` child is the address. Every later
    /// one, and every other child, is unexpected, at the span of its element:
    /// in strict mode the first of them is the error, in lax mode each is
    /// recorded in the second result and reading goes on. Without a
    /// `Locality` or `Country` child the error is
    /// `MissingChoiceElements([Country, Locality])` at `full_span`.
    pub fn from_children(children: Vec<AddressChild>, full_span: Span, strict: bool) -> (r: (
        Result<MinimalQualifyingAddress, ReadError>,
        Vec<ReadError>,
    ))
        ensures
            strict && address_unexpected(children@).len() > 0 ==> {
                &&& r.0 == Err::<MinimalQualifyingAddress, ReadError>(
                    address_unexpected(children@)[0],
                )
                &&& r.1@ == Seq::<ReadError>::empty()
            },
            !(strict && address_unexpected(children@).len() > 0) ==> {
                &&& r.1@ == (if strict {
                    Seq::<ReadError>::empty()
                } else {
                    address_unexpected(children@)
                })
                &&& match address_choice(children@) {
                    Some(a) => r.0 == Ok::<MinimalQualifyingAddress, ReadError>(a),
                    None => r.0 matches Err(e) && (e.span == Some(full_span) && (
                    e.kind matches ReadErrorKind::MissingChoiceElements(v) && v@ == seq![
                        ElementName::Country,
                        ElementName::Locality,
                    ])),
                }
            },
    {
        let ghost all = children@;
        let mut rest = children;
        let ghost mut k: int = 0;
        let mut chosen: Option<MinimalQualifyingAddress> = None;
        let mut unexpected: Vec<ReadError> = Vec::new();
        assert(all.take(0) =~= Seq::<AddressChild>::empty());
        while rest.len() > 0
            invariant
                0 <= k <= all.len(),
                rest@ == all.skip(k),
                chosen == address_choice(all.take(k)),
                unexpected@ == address_unexpected(all.take(k)),
            decreases rest.len(),
        {
            let child = rest.remove(0);
            proof {
                assert(all.take(k + 1).drop_last() =~= all.take(k));
                assert(all.take(k + 1).last() == child);
                assert(rest@ =~= all.skip(k + 1));
            }
            match child {
                AddressChild::Locality(l, span) => {
                    if chosen.is_none() {
                        chosen = Some(MinimalQualifyingAddress::Locality(l));
                    } else {
                        unexpected.push(
                            ReadError::at(
                                ReadErrorKind::UnexpectedElement(
                                    ChildName::Known(ElementName::Locality),
                                    ElementName::QualifyingAddress,
                                ),
                                span,
                            ),
                        );
                    }
                },
                AddressChild::Country(c, span) => {
                    if chosen.is_none() {
                        chosen = Some(MinimalQualifyingAddress::Country(c));
                    } else {
                        unexpected.push(
                            ReadError::at(
                                ReadErrorKind::UnexpectedElement(
                                    ChildName::Known(ElementName::Country),
                                    ElementName::QualifyingAddress,
                                ),
                                span,
                            ),
                        );
                    }
                },
                AddressChild::Other(q, span) => {
                    unexpected.push(
                        ReadError::at(
                            ReadErrorKind::UnexpectedElement(
                                ChildName::Unknown(q),
                                ElementName::QualifyingAddress,
                            ),
                            span,
                        ),
                    );
                },
            }
            proof {
                k = k + 1;
            }
        }
        assert(all.take(k) =~= all);
        if strict && unexpected.len() > 0 {
            let first = unexpected.remove(0);
            return (Err(first), Vec::new());
        }
        let warnings = if strict {
            Vec::new()
        } else {
            unexpected
        };
        match chosen {
            Some(a) => (Ok(a), warnings),
            None => (
                Err(
                    ReadError::at(
                        ReadErrorKind::MissingChoiceElements(
                            vec![ElementName::Country, ElementName::Locality],
                        ),
                        full_span,
                    ),
                ),
                warnings,
            ),
        }
    }

    /// The events of a qualifying address element: it is written empty.
    pub open spec fn spec_events(self) -> Seq<XmlEvent> {
        seq![
            XmlEvent::Start(ElementName::QualifyingAddress),
            XmlEvent::End(ElementName::QualifyingAddress),
        ]
    }

    /// Append the events of this address's element to `out`.
    pub fn write_events(&self, out: &mut Vec<XmlEvent>)
        ensures
            final(out)@ == old(out)@ + self.spec_events(),
    {
        out.push(XmlEvent::Start(ElementName::QualifyingAddress));
        out.push(XmlEvent::End(ElementName::QualifyingAddress));
    }
}


/// Reading back a chosen address: an address element whose only child is a
/// `Locality` or `Country`, wherever that child stands, reads as that
/// address, with nothing unexpected.
pub proof fn lemma_address_single_child(a: MinimalQualifyingAddress, span: Span)
    ensures
        ({
            let cs = seq![
                match a {
                    MinimalQualifyingAddress::Locality(l) => AddressChild::Locality(l, span),
                    MinimalQualifyingAddress::Country(c) => AddressChild::Country(c, span),
                },
            ];
            &&& address_choice(cs) == Some(a)
            &&& address_unexpected(cs).len() == 0
        }),
{
    let cs = seq![
        match a {
            MinimalQualifyingAddress::Locality(l) => AddressChild::Locality(l, span),
            MinimalQualifyingAddress::Country(c) => AddressChild::Country(c, span),
        },
    ];
    reveal_with_fuel(address_choice, 2);
    reveal_with_fuel(address_unexpected, 2);
    assert(cs.drop_last() =~= Seq::<AddressChild>::empty());
}

/// Reading back a written locality: `xal:LocalityName` holds its name.
pub proof fn lemma_locality_events_read_back(l: MinimalQualifyingAddressLocality)
    ensures
        last_text_of(l.spec_events(), ElementName::LocalityName) == Some(l.locality_name),
{
    let z = seq![XmlEvent::End(ElementName::Locality)];
    assert(no_end_of(z, ElementName::LocalityName));
    lemma_last_text_of_found(
        seq![XmlEvent::Start(ElementName::Locality)],
        l.locality_name,
        z,
        ElementName::LocalityName,
    );
}

/// Reading back a written country: `xal:LocalityName` holds the name of its
/// locality, and its country name code element comes first after its start.
pub proof fn lemma_country_events_read_back(c: MinimalQualifyingAddressCountry)
    ensures
        last_text_of(c.spec_events(), ElementName::LocalityName) == Some(
            c.locality.locality_name,
        ),
        c.spec_events().subrange(1, 1 + c.country_name_code.spec_events().len() as int)
            == c.country_name_code.spec_events(),
{
    let h = seq![XmlEvent::Start(ElementName::Country)] + c.country_name_code.spec_events()
        + seq![XmlEvent::Start(ElementName::Locality)];
    let z = seq![XmlEvent::End(ElementName::Locality), XmlEvent::End(ElementName::Country)];
    assert(no_end_of(z, ElementName::LocalityName));
    lemma_last_text_of_found(h, c.locality.locality_name, z, ElementName::LocalityName);
    assert(c.spec_events() =~= h + text_element(ElementName::LocalityName, c.locality.locality_name)
        + z);
    assert(c.spec_events().subrange(1, 1 + c.country_name_code.spec_events().len() as int)
        =~= c.country_name_code.spec_events());
}

} // verus!
