//! The plain-value view of EML markup that the document types are read from
//! and written to.
//!
//! Reading: the caller walks the XML, reads each child element into a value
//! and hands the children, in document order, to a verified step that decides
//! what the element is. Writing: a verified step lists the events of an
//! element (start, attributes, text, children, end) in document order, and the
//! caller prints them.

use vstd::prelude::*;

verus! {

/// The XML namespaces of EML_NL.
#[derive(Debug, Clone, Copy, PartialEq, Eq, Structural)]
pub enum Namespace {
    /// The EML namespace `urn:oasis:names:tc:evs:schema:eml`.
    Eml,
    /// The Kiesraad extensions namespace `http://www.kiesraad.nl/extensions`.
    Kr,
    /// The xAL address namespace.
    Xal,
}

/// The elements that the document types read and write.
#[derive(Debug, Clone, Copy, PartialEq, Eq, Structural)]
pub enum ElementName {
    /// `CandidateIdentifier`
    CandidateIdentifier,
    /// `ShortCode`
    ShortCode,
    /// `Selection`
    Selection,
    /// `Candidate`
    Candidate,
    /// `CandidateFullName`
    CandidateFullName,
    /// `Gender`
    Gender,
    /// `AffiliationIdentifier`
    AffiliationIdentifier,
    /// `RegisteredName`
    RegisteredName,
    /// `ReferendumOptionIdentifier`
    ReferendumOptionIdentifier,
    /// `ValidVotes`
    ValidVotes,
    /// `Votes`
    Votes,
    /// `Ranking`
    Ranking,
    /// `Elected`
    Elected,
    /// `QualifyingAddress`
    QualifyingAddress,
    /// `ReportingUnitVotes`
    ReportingUnitVotes,
    /// `ReportingUnitIdentifier`
    ReportingUnitIdentifier,
    /// `TotalVotes`
    TotalVotes,
    /// `Cast`
    Cast,
    /// `TotalCounted`
    TotalCounted,
    /// `RejectedVotes`
    RejectedVotes,
    /// `UncountedVotes`
    UncountedVotes,
    /// `ElectionIdentifier`
    ElectionIdentifier,
    /// `ElectionName`
    ElectionName,
    /// `ElectionCategory`
    ElectionCategory,
    /// `kr:ElectionSubcategory`
    ElectionSubcategory,
    /// `kr:ElectionDomain`
    ElectionDomain,
    /// `kr:ElectionDate`
    ElectionDate,
    /// `kr:ReportingUnitInvestigations`
    ReportingUnitInvestigations,
    /// `kr:Investigation`
    Investigation,
    /// `xal:Locality`
    Locality,
    /// `xal:Country`
    Country,
    /// `xal:CountryNameCode`
    CountryNameCode,
    /// `xal:LocalityName`
    LocalityName,
    /// `kr:ElectionTree`
    ElectionTree,
    /// `kr:Region`
    Region,
}

impl ElementName {
    /// The namespace of this element.
    pub open spec fn spec_namespace(self) -> Namespace {
        match self {
            ElementName::ElectionSubcategory | ElementName::ElectionDomain
            | ElementName::ElectionDate | ElementName::ReportingUnitInvestigations
            | ElementName::Investigation | ElementName::ElectionTree
            | ElementName::Region => Namespace::Kr,
            ElementName::Locality | ElementName::Country | ElementName::CountryNameCode
            | ElementName::LocalityName => Namespace::Xal,
            _ => Namespace::Eml,
        }
    }

    /// The namespace of this element.
    pub fn namespace(&self) -> (r: Namespace)
        ensures
            r == self.spec_namespace(),
    {
        match self {
            ElementName::ElectionSubcategory | ElementName::ElectionDomain
            | ElementName::ElectionDate | ElementName::ReportingUnitInvestigations
            | ElementName::Investigation | ElementName::ElectionTree
            | ElementName::Region => Namespace::Kr,
            ElementName::Locality | ElementName::Country | ElementName::CountryNameCode
            | ElementName::LocalityName => Namespace::Xal,
            _ => Namespace::Eml,
        }
    }

    /// The local name of this element.
    pub open spec fn spec_local_name(self) -> Seq<char> {
        match self {
            ElementName::CandidateIdentifier => "CandidateIdentifier"@,
            ElementName::ShortCode => "ShortCode"@,
            ElementName::Selection => "Selection"@,
            ElementName::Candidate => "Candidate"@,
            ElementName::CandidateFullName => "CandidateFullName"@,
            ElementName::Gender => "Gender"@,
            ElementName::AffiliationIdentifier => "AffiliationIdentifier"@,
            ElementName::RegisteredName => "RegisteredName"@,
            ElementName::ReferendumOptionIdentifier => "ReferendumOptionIdentifier"@,
            ElementName::ValidVotes => "ValidVotes"@,
            ElementName::Votes => "Votes"@,
            ElementName::Ranking => "Ranking"@,
            ElementName::Elected => "Elected"@,
            ElementName::QualifyingAddress => "QualifyingAddress"@,
            ElementName::ReportingUnitVotes => "ReportingUnitVotes"@,
            ElementName::ReportingUnitIdentifier => "ReportingUnitIdentifier"@,
            ElementName::TotalVotes => "TotalVotes"@,
            ElementName::Cast => "Cast"@,
            ElementName::TotalCounted => "TotalCounted"@,
            ElementName::RejectedVotes => "RejectedVotes"@,
            ElementName::UncountedVotes => "UncountedVotes"@,
            ElementName::ElectionIdentifier => "ElectionIdentifier"@,
            ElementName::ElectionName => "ElectionName"@,
            ElementName::ElectionCategory => "ElectionCategory"@,
            ElementName::ElectionSubcategory => "ElectionSubcategory"@,
            ElementName::ElectionDomain => "ElectionDomain"@,
            ElementName::ElectionDate => "ElectionDate"@,
            ElementName::ReportingUnitInvestigations => "ReportingUnitInvestigations"@,
            ElementName::Investigation => "Investigation"@,
            ElementName::Locality => "Locality"@,
            ElementName::Country => "Country"@,
            ElementName::CountryNameCode => "CountryNameCode"@,
            ElementName::LocalityName => "LocalityName"@,
            ElementName::ElectionTree => "ElectionTree"@,
            ElementName::Region => "Region"@,
        }
    }

    /// The local name of this element.
    pub fn local_name(&self) -> (r: &'static str)
        ensures
            r@ == self.spec_local_name(),
    {
        match self {
            ElementName::CandidateIdentifier => "CandidateIdentifier",
            ElementName::ShortCode => "ShortCode",
            ElementName::Selection => "Selection",
            ElementName::Candidate => "Candidate",
            ElementName::CandidateFullName => "CandidateFullName",
            ElementName::Gender => "Gender",
            ElementName::AffiliationIdentifier => "AffiliationIdentifier",
            ElementName::RegisteredName => "RegisteredName",
            ElementName::ReferendumOptionIdentifier => "ReferendumOptionIdentifier",
            ElementName::ValidVotes => "ValidVotes",
            ElementName::Votes => "Votes",
            ElementName::Ranking => "Ranking",
            ElementName::Elected => "Elected",
            ElementName::QualifyingAddress => "QualifyingAddress",
            ElementName::ReportingUnitVotes => "ReportingUnitVotes",
            ElementName::ReportingUnitIdentifier => "ReportingUnitIdentifier",
            ElementName::TotalVotes => "TotalVotes",
            ElementName::Cast => "Cast",
            ElementName::TotalCounted => "TotalCounted",
            ElementName::RejectedVotes => "RejectedVotes",
            ElementName::UncountedVotes => "UncountedVotes",
            ElementName::ElectionIdentifier => "ElectionIdentifier",
            ElementName::ElectionName => "ElectionName",
            ElementName::ElectionCategory => "ElectionCategory",
            ElementName::ElectionSubcategory => "ElectionSubcategory",
            ElementName::ElectionDomain => "ElectionDomain",
            ElementName::ElectionDate => "ElectionDate",
            ElementName::ReportingUnitInvestigations => "ReportingUnitInvestigations",
            ElementName::Investigation => "Investigation",
            ElementName::Locality => "Locality",
            ElementName::Country => "Country",
            ElementName::CountryNameCode => "CountryNameCode",
            ElementName::LocalityName => "LocalityName",
            ElementName::ElectionTree => "ElectionTree",
            ElementName::Region => "Region",
        }
    }
}

/// The attributes that the document types read and write.
#[derive(Debug, Clone, Copy, PartialEq, Eq, Structural)]
pub enum AttributeName {
    /// `Id`
    Id,
    /// `DisplayOrder`
    DisplayOrder,
    /// `ShortCode`
    ShortCode,
    /// `ExpectedConfirmationReference`
    ExpectedConfirmationReference,
    /// `ReasonCode`
    ReasonCode,
    /// `Value`
    Value,
    /// `Category`
    Category,
    /// `Scheme`
    Scheme,
    /// `Code`
    Code,
}

/// The name of an element as found in a document: a namespace URI, if any,
/// and a local name.
#[derive(Debug, Clone, PartialEq, Eq)]
pub struct QName {
    /// The namespace URI, if the element has one.
    pub namespace: Option<String>,
    /// The local name.
    pub local: String,
}

/// The name of a child element that was not expected where it was found.
#[derive(Debug, Clone, PartialEq, Eq)]
pub enum ChildName {
    /// An element that the library knows, found in a place where it may not stand.
    Known(ElementName),
    /// Any other element.
    Unknown(QName),
}

/// Why an element could not be read (or, in lax reading, what was wrong with it).
#[derive(Debug, Clone, PartialEq, Eq)]
pub enum ReadErrorKind {
    /// The child element (first field) may not stand in the parent (second field).
    UnexpectedElement(ChildName, ElementName),
    /// A required child element is missing.
    MissingElement(ElementName),
    /// A selection has none of its possible selection type children.
    MissingSelectionType,
    /// None of the listed elements, one of which is required, was found.
    MissingChoiceElements(Vec<ElementName>),
    /// No `RejectedVotes` with ReasonCode `blanco` was found.
    MissingRejectedVotesBlank,
    /// No `RejectedVotes` with ReasonCode `ongeldig` was found.
    MissingRejectedVotesInvalid,
    /// A value could not be parsed; it holds that value.
    InvalidValue(String),
    /// The document's `Id` is not one that the document type accepts: it
    /// holds the ids that are accepted, as one text, and the id found.
    InvalidDocumentType(&'static str, String),
}

/// A stretch of the document text, as the offsets of its first byte and of
/// the byte after its last.
#[derive(Debug, Clone, Copy, PartialEq, Eq, Structural)]
pub struct Span {
    /// Offset of the first byte.
    pub start: usize,
    /// Offset of the byte after the last.
    pub end: usize,
}

/// An error found in reading: what is wrong, and where in the document it
/// was found, where that is known.
#[derive(Debug, Clone, PartialEq, Eq)]
pub struct ReadError {
    /// What is wrong.
    pub kind: ReadErrorKind,
    /// Where it was found.
    pub span: Option<Span>,
}

/// The error of the given kind, found at the given span.
pub open spec fn read_error(kind: ReadErrorKind, span: Span) -> ReadError {
    ReadError { kind, span: Some(span) }
}

impl ReadError {
    /// An error of the given kind, found at the given span.
    pub fn at(kind: ReadErrorKind, span: Span) -> (r: ReadError)
        ensures
            r == read_error(kind, span),
    {
        ReadError { kind, span: Some(span) }
    }
}

/// One step of writing an element, in document order.
#[derive(Debug, Clone, PartialEq, Eq)]
pub enum XmlEvent {
    /// The start of an element.
    Start(ElementName),
    /// An attribute of the element most recently started.
    Attribute(AttributeName, String),
    /// An attribute of the element most recently started, with a fixed value.
    FixedAttribute(AttributeName, &'static str),
    /// Text content.
    Text(String),
    /// The end of an element.
    End(ElementName),
}

/// An element that holds only the given text.
pub open spec fn text_element(name: ElementName, text: String) -> Seq<XmlEvent> {
    seq![XmlEvent::Start(name), XmlEvent::Text(text), XmlEvent::End(name)]
}

/// The attribute, if it has a value; nothing otherwise.
pub open spec fn optional_attribute(name: AttributeName, value: Option<String>) -> Seq<XmlEvent> {
    match value {
        Some(v) => seq![XmlEvent::Attribute(name, v)],
        None => seq![],
    }
}

/// The text element, if it has a value; nothing otherwise.
pub open spec fn optional_text_element(name: ElementName, value: Option<String>) -> Seq<XmlEvent> {
    match value {
        Some(v) => text_element(name, v),
        None => seq![],
    }
}

/// Append an element that holds only the given text.
pub fn push_text_element(out: &mut Vec<XmlEvent>, name: ElementName, text: &String)
    ensures
        final(out)@ == old(out)@ + text_element(name, *text),
{
    out.push(XmlEvent::Start(name));
    out.push(XmlEvent::Text(text.clone()));
    out.push(XmlEvent::End(name));
}

/// Append the attribute if it has a value.
pub fn push_optional_attribute(out: &mut Vec<XmlEvent>, name: AttributeName, value: &Option<String>)
    ensures
        final(out)@ == old(out)@ + optional_attribute(name, *value),
{
    match value {
        Some(v) => out.push(XmlEvent::Attribute(name, v.clone())),
        None => {},
    }
}

/// Append the text element if it has a value.
pub fn push_optional_text_element(out: &mut Vec<XmlEvent>, name: ElementName, value: &Option<String>)
    ensures
        final(out)@ == old(out)@ + optional_text_element(name, *value),
{
    match value {
        Some(v) => push_text_element(out, name, v),
        None => {},
    }
}

/// Reading a text-only child back from events: the text of the last element
/// named `name` that holds only text, that is, of the last place in `events`
/// where `Start(name)`, `Text(t)` and `End(name)` follow one another.
pub open spec fn last_text_of(events: Seq<XmlEvent>, name: ElementName) -> Option<String>
    decreases events.len(),
{
    if events.len() < 3 {
        None
    } else {
        let n = events.len() as int;
        match (events[n - 3], events[n - 2], events[n - 1]) {
            (XmlEvent::Start(a), XmlEvent::Text(t), XmlEvent::End(b)) => if a == name && b
                == name {
                Some(t)
            } else {
                last_text_of(events.drop_last(), name)
            },
            _ => last_text_of(events.drop_last(), name),
        }
    }
}

/// Whether no element named `name` ends among `events`.
pub open spec fn no_end_of(events: Seq<XmlEvent>, name: ElementName) -> bool {
    forall|i: int| 0 <= i < events.len() ==> events[i] != XmlEvent::End(name)
}

/// No element ends in a concatenation exactly when none ends in either part.
pub proof fn lemma_no_end_of_concat(a: Seq<XmlEvent>, b: Seq<XmlEvent>, name: ElementName)
    ensures
        no_end_of(a + b, name) <==> (no_end_of(a, name) && no_end_of(b, name)),
{
    if no_end_of(a + b, name) {
        assert forall|i: int| 0 <= i < a.len() implies a[i] != XmlEvent::End(name) by {
            assert((a + b)[i] == a[i]);
        }
        assert forall|i: int| 0 <= i < b.len() implies b[i] != XmlEvent::End(name) by {
            assert((a + b)[a.len() + i] == b[i]);
        }
    }
}

/// Events in which no element named `name` ends, written after `p`, leave
/// the text read for `name` as it was after `p`.
pub proof fn lemma_last_text_of_skips(p: Seq<XmlEvent>, q: Seq<XmlEvent>, name: ElementName)
    requires
        no_end_of(q, name),
    ensures
        last_text_of(p + q, name) == last_text_of(p, name),
    decreases q.len(),
{
    if q.len() == 0 {
        assert(p + q =~= p);
    } else {
        let r = q.drop_last();
        assert(no_end_of(r, name)) by {
            assert forall|i: int| 0 <= i < r.len() implies r[i] != XmlEvent::End(name) by {
                assert(r[i] == q[i]);
            }
        }
        lemma_last_text_of_skips(p, r, name);
        assert((p + q).drop_last() =~= p + r);
        assert((p + q)[(p + q).len() - 1] == q[q.len() - 1]);
    }
}

/// A text element named `name`, followed only by events in which no element
/// named `name` ends, is what is read back for `name`.
pub proof fn lemma_last_text_of_found(
    p: Seq<XmlEvent>,
    text: String,
    q: Seq<XmlEvent>,
    name: ElementName,
)
    requires
        no_end_of(q, name),
    ensures
        last_text_of(p + text_element(name, text) + q, name) == Some(text),
{
    let e = p + text_element(name, text);
    lemma_last_text_of_skips(e, q, name);
    let n = e.len() as int;
    assert(e[n - 3] == XmlEvent::Start(name));
    assert(e[n - 2] == XmlEvent::Text(text));
    assert(e[n - 1] == XmlEvent::End(name));
}

/// Events in which no element named `name` ends give nothing to read for
/// `name`.
pub proof fn lemma_last_text_of_absent(q: Seq<XmlEvent>, name: ElementName)
    requires
        no_end_of(q, name),
    ensures
        last_text_of(q, name) is None,
{
    let e = Seq::<XmlEvent>::empty();
    lemma_last_text_of_skips(e, q, name);
    assert(e + q =~= q);
}

/// Among the attribute events at the front of `events`, the value of the
/// first `Attribute` named `attr`; reading stops at the first event that is
/// not an attribute.
pub open spec fn leading_attribute(events: Seq<XmlEvent>, attr: AttributeName) -> Option<String>
    decreases events.len(),
{
    if events.len() == 0 {
        None
    } else {
        match events[0] {
            XmlEvent::Attribute(a, v) => if a == attr {
                Some(v)
            } else {
                leading_attribute(events.drop_first(), attr)
            },
            XmlEvent::FixedAttribute(_, _) => leading_attribute(events.drop_first(), attr),
            _ => None,
        }
    }
}

/// Reading an attribute back from the events of an element: the value of
/// the attribute named `attr` among those that directly follow the
/// element's start.
pub open spec fn start_attribute(events: Seq<XmlEvent>, attr: AttributeName) -> Option<String> {
    if events.len() == 0 {
        None
    } else {
        leading_attribute(events.drop_first(), attr)
    }
}

/// The text that directly follows the attribute events at the front of
/// `events`, if a text event does.
pub open spec fn leading_text(events: Seq<XmlEvent>) -> Option<String>
    decreases events.len(),
{
    if events.len() == 0 {
        None
    } else {
        match events[0] {
            XmlEvent::Attribute(_, _) => leading_text(events.drop_first()),
            XmlEvent::FixedAttribute(_, _) => leading_text(events.drop_first()),
            XmlEvent::Text(t) => Some(t),
            _ => None,
        }
    }
}

/// Reading the text of an element that holds text after its attributes:
/// the text event that directly follows the element's start and attributes.
pub open spec fn start_text(events: Seq<XmlEvent>) -> Option<String> {
    if events.len() == 0 {
        None
    } else {
        leading_text(events.drop_first())
    }
}

/// An optional attribute at the front gives its value when it is there and
/// has the name read for; otherwise reading goes on past it.
pub proof fn lemma_leading_attribute_optional(
    name: AttributeName,
    value: Option<String>,
    rest: Seq<XmlEvent>,
    attr: AttributeName,
)
    ensures
        leading_attribute(optional_attribute(name, value) + rest, attr) == if name == attr
            && value is Some {
            value
        } else {
            leading_attribute(rest, attr)
        },
        leading_text(optional_attribute(name, value) + rest) == leading_text(rest),
{
    match value {
        Some(v) => {
            let e = optional_attribute(name, value) + rest;
            assert(e[0] == XmlEvent::Attribute(name, v));
            assert(e.drop_first() =~= rest);
        },
        None => {
            assert(optional_attribute(name, value) + rest =~= rest);
        },
    }
}

/// Reading the attributes of a start tag made of four optional attributes
/// with distinct names, followed by an event that is not an attribute: each
/// name reads as its own value, any other name as nothing, and the text is
/// what follows the attributes.
pub proof fn lemma_four_optional_attributes(
    n1: AttributeName,
    v1: Option<String>,
    n2: AttributeName,
    v2: Option<String>,
    n3: AttributeName,
    v3: Option<String>,
    n4: AttributeName,
    v4: Option<String>,
    tail: Seq<XmlEvent>,
    attr: AttributeName,
)
    requires
        n1 != n2 && n1 != n3 && n1 != n4 && n2 != n3 && n2 != n4 && n3 != n4,
        tail.len() > 0,
        !(tail[0] is Attribute),
        !(tail[0] is FixedAttribute),
    ensures
        leading_attribute(
            optional_attribute(n1, v1) + optional_attribute(n2, v2) + optional_attribute(n3, v3)
                + optional_attribute(n4, v4) + tail,
            attr,
        ) == if attr == n1 {
            v1
        } else if attr == n2 {
            v2
        } else if attr == n3 {
            v3
        } else if attr == n4 {
            v4
        } else {
            None::<String>
        },
        leading_text(
            optional_attribute(n1, v1) + optional_attribute(n2, v2) + optional_attribute(n3, v3)
                + optional_attribute(n4, v4) + tail,
        ) == leading_text(tail),
{
    let a1 = optional_attribute(n1, v1);
    let a2 = optional_attribute(n2, v2);
    let a3 = optional_attribute(n3, v3);
    let a4 = optional_attribute(n4, v4);
    assert(a1 + a2 + a3 + a4 + tail =~= a1 + (a2 + (a3 + (a4 + tail))));
    lemma_leading_attribute_optional(n4, v4, tail, attr);
    lemma_leading_attribute_optional(n3, v3, a4 + tail, attr);
    lemma_leading_attribute_optional(n2, v2, a3 + (a4 + tail), attr);
    lemma_leading_attribute_optional(n1, v1, a2 + (a3 + (a4 + tail)), attr);
    assert(leading_attribute(tail, attr) is None);
}

/// The events of an element with one attribute and text content.
pub open spec fn attribute_text_element(
    name: ElementName,
    attr: AttributeName,
    value: String,
    text: String,
) -> Seq<XmlEvent> {
    seq![
        XmlEvent::Start(name),
        XmlEvent::Attribute(attr, value),
        XmlEvent::Text(text),
        XmlEvent::End(name),
    ]
}

/// Reading back an element with one attribute and text content: the
/// attribute gives its value, any other attribute nothing, and the text is
/// its content.
pub proof fn lemma_attribute_text_element_read_back(
    name: ElementName,
    attr: AttributeName,
    value: String,
    text: String,
)
    ensures
        forall|a: AttributeName| #[trigger]
            start_attribute(attribute_text_element(name, attr, value, text), a) == if a == attr {
                Some(value)
            } else {
                None::<String>
            },
        start_text(attribute_text_element(name, attr, value, text)) == Some(text),
{
    let e = attribute_text_element(name, attr, value, text);
    let e1 = e.drop_first();
    let e2 = e1.drop_first();
    assert(e1[0] == XmlEvent::Attribute(attr, value));
    assert(e2[0] == XmlEvent::Text(text));
    assert(leading_text(e2) == Some(text));
    assert(leading_attribute(e2, attr) is None);
    assert forall|a: AttributeName| #[trigger] start_attribute(e, a) == if a == attr {
        Some(value)
    } else {
        None::<String>
    } by {
        assert(leading_attribute(e2, a) is None);
    }
}

/// How many times the event `e` occurs in `events`.
pub open spec fn count_event(events: Seq<XmlEvent>, e: XmlEvent) -> nat
    decreases events.len(),
{
    if events.len() == 0 {
        0
    } else {
        count_event(events.drop_last(), e) + if events.last() == e {
            1nat
        } else {
            0nat
        }
    }
}

/// Whether the event `e` does not occur in `events`.
pub open spec fn lacks_event(events: Seq<XmlEvent>, e: XmlEvent) -> bool {
    forall|i: int| 0 <= i < events.len() ==> events[i] != e
}

/// Occurrences in a concatenation add up.
pub proof fn lemma_count_event_concat(a: Seq<XmlEvent>, b: Seq<XmlEvent>, e: XmlEvent)
    ensures
        count_event(a + b, e) == count_event(a, e) + count_event(b, e),
    decreases b.len(),
{
    if b.len() == 0 {
        assert(a + b =~= a);
    } else {
        lemma_count_event_concat(a, b.drop_last(), e);
        assert((a + b).drop_last() =~= a + b.drop_last());
    }
}

/// An event that does not occur is counted zero times; a single event is
/// counted once exactly when it is the one counted.
pub proof fn lemma_count_event_basics(a: Seq<XmlEvent>, x: XmlEvent, e: XmlEvent)
    ensures
        lacks_event(a, e) ==> count_event(a, e) == 0,
        count_event(seq![x], e) == if x == e {
            1nat
        } else {
            0nat
        },
    decreases a.len(),
{
    assert(seq![x].drop_last() =~= Seq::<XmlEvent>::empty());
    assert(count_event(Seq::<XmlEvent>::empty(), e) == 0);
    assert(seq![x].last() == x);
    if a.len() > 0 && lacks_event(a, e) {
        let r = a.drop_last();
        assert(lacks_event(r, e)) by {
            assert forall|i: int| 0 <= i < r.len() implies r[i] != e by {
                assert(r[i] == a[i]);
            }
        }
        lemma_count_event_basics(r, x, e);
    }
}

/// An event is missing from a concatenation exactly when it is missing
/// from both parts.
pub proof fn lemma_lacks_event_concat(a: Seq<XmlEvent>, b: Seq<XmlEvent>, e: XmlEvent)
    ensures
        lacks_event(a + b, e) <==> (lacks_event(a, e) && lacks_event(b, e)),
{
    if lacks_event(a + b, e) {
        assert forall|i: int| 0 <= i < a.len() implies a[i] != e by {
            assert((a + b)[i] == a[i]);
        }
        assert forall|i: int| 0 <= i < b.len() implies b[i] != e by {
            assert((a + b)[a.len() + i] == b[i]);
        }
    }
}

} // verus!
