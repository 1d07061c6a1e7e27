use vstd::prelude::*;

use crate::common::{CandidateIdentifier, ElectionDomain, MinimalQualifyingAddress};
use crate::text::str_eq;
use crate::documents::election_count::{
    election_identifier_events, lemma_election_identifier_read_back, optional_domain_events,
};
use crate::xml::{
    optional_text_element, push_optional_text_element, push_text_element, text_element,
    read_error, AttributeName, ChildName, ElementName, QName, ReadError, ReadErrorKind, Span,
    XmlEvent, last_text_of, no_end_of, lemma_no_end_of_concat, lemma_last_text_of_found, optional_attribute,
    lemma_last_text_of_absent, start_attribute,
};
use crate::common::lemma_candidate_identifier_events_read_back;

verus! {

/// The ranking of a selection.
#[derive(Debug, Clone, PartialEq, Eq, Structural)]
pub enum RankingType {
    /// First ranked selection.
    First,
    /// Second ranked selection.
    Second,
}

/// Error type for invalid ranking type values; it holds the rejected string.
#[derive(Debug, Clone)]
pub struct InvalidRankingTypeError(pub String);

impl RankingType {
    /// The EML string of this value.
    pub open spec fn spec_as_str(self) -> Seq<char> {
        match self {
            RankingType::First => "1"@,
            RankingType::Second => "2"@,
        }
    }

    /// The value whose EML string is `s`, if there is one.
    pub open spec fn spec_from_str(s: Seq<char>) -> Option<RankingType> {
        if s == "1"@ {
            Some(RankingType::First)
        } else if s == "2"@ {
            Some(RankingType::Second)
        } else {
            None
        }
    }

    /// The ranking written as `s`, if any.
    fn from_str(s: &str) -> (r: Option<Self>)
        ensures
            r == RankingType::spec_from_str(s@),
    {
        if str_eq(s, "1") {
            Some(RankingType::First)
        } else if str_eq(s, "2") {
            Some(RankingType::Second)
        } else {
            None
        }
    }

    /// The string form of this ranking.
    fn as_str(&self) -> (r: &'static str)
        ensures
            r@ == self.spec_as_str(),
    {
        match self {
            RankingType::First => "1",
            RankingType::Second => "2",
        }
    }

    /// Parse this value from its EML string.
    pub fn parse_from_str(s: &str) -> (r: Result<Self, InvalidRankingTypeError>)
        ensures
            match RankingType::spec_from_str(s@) {
                Some(v) => r == Ok::<RankingType, InvalidRankingTypeError>(v),
                None => r matches Err(e) && e.0@ == s@,
            },
    {
        match RankingType::from_str(s) {
            Some(v) => Ok(v),
            None => Err(InvalidRankingTypeError(s.to_owned())),
        }
    }

    /// The EML string of this value, as an owned `String`.
    pub fn to_raw_value(&self) -> (r: String)
        ensures
            r@ == self.spec_as_str(),
    {
        self.as_str().to_owned()
    }
}

/// Every RankingType has exactly one string form and every string names at most one
/// RankingType: parsing `s` gives `v` exactly when `s` is the string form of `v`.
pub proof fn lemma_ranking_type_str_bijection(v: RankingType, s: Seq<char>)
    ensures
        RankingType::spec_from_str(s) == Some(v) <==> v.spec_as_str() == s,
{
    reveal_strlit("1");
    reveal_strlit("2");
    assert("1"@.len() == 1);
    assert("2"@.len() == 1);
    assert("1"@[0] == '1');
    assert("2"@[0] == '2');
}

/// The EML value of each ranking, one fixed text per value, as listed
/// below: each text is what the value is written as, and parsing it gives
/// that value.
pub proof fn lemma_ranking_type_codes()
    ensures
        RankingType::First.spec_as_str() == "1"@,
        RankingType::spec_from_str("1"@) == Some(RankingType::First),
        RankingType::Second.spec_as_str() == "2"@,
        RankingType::spec_from_str("2"@) == Some(RankingType::Second),
{
    lemma_ranking_type_str_bijection(RankingType::First, "1"@);
    lemma_ranking_type_str_bijection(RankingType::Second, "2"@);
}

/// Yes/no type, represented as a boolean.
/// In the EML, this is represented as "yes" or "no".
#[derive(Debug, Clone, PartialEq, Eq, Structural)]
pub struct YesNoType(bool);

/// Error type for invalid yes/no type values; it holds the rejected string.
#[derive(Debug, Clone)]
pub struct InvalidYesNoTypeError(pub String);

impl View for YesNoType {
    type V = bool;

    closed spec fn view(&self) -> bool {
        self.0
    }
}

impl YesNoType {
    /// The value that `s` spells, if it is "yes" or "no".
    pub open spec fn spec_parse(s: Seq<char>) -> Option<bool> {
        if s == "yes"@ {
            Some(true)
        } else if s == "no"@ {
            Some(false)
        } else {
            None
        }
    }

    /// The EML spelling of a yes/no value.
    pub open spec fn spec_raw_value(b: bool) -> Seq<char> {
        if b {
            "yes"@
        } else {
            "no"@
        }
    }

    /// Parse a yes/no value: "yes" gives true and "no" gives false.
    pub fn parse_from_str(s: &str) -> (r: Result<Self, InvalidYesNoTypeError>)
        ensures
            match YesNoType::spec_parse(s@) {
                Some(b) => r matches Ok(v) && v@ == b,
                None => r matches Err(e) && e.0@ == s@,
            },
    {
        if str_eq(s, "yes") {
            Ok(YesNoType(true))
        } else if str_eq(s, "no") {
            Ok(YesNoType(false))
        } else {
            Err(InvalidYesNoTypeError(s.to_owned()))
        }
    }

    /// The EML spelling of this value: "yes" or "no".
    pub fn to_raw_value(&self) -> (r: String)
        ensures
            r@ == YesNoType::spec_raw_value(self@),
    {
        if self.0 {
            "yes".to_owned()
        } else {
            "no".to_owned()
        }
    }
}

/// "yes" and "no" are the spellings of exactly the two yes/no values:
/// parsing `s` gives `b` exactly when `s` is the spelling of `b`.
pub proof fn lemma_yes_no_bijection(b: bool, s: Seq<char>)
    ensures
        YesNoType::spec_parse(s) == Some(b) <==> YesNoType::spec_raw_value(b) == s,
{
    reveal_strlit("yes");
    reveal_strlit("no");
    assert("yes"@.len() == 3);
    assert("no"@.len() == 2);
}

/// The spelling of each yes/no value: true is written `yes` and false `no`,
/// and parsing each spelling gives its value.
pub proof fn lemma_yes_no_codes()
    ensures
        YesNoType::spec_raw_value(true) == "yes"@,
        YesNoType::spec_raw_value(false) == "no"@,
        YesNoType::spec_parse("yes"@) == Some(true),
        YesNoType::spec_parse("no"@) == Some(false),
{
    lemma_yes_no_bijection(true, "yes"@);
    lemma_yes_no_bijection(false, "no"@);
}


/// Selection of a candidate.
#[derive(Debug, Clone, PartialEq, Eq)]
pub struct CandidateSelection {
    /// Identifier of the candidate.
    pub identifier: CandidateIdentifier,
    /// Name of the candidate, as the text of its full name element.
    pub name: String,
    /// Gender of the candidate, as the document spells it.
    pub gender: Option<String>,
    /// The minimal qualifying address of the candidate.
    pub qualifying_address: MinimalQualifyingAddress,
}

impl CandidateSelection {
    /// The events of this element: the identifier, the full name, the gender
    /// where present, and the qualifying address.
    pub open spec fn spec_events(self) -> Seq<XmlEvent> {
        seq![XmlEvent::Start(ElementName::Candidate)] + self.identifier.spec_events()
            + text_element(ElementName::CandidateFullName, self.name) + optional_text_element(
            ElementName::Gender,
            self.gender,
        ) + self.qualifying_address.spec_events() + seq![XmlEvent::End(ElementName::Candidate)]
    }

    /// Append the events of this element to `out`.
    pub fn write_events(&self, out: &mut Vec<XmlEvent>)
        ensures
            final(out)@ == old(out)@ + self.spec_events(),
    {
        out.push(XmlEvent::Start(ElementName::Candidate));
        self.identifier.write_events(out);
        push_text_element(out, ElementName::CandidateFullName, &self.name);
        push_optional_text_element(out, ElementName::Gender, &self.gender);
        self.qualifying_address.write_events(out);
        out.push(XmlEvent::End(ElementName::Candidate));
    }
}

/// Selection of an affiliation.
#[derive(Debug, Clone, PartialEq, Eq)]
pub struct AffiliationSelection {
    /// Id of the affiliation, as the document spells it.
    pub id: String,
    /// Name of the affiliation.
    pub name: String,
}

impl AffiliationSelection {
    /// The events of this element: the `Id` attribute and the registered name.
    pub open spec fn spec_events(self) -> Seq<XmlEvent> {
        seq![
            XmlEvent::Start(ElementName::AffiliationIdentifier),
            XmlEvent::Attribute(AttributeName::Id, self.id),
        ] + text_element(ElementName::RegisteredName, self.name) + seq![
            XmlEvent::End(ElementName::AffiliationIdentifier),
        ]
    }

    /// Append the events of this element to `out`.
    pub fn write_events(&self, out: &mut Vec<XmlEvent>)
        ensures
            final(out)@ == old(out)@ + self.spec_events(),
    {
        out.push(XmlEvent::Start(ElementName::AffiliationIdentifier));
        out.push(XmlEvent::Attribute(AttributeName::Id, self.id.clone()));
        push_text_element(out, ElementName::RegisteredName, &self.name);
        out.push(XmlEvent::End(ElementName::AffiliationIdentifier));
    }
}

/// The type of selection.
#[derive(Debug, Clone, PartialEq, Eq)]
pub enum ElectionResultSelectionType {
    /// Selection of a candidate.
    Candidate(Box<CandidateSelection>),
    /// Selection of an affiliation.
    Affiliation(Box<AffiliationSelection>),
}

/// A selection within an election contest.
#[derive(Debug, Clone, PartialEq, Eq)]
pub struct ElectionResultSelection {
    /// The type of selection.
    pub selection_type: ElectionResultSelectionType,
    /// Number of votes received, as the document spells it.
    pub votes: Option<String>,
    /// Ranking of the selection, if applicable, as the document spells it.
    pub ranking: Option<String>,
    /// Whether the selection was elected, as the document spells it.
    pub elected: String,
}

impl ElectionResultSelection {
    /// The events of this element: the element of the selection type, then
    /// `Votes` and `Ranking` where present, and `Elected`.
    pub open spec fn spec_events(self) -> Seq<XmlEvent> {
        seq![XmlEvent::Start(ElementName::Selection)] + match self.selection_type {
            ElectionResultSelectionType::Candidate(c) => c.spec_events(),
            ElectionResultSelectionType::Affiliation(a) => a.spec_events(),
        } + optional_text_element(ElementName::Votes, self.votes) + optional_text_element(
            ElementName::Ranking,
            self.ranking,
        ) + text_element(ElementName::Elected, self.elected) + seq![
            XmlEvent::End(ElementName::Selection),
        ]
    }

    /// Append the events of this element to `out`.
    pub fn write_events(&self, out: &mut Vec<XmlEvent>)
        ensures
            final(out)@ == old(out)@ + self.spec_events(),
    {
        out.push(XmlEvent::Start(ElementName::Selection));
        match &self.selection_type {
            ElectionResultSelectionType::Candidate(c) => c.write_events(out),
            ElectionResultSelectionType::Affiliation(a) => a.write_events(out),
        }
        push_optional_text_element(out, ElementName::Votes, &self.votes);
        push_optional_text_element(out, ElementName::Ranking, &self.ranking);
        push_text_element(out, ElementName::Elected, &self.elected);
        out.push(XmlEvent::End(ElementName::Selection));
    }
}

/// A child element of a result `Selection`, already read.
#[derive(Debug)]
pub enum ResultSelectionChild {
    /// A `Candidate` child.
    Candidate(Box<CandidateSelection>),
    /// An `AffiliationIdentifier` child.
    Affiliation(Box<AffiliationSelection>),
    /// A `Votes` child, with its text.
    Votes(String),
    /// A `Ranking` child, with its text.
    Ranking(String),
    /// An `Elected` child, with its text.
    Elected(String),
    /// Any other child element, with the span of its content.
    Other(QName, Span),
}

/// The selection type that the children give: that of the last `Candidate`
/// or `AffiliationIdentifier` child.
pub open spec fn result_selection_type(cs: Seq<ResultSelectionChild>) -> Option<
    ElectionResultSelectionType,
>
    decreases cs.len(),
{
    if cs.len() == 0 {
        None
    } else {
        match cs.last() {
            ResultSelectionChild::Candidate(c) => Some(ElectionResultSelectionType::Candidate(c)),
            ResultSelectionChild::Affiliation(a) => Some(
                ElectionResultSelectionType::Affiliation(a),
            ),
            _ => result_selection_type(cs.drop_last()),
        }
    }
}

/// The text of the last `Votes` child.
pub open spec fn result_selection_votes(cs: Seq<ResultSelectionChild>) -> Option<String>
    decreases cs.len(),
{
    if cs.len() == 0 {
        None
    } else {
        match cs.last() {
            ResultSelectionChild::Votes(v) => Some(v),
            _ => result_selection_votes(cs.drop_last()),
        }
    }
}

/// The text of the last `Ranking` child.
pub open spec fn result_selection_ranking(cs: Seq<ResultSelectionChild>) -> Option<String>
    decreases cs.len(),
{
    if cs.len() == 0 {
        None
    } else {
        match cs.last() {
            ResultSelectionChild::Ranking(v) => Some(v),
            _ => result_selection_ranking(cs.drop_last()),
        }
    }
}

/// The text of the last `Elected` child.
pub open spec fn result_selection_elected(cs: Seq<ResultSelectionChild>) -> Option<String>
    decreases cs.len(),
{
    if cs.len() == 0 {
        None
    } else {
        match cs.last() {
            ResultSelectionChild::Elected(v) => Some(v),
            _ => result_selection_elected(cs.drop_last()),
        }
    }
}

/// One unexpected element error for each other child, in order, each at the
/// span of that child's content.
pub open spec fn result_selection_unexpected(cs: Seq<ResultSelectionChild>) -> Seq<ReadError>
    decreases cs.len(),
{
    if cs.len() == 0 {
        seq![]
    } else {
        let prev = result_selection_unexpected(cs.drop_last());
        match cs.last() {
            ResultSelectionChild::Other(q, span) => prev.push(
                read_error(
                    ReadErrorKind::UnexpectedElement(ChildName::Unknown(q), ElementName::Selection),
                    span,
                ),
            ),
            _ => prev,
        }
    }
}

/// The selection that the children make, or what is missing: no selection
/// type, then no `Elected`, either at `inner_span`, the span of the
/// selection's content.
pub open spec fn result_selection_result(cs: Seq<ResultSelectionChild>, inner_span: Span) -> Result<
    ElectionResultSelection,
    ReadError,
> {
    match result_selection_type(cs) {
        None => Err(read_error(ReadErrorKind::MissingSelectionType, inner_span)),
        Some(t) => match result_selection_elected(cs) {
            None => Err(
                read_error(ReadErrorKind::MissingElement(ElementName::Elected), inner_span),
            ),
            Some(e) => Ok(
                ElectionResultSelection {
                    selection_type: t,
                    votes: result_selection_votes(cs),
                    ranking: result_selection_ranking(cs),
                    elected: e,
                },
            ),
        },
    }
}

impl ElectionResultSelection {
    /// Read a selection from its children, in document order; `inner_span`
    /// is the span of the selection's content.
    ///
    /// The last selection type child, and the last `Votes`, `Ranking` and
    /// `Elected` child, count; `votes` and `ranking` are there exactly when
    /// such a child is. Any other child is unexpected, at the span of its
    /// content: in strict mode the first of them is the error, in lax mode
    /// each is recorded in the second result and reading goes on. Then a
    /// missing selection type, and after it a missing `Elected`, is the error,
    /// at `inner_span`.
    pub fn from_children(
        children: Vec<ResultSelectionChild>,
        inner_span: Span,
        strict: bool,
    ) -> (r: (Result<ElectionResultSelection, ReadError>, Vec<ReadError>))
        ensures
            strict && result_selection_unexpected(children@).len() > 0 ==> {
                &&& r.0 == Err::<ElectionResultSelection, ReadError>(
                    result_selection_unexpected(children@)[0],
                )
                &&& r.1@ == Seq::<ReadError>::empty()
            },
            !(strict && result_selection_unexpected(children@).len() > 0) ==> {
                &&& r.1@ == (if strict {
                    Seq::<ReadError>::empty()
                } else {
                    result_selection_unexpected(children@)
                })
                &&& r.0 == result_selection_result(children@, inner_span)
            },
    {
        let ghost all = children@;
        let mut rest = children;
        let ghost mut k: int = 0;
        let mut selection_type: Option<ElectionResultSelectionType> = None;
        let mut votes: Option<String> = None;
        let mut ranking: Option<String> = None;
        let mut elected: Option<String> = None;
        let mut unexpected: Vec<ReadError> = Vec::new();
        assert(all.take(0) =~= Seq::<ResultSelectionChild>::empty());
        while rest.len() > 0
            invariant
                0 <= k <= all.len(),
                rest@ == all.skip(k),
                selection_type == result_selection_type(all.take(k)),
                votes == result_selection_votes(all.take(k)),
                ranking == result_selection_ranking(all.take(k)),
                elected == result_selection_elected(all.take(k)),
                unexpected@ == result_selection_unexpected(all.take(k)),
            decreases rest.len(),
        {
            let child = rest.remove(0);
            proof {
                assert(all.take(k + 1).drop_last() =~= all.take(k));
                assert(all.take(k + 1).last() == child);
                assert(rest@ =~= all.skip(k + 1));
            }
            match child {
                ResultSelectionChild::Candidate(c) => {
                    selection_type = Some(ElectionResultSelectionType::Candidate(c));
                },
                ResultSelectionChild::Affiliation(a) => {
                    selection_type = Some(ElectionResultSelectionType::Affiliation(a));
                },
                ResultSelectionChild::Votes(v) => {
                    votes = Some(v);
                },
                ResultSelectionChild::Ranking(v) => {
                    ranking = Some(v);
                },
                ResultSelectionChild::Elected(v) => {
                    elected = Some(v);
                },
                ResultSelectionChild::Other(q, span) => {
                    unexpected.push(
                        ReadError::at(
                            ReadErrorKind::UnexpectedElement(
                                ChildName::Unknown(q),
                                ElementName::Selection,
                            ),
                            span,
                        ),
                    );
                },
            }
            proof {
                k = k + 1;
            }
        }
        assert(all.take(k) =~= all);
        if strict && unexpected.len() > 0 {
            let first = unexpected.remove(0);
            return (Err(first), Vec::new());
        }
        let warnings = if strict {
            Vec::new()
        } else {
            unexpected
        };
        let result = match selection_type {
            None => Err(ReadError::at(ReadErrorKind::MissingSelectionType, inner_span)),
            Some(t) => match elected {
                None => Err(
                    ReadError::at(ReadErrorKind::MissingElement(ElementName::Elected), inner_span),
                ),
                Some(e) => Ok(
                    ElectionResultSelection { selection_type: t, votes, ranking, elected: e },
                ),
            },
        };
        (result, warnings)
    }
}


/// EML document ID of election result documents.
pub const EML_ELECTION_RESULT_ID: &'static str = "520";

/// Representing a `520` document, containing an election result.
///
/// The transaction id, managing authority, creation date and time and
/// canonicalization method are held as the text the document gives them.
#[derive(Debug, Clone, PartialEq, Eq)]
pub struct ElectionResult {
    /// Transaction id of the document.
    pub transaction_id: String,
    /// Managing authority of the election.
    pub managing_authority: String,
    /// Time this document was created.
    pub creation_date_time: String,
    /// Canonicalization method used in this document, if present.
    pub canonicalization_method: Option<String>,
    /// The result data.
    pub result: ElectionResultResult,
}

/// The result data of an election result document.
#[derive(Debug, Clone, PartialEq, Eq)]
pub struct ElectionResultResult {
    /// The election for which the result applies.
    pub election: ElectionResultElection,
}

/// The election for which the result applies.
#[derive(Debug, Clone, PartialEq, Eq)]
pub struct ElectionResultElection {
    /// Identifier for the election.
    pub identifier: ElectionResultElectionIdentifier,
    /// Contests within the election.
    pub contests: Vec<ElectionResultContest>,
}

/// Identifier for the election for which the result applies.
#[derive(Debug, Clone, PartialEq, Eq)]
pub struct ElectionResultElectionIdentifier {
    /// Id of the election, as the document spells it
    pub id: String,
    /// Name of the election
    pub name: Option<String>,
    /// Category of the election, as the document spells it
    pub category: String,
    /// Subcategory of the election, as the document spells it
    pub subcategory: Option<String>,
    /// The (top level) region where the election takes place.
    pub domain: Option<ElectionDomain>,
    /// Date of the election, as the document spells it
    pub election_date: String,
}

/// A contest within an election result.
#[derive(Debug, Clone, PartialEq, Eq)]
pub struct ElectionResultContest {
    /// Identifier of the contest, as the document spells it.
    pub identifier: String,
    /// Selections within the contest.
    pub selections: Vec<ElectionResultSelection>,
}

impl ElectionResult {
    /// Check the document's `Id` attribute; `span` is the span of the
    /// document's root element. Only `520` is accepted; any other id is an
    /// invalid document type error at `span`, which names the accepted id
    /// `520` and holds the id found.
    pub fn check_document_id(id: &str, span: Span) -> (r: Result<(), ReadError>)
        ensures
            id@ == "520"@ ==> r is Ok,
            id@ != "520"@ ==> (r matches Err(err) && (err.span == Some(span) && (
            err.kind matches ReadErrorKind::InvalidDocumentType(expected, found)
                && expected@ == "520"@ && found@ == id@))),
    {
        if str_eq(id, EML_ELECTION_RESULT_ID) {
            Ok(())
        } else {
            Err(
                ReadError::at(
                    ReadErrorKind::InvalidDocumentType(EML_ELECTION_RESULT_ID, id.to_owned()),
                    span,
                ),
            )
        }
    }
}


/// The children that the element of a result selection is written with: the
/// element of its selection type, then `Votes` and `Ranking` where present,
/// then `Elected`.
pub open spec fn result_selection_children(s: ElectionResultSelection) -> Seq<ResultSelectionChild> {
    seq![
        match s.selection_type {
            ElectionResultSelectionType::Candidate(c) => ResultSelectionChild::Candidate(c),
            ElectionResultSelectionType::Affiliation(a) => ResultSelectionChild::Affiliation(a),
        },
    ] + match s.votes {
        Some(v) => seq![ResultSelectionChild::Votes(v)],
        None => seq![],
    } + match s.ranking {
        Some(v) => seq![ResultSelectionChild::Ranking(v)],
        None => seq![],
    } + seq![ResultSelectionChild::Elected(s.elected)]
}

/// Reading back what was written: the children that a result selection is
/// written with give the same selection, with nothing unexpected, whatever
/// the span of its content.
pub proof fn lemma_result_selection_write_read(s: ElectionResultSelection, inner_span: Span)
    ensures
        result_selection_unexpected(result_selection_children(s)).len() == 0,
        result_selection_result(result_selection_children(s), inner_span) == Ok::<
            ElectionResultSelection,
            ReadError,
        >(s),
{
    let first = seq![
        match s.selection_type {
            ElectionResultSelectionType::Candidate(c) => ResultSelectionChild::Candidate(c),
            ElectionResultSelectionType::Affiliation(a) => ResultSelectionChild::Affiliation(a),
        },
    ];
    let votes: Seq<ResultSelectionChild> = match s.votes {
        Some(v) => seq![ResultSelectionChild::Votes(v)],
        None => seq![],
    };
    let ranking: Seq<ResultSelectionChild> = match s.ranking {
        Some(v) => seq![ResultSelectionChild::Ranking(v)],
        None => seq![],
    };
    let a = first;
    let b = first + votes;
    let c = first + votes + ranking;
    let cs = result_selection_children(s);
    reveal_with_fuel(result_selection_unexpected, 2);
    reveal_with_fuel(result_selection_type, 2);
    reveal_with_fuel(result_selection_votes, 2);
    reveal_with_fuel(result_selection_ranking, 2);
    reveal_with_fuel(result_selection_elected, 2);
    assert(cs.drop_last() =~= c);
    assert(a.drop_last() =~= Seq::<ResultSelectionChild>::empty());
    assert(result_selection_unexpected(a).len() == 0);
    assert(result_selection_type(a) == Some(s.selection_type));
    assert(result_selection_votes(a) is None);
    assert(result_selection_ranking(a) is None);
    if s.votes is Some {
        assert(b.drop_last() =~= a);
    } else {
        assert(b =~= a);
    }
    assert(result_selection_unexpected(b).len() == 0);
    assert(result_selection_type(b) == Some(s.selection_type));
    assert(result_selection_votes(b) == s.votes);
    assert(result_selection_ranking(b) is None);
    assert(result_selection_elected(b) is None);
    if s.ranking is Some {
        assert(c.drop_last() =~= b);
    } else {
        assert(c =~= b);
    }
    assert(result_selection_unexpected(c).len() == 0);
    assert(result_selection_type(c) == Some(s.selection_type));
    assert(result_selection_votes(c) == s.votes);
    assert(result_selection_ranking(c) == s.ranking);
}

impl ElectionResultElectionIdentifier {
    /// The events of this element: the `Id` attribute, `ElectionName` where
    /// present, `ElectionCategory`, `kr:ElectionSubcategory` and
    /// `kr:ElectionDomain` where present, and `kr:ElectionDate`.
    pub open spec fn spec_events(self) -> Seq<XmlEvent> {
        seq![
            XmlEvent::Start(ElementName::ElectionIdentifier),
            XmlEvent::Attribute(AttributeName::Id, self.id),
        ] + optional_text_element(ElementName::ElectionName, self.name) + text_element(
            ElementName::ElectionCategory,
            self.category,
        ) + optional_text_element(ElementName::ElectionSubcategory, self.subcategory)
            + optional_domain_events(self.domain) + text_element(
            ElementName::ElectionDate,
            self.election_date,
        ) + seq![XmlEvent::End(ElementName::ElectionIdentifier)]
    }

    /// Append the events of this element to `out`.
    pub fn write_events(&self, out: &mut Vec<XmlEvent>)
        ensures
            final(out)@ == old(out)@ + self.spec_events(),
    {
        out.push(XmlEvent::Start(ElementName::ElectionIdentifier));
        out.push(XmlEvent::Attribute(AttributeName::Id, self.id.clone()));
        push_optional_text_element(out, ElementName::ElectionName, &self.name);
        push_text_element(out, ElementName::ElectionCategory, &self.category);
        push_optional_text_element(out, ElementName::ElectionSubcategory, &self.subcategory);
        match &self.domain {
            Some(d) => d.write_events(out),
            None => {},
        }
        push_text_element(out, ElementName::ElectionDate, &self.election_date);
        out.push(XmlEvent::End(ElementName::ElectionIdentifier));
    }
}

/// The events of the element of a result selection's type.
pub open spec fn result_selection_type_events(t: ElectionResultSelectionType) -> Seq<XmlEvent> {
    match t {
        ElectionResultSelectionType::Candidate(c) => c.spec_events(),
        ElectionResultSelectionType::Affiliation(a) => a.spec_events(),
    }
}

/// No `Votes`, `Ranking` or `Elected` element ends inside the element of a
/// selection's type.
proof fn lemma_result_selection_type_no_end(t: ElectionResultSelectionType, name: ElementName)
    requires
        name == ElementName::Votes || name == ElementName::Ranking || name
            == ElementName::Elected,
    ensures
        no_end_of(result_selection_type_events(t), name),
{
    match t {
        ElectionResultSelectionType::Candidate(c) => {
            let i = c.identifier;
            let i0 = seq![
                XmlEvent::Start(ElementName::CandidateIdentifier),
                XmlEvent::Attribute(AttributeName::Id, i.id),
            ];
            let i1 = optional_attribute(AttributeName::DisplayOrder, i.display_order);
            let i2 = optional_attribute(AttributeName::ShortCode, i.short_code);
            let i3 = optional_attribute(
                AttributeName::ExpectedConfirmationReference,
                i.expected_confirmation_reference,
            );
            let i4 = seq![XmlEvent::End(ElementName::CandidateIdentifier)];
            assert(no_end_of(i1, name));
            assert(no_end_of(i2, name));
            assert(no_end_of(i3, name));
            lemma_no_end_of_concat(i0, i1, name);
            lemma_no_end_of_concat(i0 + i1, i2, name);
            lemma_no_end_of_concat(i0 + i1 + i2, i3, name);
            lemma_no_end_of_concat(i0 + i1 + i2 + i3, i4, name);
            let a0 = seq![XmlEvent::Start(ElementName::Candidate)];
            let a1 = i.spec_events();
            let a2 = text_element(ElementName::CandidateFullName, c.name);
            let a3 = optional_text_element(ElementName::Gender, c.gender);
            let a4 = c.qualifying_address.spec_events();
            let a5 = seq![XmlEvent::End(ElementName::Candidate)];
            assert(no_end_of(a2, name));
            assert(no_end_of(a3, name));
            assert(no_end_of(a4, name));
            lemma_no_end_of_concat(a0, a1, name);
            lemma_no_end_of_concat(a0 + a1, a2, name);
            lemma_no_end_of_concat(a0 + a1 + a2, a3, name);
            lemma_no_end_of_concat(a0 + a1 + a2 + a3, a4, name);
            lemma_no_end_of_concat(a0 + a1 + a2 + a3 + a4, a5, name);
        },
        ElectionResultSelectionType::Affiliation(a) => {
            let b0 = seq![
                XmlEvent::Start(ElementName::AffiliationIdentifier),
                XmlEvent::Attribute(AttributeName::Id, a.id),
            ];
            let b1 = text_element(ElementName::RegisteredName, a.name);
            let b2 = seq![XmlEvent::End(ElementName::AffiliationIdentifier)];
            assert(no_end_of(b1, name));
            lemma_no_end_of_concat(b0, b1, name);
            lemma_no_end_of_concat(b0 + b1, b2, name);
        },
    }
}

/// Reading back the written result selection: in its events, the `Votes`
/// element holds the votes exactly when the selection has them, the
/// `Ranking` element the ranking exactly when it has one, and the `Elected`
/// element whether it was elected.
pub proof fn lemma_result_selection_events_read_back(s: ElectionResultSelection)
    ensures
        last_text_of(s.spec_events(), ElementName::Votes) == s.votes,
        last_text_of(s.spec_events(), ElementName::Ranking) == s.ranking,
        last_text_of(s.spec_events(), ElementName::Elected) == Some(s.elected),
{
    let t0 = seq![XmlEvent::Start(ElementName::Selection)];
    let t1 = result_selection_type_events(s.selection_type);
    let t = t0 + t1;
    let v = optional_text_element(ElementName::Votes, s.votes);
    let r = optional_text_element(ElementName::Ranking, s.ranking);
    let e = text_element(ElementName::Elected, s.elected);
    let end = seq![XmlEvent::End(ElementName::Selection)];
    assert(s.spec_events() =~= t + v + r + e + end);
    // Elected
    assert(no_end_of(end, ElementName::Elected));
    lemma_last_text_of_found(t + v + r, s.elected, end, ElementName::Elected);
    assert(t + v + r + e + end =~= (t + v + r) + text_element(ElementName::Elected, s.elected)
        + end);
    // Ranking
    assert(no_end_of(e, ElementName::Ranking));
    lemma_no_end_of_concat(e, end, ElementName::Ranking);
    match s.ranking {
        Some(x) => {
            lemma_last_text_of_found(t + v, x, e + end, ElementName::Ranking);
            assert(t + v + r + e + end =~= (t + v) + text_element(ElementName::Ranking, x) + (e
                + end));
        },
        None => {
            lemma_result_selection_type_no_end(s.selection_type, ElementName::Ranking);
            assert(no_end_of(t0, ElementName::Ranking));
            assert(no_end_of(v, ElementName::Ranking));
            lemma_no_end_of_concat(t0, t1, ElementName::Ranking);
            lemma_no_end_of_concat(t, v, ElementName::Ranking);
            lemma_no_end_of_concat(t + v, e + end, ElementName::Ranking);
            assert(t + v + r + e + end =~= (t + v) + (e + end));
            lemma_last_text_of_absent((t + v) + (e + end), ElementName::Ranking);
        },
    }
    // Votes
    assert(no_end_of(r, ElementName::Votes));
    assert(no_end_of(e, ElementName::Votes));
    lemma_no_end_of_concat(r, e, ElementName::Votes);
    lemma_no_end_of_concat(r + e, end, ElementName::Votes);
    match s.votes {
        Some(x) => {
            lemma_last_text_of_found(t, x, r + e + end, ElementName::Votes);
            assert(t + v + r + e + end =~= t + text_element(ElementName::Votes, x) + (r + e
                + end));
        },
        None => {
            lemma_result_selection_type_no_end(s.selection_type, ElementName::Votes);
            assert(no_end_of(t0, ElementName::Votes));
            lemma_no_end_of_concat(t0, t1, ElementName::Votes);
            lemma_no_end_of_concat(t, r + e + end, ElementName::Votes);
            assert(t + v + r + e + end =~= t + (r + e + end));
            lemma_last_text_of_absent(t + (r + e + end), ElementName::Votes);
        },
    }
}

/// Reading back the written election identifier of a result: its id, name,
/// category, subcategory and date are what its events give back.
pub proof fn lemma_result_election_identifier_events_read_back(i: ElectionResultElectionIdentifier)
    ensures
        start_attribute(i.spec_events(), AttributeName::Id) == Some(i.id),
        last_text_of(i.spec_events(), ElementName::ElectionName) == i.name,
        last_text_of(i.spec_events(), ElementName::ElectionCategory) == Some(i.category),
        last_text_of(i.spec_events(), ElementName::ElectionSubcategory) == i.subcategory,
        last_text_of(i.spec_events(), ElementName::ElectionDate) == Some(i.election_date),
{
    lemma_election_identifier_read_back(
        i.id,
        i.name,
        i.category,
        i.subcategory,
        i.domain,
        i.election_date,
    );
    assert(i.spec_events() =~= election_identifier_events(
        i.id,
        i.name,
        i.category,
        i.subcategory,
        i.domain,
        i.election_date,
    ));
}

/// Reading back a written affiliation selection of a result: the `Id`
/// attribute gives back its id and `RegisteredName` its name.
pub proof fn lemma_result_affiliation_events_read_back(a: AffiliationSelection)
    ensures
        start_attribute(a.spec_events(), AttributeName::Id) == Some(a.id),
        last_text_of(a.spec_events(), ElementName::RegisteredName) == Some(a.name),
{
    let h = seq![
        XmlEvent::Start(ElementName::AffiliationIdentifier),
        XmlEvent::Attribute(AttributeName::Id, a.id),
    ];
    let z = seq![XmlEvent::End(ElementName::AffiliationIdentifier)];
    assert(a.spec_events().drop_first()[0] == XmlEvent::Attribute(AttributeName::Id, a.id));
    assert(no_end_of(z, ElementName::RegisteredName));
    lemma_last_text_of_found(h, a.name, z, ElementName::RegisteredName);
}

/// Reading back a written candidate selection of a result: its identifier
/// reads back as it was, `CandidateFullName` holds its name and `Gender`
/// its gender exactly when it has one.
pub proof fn lemma_result_candidate_events_read_back(c: CandidateSelection)
    ensures
        last_text_of(c.spec_events(), ElementName::CandidateFullName) == Some(c.name),
        last_text_of(c.spec_events(), ElementName::Gender) == c.gender,
        start_attribute(c.identifier.spec_events(), AttributeName::Id) == Some(c.identifier.id),
{
    lemma_candidate_identifier_events_read_back(c.identifier);
    let h = seq![XmlEvent::Start(ElementName::Candidate)] + c.identifier.spec_events();
    let n = text_element(ElementName::CandidateFullName, c.name);
    let g = optional_text_element(ElementName::Gender, c.gender);
    let a = c.qualifying_address.spec_events();
    let z = seq![XmlEvent::End(ElementName::Candidate)];
    assert(c.spec_events() =~= h + n + g + a + z);
    let fnm = ElementName::CandidateFullName;
    let gen = ElementName::Gender;
    assert(no_end_of(a, fnm));
    assert(no_end_of(a, gen));
    assert(no_end_of(z, fnm));
    assert(no_end_of(z, gen));
    assert(no_end_of(g, fnm));
    assert(no_end_of(n, gen));
    assert(no_end_of(h, gen));
    lemma_no_end_of_concat(a, z, gen);
    match c.gender {
        Some(x) => {
            lemma_last_text_of_found(h + n, x, a + z, gen);
            assert(c.spec_events() =~= (h + n) + text_element(gen, x) + (a + z));
        },
        None => {
            lemma_no_end_of_concat(h, n, gen);
            lemma_no_end_of_concat(h + n, a + z, gen);
            assert(c.spec_events() =~= (h + n) + (a + z));
            lemma_last_text_of_absent((h + n) + (a + z), gen);
        },
    }
    lemma_no_end_of_concat(g, a, fnm);
    lemma_no_end_of_concat(g + a, z, fnm);
    lemma_last_text_of_found(h, c.name, g + a + z, fnm);
    assert(c.spec_events() =~= h + text_element(fnm, c.name) + (g + a + z));
}

} // verus!
