use vstd::prelude::*;

use crate::pattern::{regex_compiles, regex_is_match, IdPattern, InvalidPatternError};
use crate::common::{
    lemma_candidate_identifier_events_read_back, CandidateIdentifier, ElectionDomain,
    MinimalQualifyingAddress,
};
use crate::text::str_eq;
use crate::xml::{
    optional_attribute, optional_text_element, push_optional_attribute,
    push_optional_text_element, push_text_element, text_element, AttributeName, ChildName,
    ElementName, QName, read_error, ReadError, ReadErrorKind, Span, XmlEvent, last_text_of,
    no_end_of, lemma_no_end_of_concat, lemma_last_text_of_found, lemma_last_text_of_absent,
    start_attribute, start_text,
    attribute_text_element, lemma_attribute_text_element_read_back, lemma_four_optional_attributes,
    count_event, lacks_event, lemma_count_event_concat, lemma_count_event_basics,
    lemma_lacks_event_concat,
};

verus! {

/// EML document ID for Count of polling station documents.
pub const EML_COUNT_POLLING_STATION_ID: &'static str = "510a";

/// EML document ID for Count of municipality documents.
pub const EML_COUNT_MUNICIPAL_ID: &'static str = "510b";

/// EML document ID for Count of district documents.
pub const EML_COUNT_DISTRICT_ID: &'static str = "510c";

/// EML document ID for central Count documents.
pub const EML_COUNT_CENTRAL_ID: &'static str = "510d";

/// Type of Count document.
#[derive(Debug, Clone, PartialEq, Eq, Structural)]
pub enum CountType {
    /// Representing a `510a` document, containing the count for a polling station.
    PollingStation,
    /// Representing a `510b` document, containing the count for a local region (= municipality).
    Municipal,
    /// Representing a `510c` document, containing the count for a district (= HSB).
    District,
    /// Representing a `510d` document, containing the count for the entire election.
    Central,
}

impl CountType {
    /// The EML string of this value.
    pub open spec fn spec_eml_id(self) -> Seq<char> {
        match self {
            CountType::PollingStation => "510a"@,
            CountType::Municipal => "510b"@,
            CountType::District => "510c"@,
            CountType::Central => "510d"@,
        }
    }

    /// The value whose EML string is `s`, if there is one.
    pub open spec fn spec_from_eml_id(s: Seq<char>) -> Option<CountType> {
        if s == "510a"@ {
            Some(CountType::PollingStation)
        } else if s == "510b"@ {
            Some(CountType::Municipal)
        } else if s == "510c"@ {
            Some(CountType::District)
        } else if s == "510d"@ {
            Some(CountType::Central)
        } else {
            None
        }
    }

    /// Create a CountType from an EML document ID string.
    pub fn from_eml_id(s: &str) -> (r: Option<Self>)
        ensures
            r == CountType::spec_from_eml_id(s@),
    {
        if str_eq(s, EML_COUNT_POLLING_STATION_ID) {
            Some(CountType::PollingStation)
        } else if str_eq(s, EML_COUNT_MUNICIPAL_ID) {
            Some(CountType::Municipal)
        } else if str_eq(s, EML_COUNT_DISTRICT_ID) {
            Some(CountType::District)
        } else if str_eq(s, EML_COUNT_CENTRAL_ID) {
            Some(CountType::Central)
        } else {
            None
        }
    }

    /// Get the EML document ID string for this CountType.
    pub fn to_eml_id(&self) -> (r: &'static str)
        ensures
            r@ == self.spec_eml_id(),
    {
        match self {
            CountType::PollingStation => EML_COUNT_POLLING_STATION_ID,
            CountType::Municipal => EML_COUNT_MUNICIPAL_ID,
            CountType::District => EML_COUNT_DISTRICT_ID,
            CountType::Central => EML_COUNT_CENTRAL_ID,
        }
    }
}

/// Every CountType has exactly one EML document ID and every document ID names at most one
/// CountType: parsing `s` gives `v` exactly when `s` is the document ID of `v`.
pub proof fn lemma_count_type_eml_id_bijection(v: CountType, s: Seq<char>)
    ensures
        CountType::spec_from_eml_id(s) == Some(v) <==> v.spec_eml_id() == s,
{
    reveal_strlit("510a");
    reveal_strlit("510b");
    reveal_strlit("510c");
    reveal_strlit("510d");
    assert("510a"@.len() == 4);
    assert("510b"@.len() == 4);
    assert("510c"@.len() == 4);
    assert("510d"@.len() == 4);
    assert("510a"@[3] == 'a');
    assert("510b"@[3] == 'b');
    assert("510c"@[3] == 'c');
    assert("510d"@[3] == 'd');
}

/// The document id of each count type: `PollingStation` is `510a`,
/// `Municipal` is `510b`, `District` is `510c` and `Central` is `510d`. Each id
/// is what the type is written as, and parsing it gives that type.
pub proof fn lemma_count_type_ids()
    ensures
        CountType::PollingStation.spec_eml_id() == "510a"@,
        CountType::spec_from_eml_id("510a"@) == Some(CountType::PollingStation),
        CountType::Municipal.spec_eml_id() == "510b"@,
        CountType::spec_from_eml_id("510b"@) == Some(CountType::Municipal),
        CountType::District.spec_eml_id() == "510c"@,
        CountType::spec_from_eml_id("510c"@) == Some(CountType::District),
        CountType::Central.spec_eml_id() == "510d"@,
        CountType::spec_from_eml_id("510d"@) == Some(CountType::Central),
{
    lemma_count_type_eml_id_bijection(CountType::PollingStation, "510a"@);
    lemma_count_type_eml_id_bijection(CountType::Municipal, "510b"@);
    lemma_count_type_eml_id_bijection(CountType::District, "510c"@);
    lemma_count_type_eml_id_bijection(CountType::Central, "510d"@);
}

impl CountType {
    /// A friendly name of this CountType.
    pub open spec fn spec_friendly_name(self) -> Seq<char> {
        match self {
            CountType::PollingStation => "Polling Station Count"@,
            CountType::Municipal => "Municipal Count"@,
            CountType::District => "District Count"@,
            CountType::Central => "Central Count"@,
        }
    }

    /// Get a friendly name for this CountType.
    pub fn to_friendly_name(&self) -> (r: &'static str)
        ensures
            r@ == self.spec_friendly_name(),
    {
        match self {
            CountType::PollingStation => "Polling Station Count",
            CountType::Municipal => "Municipal Count",
            CountType::District => "District Count",
            CountType::Central => "Central Count",
        }
    }

    /// Returns if the given EML document ID string is a valid CountType ID.
    pub fn is_valid_eml_id(s: &str) -> (r: bool)
        ensures
            r == CountType::spec_from_eml_id(s@) is Some,
    {
        str_eq(s, EML_COUNT_POLLING_STATION_ID) || str_eq(s, EML_COUNT_MUNICIPAL_ID) || str_eq(
            s,
            EML_COUNT_DISTRICT_ID,
        ) || str_eq(s, EML_COUNT_CENTRAL_ID)
    }
}

/// The friendly name of each count type: `Polling Station Count`,
/// `Municipal Count`, `District Count` and `Central Count`.
pub proof fn lemma_count_type_friendly_names()
    ensures
        CountType::PollingStation.spec_friendly_name() == "Polling Station Count"@,
        CountType::Municipal.spec_friendly_name() == "Municipal Count"@,
        CountType::District.spec_friendly_name() == "District Count"@,
        CountType::Central.spec_friendly_name() == "Central Count"@,
{
}

/// Regular expression for validating ReportingUnitIdentifier id values.
pub const REPORTING_UNIT_IDENTIFIER_ID_PATTERN: &'static str =
    "^((HSB\\d+)|((HSB\\d+::)?\\d{4})|(((HSB\\d+::)?\\d{4}::)?SB\\d+)|(HSB\\d+::SB\\d+))$";

/// Whether `s` is a valid reporting unit identifier id: the pattern compiles
/// and matches `s`.
pub open spec fn is_valid_reporting_unit_identifier_id(s: Seq<char>) -> bool {
    regex_compiles(REPORTING_UNIT_IDENTIFIER_ID_PATTERN@) && regex_is_match(
        REPORTING_UNIT_IDENTIFIER_ID_PATTERN@,
        s,
    )
}

/// Type for ReportingUnitIdentifier id.
#[derive(Debug)]
pub struct ReportingUnitIdentifierIdType(String);

/// Error indicating an invalid ReportingUnitIdentifierIdType; it holds the
/// rejected string.
#[derive(Debug, Clone)]
pub struct InvalidReportingUnitVotesIdentifierType(pub String);

impl View for ReportingUnitIdentifierIdType {
    type V = Seq<char>;

    closed spec fn view(&self) -> Seq<char> {
        self.0@
    }
}

impl Clone for ReportingUnitIdentifierIdType {
    fn clone(&self) -> (r: Self)
        ensures
            r@ == self@,
    {
        proof {
            use_type_invariant(self);
        }
        ReportingUnitIdentifierIdType(self.0.clone())
    }
}

impl ReportingUnitIdentifierIdType {
    #[verifier::type_invariant]
    closed spec fn inv(self) -> bool {
        is_valid_reporting_unit_identifier_id(self.0@)
    }

    /// The compiled regular expression for reporting unit identifier ids.
    pub fn regex() -> (r: Result<IdPattern, InvalidPatternError>)
        ensures
            r is Ok <==> regex_compiles(REPORTING_UNIT_IDENTIFIER_ID_PATTERN@),
            r matches Ok(p) ==> p@ == REPORTING_UNIT_IDENTIFIER_ID_PATTERN@,
    {
        IdPattern::compile(REPORTING_UNIT_IDENTIFIER_ID_PATTERN)
    }

    /// Create a new ReportingUnitIdentifierIdType from a string.
    pub fn new(s: &str) -> (r: Result<Self, InvalidReportingUnitVotesIdentifierType>)
        ensures
            r is Ok <==> is_valid_reporting_unit_identifier_id(s@),
            r matches Ok(v) ==> v@ == s@,
            r matches Err(e) ==> e.0@ == s@,
    {
        ReportingUnitIdentifierIdType::parse_from_str(s)
    }

    /// Get the raw string value of the ReportingUnitIdentifierIdType.
    pub fn value(&self) -> (r: &str)
        ensures
            r@ == self@,
            is_valid_reporting_unit_identifier_id(r@),
    {
        proof {
            use_type_invariant(self);
        }
        self.0.as_str()
    }

    /// Parse a reporting unit identifier id, validating it against
    /// [`REPORTING_UNIT_IDENTIFIER_ID_PATTERN`].
    pub fn parse_from_str(s: &str) -> (r: Result<Self, InvalidReportingUnitVotesIdentifierType>)
        ensures
            r is Ok <==> is_valid_reporting_unit_identifier_id(s@),
            r matches Ok(v) ==> v@ == s@,
            r matches Err(e) ==> e.0@ == s@,
    {
        let matched = match ReportingUnitIdentifierIdType::regex() {
            Ok(re) => re.is_match(s),
            Err(_) => false,
        };
        ReportingUnitIdentifierIdType::from_match(s, matched)
    }

    /// Build a ReportingUnitIdentifierIdType from `s` and the outcome of
    /// matching `s` against [`REPORTING_UNIT_IDENTIFIER_ID_PATTERN`]: `Ok` when
    /// it matched, else the error.
    pub fn from_match(s: &str, matched: bool) -> (r: Result<
        Self,
        InvalidReportingUnitVotesIdentifierType,
    >)
        requires
            matched ==> is_valid_reporting_unit_identifier_id(s@),
        ensures
            r is Ok <==> matched,
            r matches Ok(v) ==> v@ == s@,
            r matches Err(e) ==> e.0@ == s@,
    {
        if matched {
            Ok(ReportingUnitIdentifierIdType(s.to_owned()))
        } else {
            Err(InvalidReportingUnitVotesIdentifierType(s.to_owned()))
        }
    }

    /// The raw string of this ReportingUnitIdentifierIdType.
    pub fn to_raw_value(&self) -> (r: String)
        ensures
            r@ == self@,
            is_valid_reporting_unit_identifier_id(r@),
    {
        proof {
            use_type_invariant(self);
        }
        self.0.clone()
    }
}

/// Reason code for a specific investigation.
#[derive(Debug, Clone, Copy, PartialEq, Eq, Structural)]
pub enum InvestigationReason {
    /// onderzocht vanwege onverklaard verschil
    UnexplainedDifference,
    /// onderzocht vanwege andere fout
    OtherError,
    /// uitslag gecorrigeerd
    ResultCorrected,
    /// toegelaten kiezers opnieuw vastgesteld
    AdmittedVotersReestablished,
    /// onderzocht vanwege andere reden
    OtherReason,
    /// stembiljetten deels herteld
    PartiallyRecountedBallots,
}

/// Error indicating an invalid InvestigationReason; it holds the rejected string.
#[derive(Debug, Clone)]
pub struct InvalidInvestigationReason(pub String);

impl InvestigationReason {
    /// The EML string of this value.
    pub open spec fn spec_eml_code(self) -> Seq<char> {
        match self {
            InvestigationReason::UnexplainedDifference => "onderzocht vanwege onverklaard verschil"@,
            InvestigationReason::OtherError => "onderzocht vanwege andere fout"@,
            InvestigationReason::ResultCorrected => "uitslag gecorrigeerd"@,
            InvestigationReason::AdmittedVotersReestablished => "toegelaten kiezers opnieuw vastgesteld"@,
            InvestigationReason::OtherReason => "onderzocht vanwege andere reden"@,
            InvestigationReason::PartiallyRecountedBallots => "stembiljetten deels herteld"@,
        }
    }

    /// The value whose EML string is `s`, if there is one.
    pub open spec fn spec_from_eml_code(s: Seq<char>) -> Option<InvestigationReason> {
        if s == "onderzocht vanwege onverklaard verschil"@ {
            Some(InvestigationReason::UnexplainedDifference)
        } else if s == "onderzocht vanwege andere fout"@ {
            Some(InvestigationReason::OtherError)
        } else if s == "uitslag gecorrigeerd"@ {
            Some(InvestigationReason::ResultCorrected)
        } else if s == "toegelaten kiezers opnieuw vastgesteld"@ {
            Some(InvestigationReason::AdmittedVotersReestablished)
        } else if s == "onderzocht vanwege andere reden"@ {
            Some(InvestigationReason::OtherReason)
        } else if s == "stembiljetten deels herteld"@ {
            Some(InvestigationReason::PartiallyRecountedBallots)
        } else {
            None
        }
    }

    /// Create an InvestigationReason from an EML reason code string.
    pub fn from_eml_code(s: &str) -> (r: Option<Self>)
        ensures
            r == InvestigationReason::spec_from_eml_code(s@),
    {
        if str_eq(s, "onderzocht vanwege onverklaard verschil") {
            Some(InvestigationReason::UnexplainedDifference)
        } else if str_eq(s, "onderzocht vanwege andere fout") {
            Some(InvestigationReason::OtherError)
        } else if str_eq(s, "uitslag gecorrigeerd") {
            Some(InvestigationReason::ResultCorrected)
        } else if str_eq(s, "toegelaten kiezers opnieuw vastgesteld") {
            Some(InvestigationReason::AdmittedVotersReestablished)
        } else if str_eq(s, "onderzocht vanwege andere reden") {
            Some(InvestigationReason::OtherReason)
        } else if str_eq(s, "stembiljetten deels herteld") {
            Some(InvestigationReason::PartiallyRecountedBallots)
        } else {
            None
        }
    }

    /// Get the EML reason code string for this InvestigationReason.
    pub fn to_eml_code(&self) -> (r: &'static str)
        ensures
            r@ == self.spec_eml_code(),
    {
        match self {
            InvestigationReason::UnexplainedDifference => "onderzocht vanwege onverklaard verschil",
            InvestigationReason::OtherError => "onderzocht vanwege andere fout",
            InvestigationReason::ResultCorrected => "uitslag gecorrigeerd",
            InvestigationReason::AdmittedVotersReestablished => "toegelaten kiezers opnieuw vastgesteld",
            InvestigationReason::OtherReason => "onderzocht vanwege andere reden",
            InvestigationReason::PartiallyRecountedBallots => "stembiljetten deels herteld",
        }
    }

    /// Parse this value from its EML string.
    pub fn parse_from_str(s: &str) -> (r: Result<Self, InvalidInvestigationReason>)
        ensures
            match InvestigationReason::spec_from_eml_code(s@) {
                Some(v) => r == Ok::<InvestigationReason, InvalidInvestigationReason>(v),
                None => r matches Err(e) && e.0@ == s@,
            },
    {
        match InvestigationReason::from_eml_code(s) {
            Some(v) => Ok(v),
            None => Err(InvalidInvestigationReason(s.to_owned())),
        }
    }

    /// The EML string of this value, as an owned `String`.
    pub fn to_raw_value(&self) -> (r: String)
        ensures
            r@ == self.spec_eml_code(),
    {
        self.to_eml_code().to_owned()
    }
}

/// Every InvestigationReason has exactly one EML reason code and every reason code names at
/// most one InvestigationReason: parsing `s` gives `v` exactly when `s` is the code of `v`.
pub proof fn lemma_investigation_reason_eml_code_bijection(v: InvestigationReason, s: Seq<char>)
    ensures
        InvestigationReason::spec_from_eml_code(s) == Some(v) <==> v.spec_eml_code() == s,
{
    reveal_strlit("onderzocht vanwege onverklaard verschil");
    reveal_strlit("onderzocht vanwege andere fout");
    reveal_strlit("uitslag gecorrigeerd");
    reveal_strlit("toegelaten kiezers opnieuw vastgesteld");
    reveal_strlit("onderzocht vanwege andere reden");
    reveal_strlit("stembiljetten deels herteld");
    assert("onderzocht vanwege onverklaard verschil"@.len() == 39);
    assert("onderzocht vanwege andere fout"@.len() == 30);
    assert("uitslag gecorrigeerd"@.len() == 20);
    assert("toegelaten kiezers opnieuw vastgesteld"@.len() == 38);
    assert("onderzocht vanwege andere reden"@.len() == 31);
    assert("stembiljetten deels herteld"@.len() == 27);
}

/// The EML code of each investigation reason, one fixed text per value, as listed
/// below: each text is what the value is written as, and parsing it gives
/// that value.
pub proof fn lemma_investigation_reason_codes()
    ensures
        InvestigationReason::UnexplainedDifference.spec_eml_code() == "onderzocht vanwege onverklaard verschil"@,
        InvestigationReason::spec_from_eml_code("onderzocht vanwege onverklaard verschil"@) == Some(InvestigationReason::UnexplainedDifference),
        InvestigationReason::OtherError.spec_eml_code() == "onderzocht vanwege andere fout"@,
        InvestigationReason::spec_from_eml_code("onderzocht vanwege andere fout"@) == Some(InvestigationReason::OtherError),
        InvestigationReason::ResultCorrected.spec_eml_code() == "uitslag gecorrigeerd"@,
        InvestigationReason::spec_from_eml_code("uitslag gecorrigeerd"@) == Some(InvestigationReason::ResultCorrected),
        InvestigationReason::AdmittedVotersReestablished.spec_eml_code() == "toegelaten kiezers opnieuw vastgesteld"@,
        InvestigationReason::spec_from_eml_code("toegelaten kiezers opnieuw vastgesteld"@) == Some(InvestigationReason::AdmittedVotersReestablished),
        InvestigationReason::OtherReason.spec_eml_code() == "onderzocht vanwege andere reden"@,
        InvestigationReason::spec_from_eml_code("onderzocht vanwege andere reden"@) == Some(InvestigationReason::OtherReason),
        InvestigationReason::PartiallyRecountedBallots.spec_eml_code() == "stembiljetten deels herteld"@,
        InvestigationReason::spec_from_eml_code("stembiljetten deels herteld"@) == Some(InvestigationReason::PartiallyRecountedBallots),
{
    lemma_investigation_reason_eml_code_bijection(InvestigationReason::UnexplainedDifference, "onderzocht vanwege onverklaard verschil"@);
    lemma_investigation_reason_eml_code_bijection(InvestigationReason::OtherError, "onderzocht vanwege andere fout"@);
    lemma_investigation_reason_eml_code_bijection(InvestigationReason::ResultCorrected, "uitslag gecorrigeerd"@);
    lemma_investigation_reason_eml_code_bijection(InvestigationReason::AdmittedVotersReestablished, "toegelaten kiezers opnieuw vastgesteld"@);
    lemma_investigation_reason_eml_code_bijection(InvestigationReason::OtherReason, "onderzocht vanwege andere reden"@);
    lemma_investigation_reason_eml_code_bijection(InvestigationReason::PartiallyRecountedBallots, "stembiljetten deels herteld"@);
}

/// Reason code for a specific uncounted votes entry.
#[derive(Debug, Clone, Copy, PartialEq, Eq, Structural)]
pub enum UncountedVotesReason {
    /// geldige stempassen
    ValidPollCards,
    /// geldige volmachtbewijzen
    ValidProxyCertificates,
    /// geldige kiezerspassen
    ValidVoterCards,
    /// toegelaten kiezers
    AdmittedVoters,
    /// meer getelde stembiljetten
    MoreBallotsCounted,
    /// minder getelde stembiljetten
    FewerBallotsCounted,
    /// meegenomen stembiljetten
    BallotsTaken,
    /// te weinig uitgereikte stembiljetten
    TooFewBallotsIssued,
    /// te veel uitgereikte stembiljetten
    TooManyBallotsIssued,
    /// geen briefstembiljetten
    NoPostalBallots,
    /// te veel briefstembiljetten
    TooManyPostalBallots,
    /// kwijtgeraakte stembiljetten
    LostBallots,
    /// geen verklaring
    NoExplanation,
    /// andere verklaring
    OtherExplanation,
}

/// Error indicating an invalid uncounted votes reason; it holds the rejected string.
#[derive(Debug, Clone)]
pub struct InvalidUncountedVotesReason(pub String);

impl UncountedVotesReason {
    /// The EML string of this value.
    pub open spec fn spec_eml_code(self) -> Seq<char> {
        match self {
            UncountedVotesReason::ValidPollCards => "geldige stempassen"@,
            UncountedVotesReason::ValidProxyCertificates => "geldige volmachtbewijzen"@,
            UncountedVotesReason::ValidVoterCards => "geldige kiezerspassen"@,
            UncountedVotesReason::AdmittedVoters => "toegelaten kiezers"@,
            UncountedVotesReason::MoreBallotsCounted => "meer getelde stembiljetten"@,
            UncountedVotesReason::FewerBallotsCounted => "minder getelde stembiljetten"@,
            UncountedVotesReason::BallotsTaken => "meegenomen stembiljetten"@,
            UncountedVotesReason::TooFewBallotsIssued => "te weinig uitgereikte stembiljetten"@,
            UncountedVotesReason::TooManyBallotsIssued => "te veel uitgereikte stembiljetten"@,
            UncountedVotesReason::NoPostalBallots => "geen briefstembiljetten"@,
            UncountedVotesReason::TooManyPostalBallots => "te veel briefstembiljetten"@,
            UncountedVotesReason::LostBallots => "kwijtgeraakte stembiljetten"@,
            UncountedVotesReason::NoExplanation => "geen verklaring"@,
            UncountedVotesReason::OtherExplanation => "andere verklaring"@,
        }
    }

    /// The value whose EML string is `s`, if there is one.
    pub open spec fn spec_from_eml_code(s: Seq<char>) -> Option<UncountedVotesReason> {
        if s == "geldige stempassen"@ {
            Some(UncountedVotesReason::ValidPollCards)
        } else if s == "geldige volmachtbewijzen"@ {
            Some(UncountedVotesReason::ValidProxyCertificates)
        } else if s == "geldige kiezerspassen"@ {
            Some(UncountedVotesReason::ValidVoterCards)
        } else if s == "toegelaten kiezers"@ {
            Some(UncountedVotesReason::AdmittedVoters)
        } else if s == "meer getelde stembiljetten"@ {
            Some(UncountedVotesReason::MoreBallotsCounted)
        } else if s == "minder getelde stembiljetten"@ {
            Some(UncountedVotesReason::FewerBallotsCounted)
        } else if s == "meegenomen stembiljetten"@ {
            Some(UncountedVotesReason::BallotsTaken)
        } else if s == "te weinig uitgereikte stembiljetten"@ {
            Some(UncountedVotesReason::TooFewBallotsIssued)
        } else if s == "te veel uitgereikte stembiljetten"@ {
            Some(UncountedVotesReason::TooManyBallotsIssued)
        } else if s == "geen briefstembiljetten"@ {
            Some(UncountedVotesReason::NoPostalBallots)
        } else if s == "te veel briefstembiljetten"@ {
            Some(UncountedVotesReason::TooManyPostalBallots)
        } else if s == "kwijtgeraakte stembiljetten"@ {
            Some(UncountedVotesReason::LostBallots)
        } else if s == "geen verklaring"@ {
            Some(UncountedVotesReason::NoExplanation)
        } else if s == "andere verklaring"@ {
            Some(UncountedVotesReason::OtherExplanation)
        } else {
            None
        }
    }

    /// Create an UncountedVotesReason from an EML reason code string.
    pub fn from_eml_code(s: &str) -> (r: Option<Self>)
        ensures
            r == UncountedVotesReason::spec_from_eml_code(s@),
    {
        if str_eq(s, "geldige stempassen") {
            Some(UncountedVotesReason::ValidPollCards)
        } else if str_eq(s, "geldige volmachtbewijzen") {
            Some(UncountedVotesReason::ValidProxyCertificates)
        } else if str_eq(s, "geldige kiezerspassen") {
            Some(UncountedVotesReason::ValidVoterCards)
        } else if str_eq(s, "toegelaten kiezers") {
            Some(UncountedVotesReason::AdmittedVoters)
        } else if str_eq(s, "meer getelde stembiljetten") {
            Some(UncountedVotesReason::MoreBallotsCounted)
        } else if str_eq(s, "minder getelde stembiljetten") {
            Some(UncountedVotesReason::FewerBallotsCounted)
        } else if str_eq(s, "meegenomen stembiljetten") {
            Some(UncountedVotesReason::BallotsTaken)
        } else if str_eq(s, "te weinig uitgereikte stembiljetten") {
            Some(UncountedVotesReason::TooFewBallotsIssued)
        } else if str_eq(s, "te veel uitgereikte stembiljetten") {
            Some(UncountedVotesReason::TooManyBallotsIssued)
        } else if str_eq(s, "geen briefstembiljetten") {
            Some(UncountedVotesReason::NoPostalBallots)
        } else if str_eq(s, "te veel briefstembiljetten") {
            Some(UncountedVotesReason::TooManyPostalBallots)
        } else if str_eq(s, "kwijtgeraakte stembiljetten") {
            Some(UncountedVotesReason::LostBallots)
        } else if str_eq(s, "geen verklaring") {
            Some(UncountedVotesReason::NoExplanation)
        } else if str_eq(s, "andere verklaring") {
            Some(UncountedVotesReason::OtherExplanation)
        } else {
            None
        }
    }

    /// Get the EML reason code string for this UncountedVotesReason.
    pub fn to_eml_code(&self) -> (r: &'static str)
        ensures
            r@ == self.spec_eml_code(),
    {
        match self {
            UncountedVotesReason::ValidPollCards => "geldige stempassen",
            UncountedVotesReason::ValidProxyCertificates => "geldige volmachtbewijzen",
            UncountedVotesReason::ValidVoterCards => "geldige kiezerspassen",
            UncountedVotesReason::AdmittedVoters => "toegelaten kiezers",
            UncountedVotesReason::MoreBallotsCounted => "meer getelde stembiljetten",
            UncountedVotesReason::FewerBallotsCounted => "minder getelde stembiljetten",
            UncountedVotesReason::BallotsTaken => "meegenomen stembiljetten",
            UncountedVotesReason::TooFewBallotsIssued => "te weinig uitgereikte stembiljetten",
            UncountedVotesReason::TooManyBallotsIssued => "te veel uitgereikte stembiljetten",
            UncountedVotesReason::NoPostalBallots => "geen briefstembiljetten",
            UncountedVotesReason::TooManyPostalBallots => "te veel briefstembiljetten",
            UncountedVotesReason::LostBallots => "kwijtgeraakte stembiljetten",
            UncountedVotesReason::NoExplanation => "geen verklaring",
            UncountedVotesReason::OtherExplanation => "andere verklaring",
        }
    }

    /// Parse this value from its EML string.
    pub fn parse_from_str(s: &str) -> (r: Result<Self, InvalidUncountedVotesReason>)
        ensures
            match UncountedVotesReason::spec_from_eml_code(s@) {
                Some(v) => r == Ok::<UncountedVotesReason, InvalidUncountedVotesReason>(v),
                None => r matches Err(e) && e.0@ == s@,
            },
    {
        match UncountedVotesReason::from_eml_code(s) {
            Some(v) => Ok(v),
            None => Err(InvalidUncountedVotesReason(s.to_owned())),
        }
    }

    /// The EML string of this value, as an owned `String`.
    pub fn to_raw_value(&self) -> (r: String)
        ensures
            r@ == self.spec_eml_code(),
    {
        self.to_eml_code().to_owned()
    }
}

/// Every UncountedVotesReason has exactly one EML reason code and every reason code names
/// at most one UncountedVotesReason: parsing `s` gives `v` exactly when `s` is the code of `v`.
pub proof fn lemma_uncounted_votes_reason_eml_code_bijection(v: UncountedVotesReason, s: Seq<char>)
    ensures
        UncountedVotesReason::spec_from_eml_code(s) == Some(v) <==> v.spec_eml_code() == s,
{
    reveal_strlit("geldige stempassen");
    reveal_strlit("geldige volmachtbewijzen");
    reveal_strlit("geldige kiezerspassen");
    reveal_strlit("toegelaten kiezers");
    reveal_strlit("meer getelde stembiljetten");
    reveal_strlit("minder getelde stembiljetten");
    reveal_strlit("meegenomen stembiljetten");
    reveal_strlit("te weinig uitgereikte stembiljetten");
    reveal_strlit("te veel uitgereikte stembiljetten");
    reveal_strlit("geen briefstembiljetten");
    reveal_strlit("te veel briefstembiljetten");
    reveal_strlit("kwijtgeraakte stembiljetten");
    reveal_strlit("geen verklaring");
    reveal_strlit("andere verklaring");
    assert("geldige stempassen"@.len() == 18);
    assert("geldige volmachtbewijzen"@.len() == 24);
    assert("geldige kiezerspassen"@.len() == 21);
    assert("toegelaten kiezers"@.len() == 18);
    assert("meer getelde stembiljetten"@.len() == 26);
    assert("minder getelde stembiljetten"@.len() == 28);
    assert("meegenomen stembiljetten"@.len() == 24);
    assert("te weinig uitgereikte stembiljetten"@.len() == 35);
    assert("te veel uitgereikte stembiljetten"@.len() == 33);
    assert("geen briefstembiljetten"@.len() == 23);
    assert("te veel briefstembiljetten"@.len() == 26);
    assert("kwijtgeraakte stembiljetten"@.len() == 27);
    assert("geen verklaring"@.len() == 15);
    assert("andere verklaring"@.len() == 17);
    assert("geldige stempassen"@[0] == 'g');
    assert("toegelaten kiezers"@[0] == 't');
    assert("geldige volmachtbewijzen"@[0] == 'g');
    assert("meegenomen stembiljetten"@[0] == 'm');
    assert("meer getelde stembiljetten"@[0] == 'm');
    assert("te veel briefstembiljetten"@[0] == 't');
}

/// The EML code of each uncounted votes reason, one fixed text per value, as listed
/// below: each text is what the value is written as, and parsing it gives
/// that value.
pub proof fn lemma_uncounted_votes_reason_codes()
    ensures
        UncountedVotesReason::ValidPollCards.spec_eml_code() == "geldige stempassen"@,
        UncountedVotesReason::spec_from_eml_code("geldige stempassen"@) == Some(UncountedVotesReason::ValidPollCards),
        UncountedVotesReason::ValidProxyCertificates.spec_eml_code() == "geldige volmachtbewijzen"@,
        UncountedVotesReason::spec_from_eml_code("geldige volmachtbewijzen"@) == Some(UncountedVotesReason::ValidProxyCertificates),
        UncountedVotesReason::ValidVoterCards.spec_eml_code() == "geldige kiezerspassen"@,
        UncountedVotesReason::spec_from_eml_code("geldige kiezerspassen"@) == Some(UncountedVotesReason::ValidVoterCards),
        UncountedVotesReason::AdmittedVoters.spec_eml_code() == "toegelaten kiezers"@,
        UncountedVotesReason::spec_from_eml_code("toegelaten kiezers"@) == Some(UncountedVotesReason::AdmittedVoters),
        UncountedVotesReason::MoreBallotsCounted.spec_eml_code() == "meer getelde stembiljetten"@,
        UncountedVotesReason::spec_from_eml_code("meer getelde stembiljetten"@) == Some(UncountedVotesReason::MoreBallotsCounted),
        UncountedVotesReason::FewerBallotsCounted.spec_eml_code() == "minder getelde stembiljetten"@,
        UncountedVotesReason::spec_from_eml_code("minder getelde stembiljetten"@) == Some(UncountedVotesReason::FewerBallotsCounted),
        UncountedVotesReason::BallotsTaken.spec_eml_code() == "meegenomen stembiljetten"@,
        UncountedVotesReason::spec_from_eml_code("meegenomen stembiljetten"@) == Some(UncountedVotesReason::BallotsTaken),
        UncountedVotesReason::TooFewBallotsIssued.spec_eml_code() == "te weinig uitgereikte stembiljetten"@,
        UncountedVotesReason::spec_from_eml_code("te weinig uitgereikte stembiljetten"@) == Some(UncountedVotesReason::TooFewBallotsIssued),
        UncountedVotesReason::TooManyBallotsIssued.spec_eml_code() == "te veel uitgereikte stembiljetten"@,
        UncountedVotesReason::spec_from_eml_code("te veel uitgereikte stembiljetten"@) == Some(UncountedVotesReason::TooManyBallotsIssued),
        UncountedVotesReason::NoPostalBallots.spec_eml_code() == "geen briefstembiljetten"@,
        UncountedVotesReason::spec_from_eml_code("geen briefstembiljetten"@) == Some(UncountedVotesReason::NoPostalBallots),
        UncountedVotesReason::TooManyPostalBallots.spec_eml_code() == "te veel briefstembiljetten"@,
        UncountedVotesReason::spec_from_eml_code("te veel briefstembiljetten"@) == Some(UncountedVotesReason::TooManyPostalBallots),
        UncountedVotesReason::LostBallots.spec_eml_code() == "kwijtgeraakte stembiljetten"@,
        UncountedVotesReason::spec_from_eml_code("kwijtgeraakte stembiljetten"@) == Some(UncountedVotesReason::LostBallots),
        UncountedVotesReason::NoExplanation.spec_eml_code() == "geen verklaring"@,
        UncountedVotesReason::spec_from_eml_code("geen verklaring"@) == Some(UncountedVotesReason::NoExplanation),
        UncountedVotesReason::OtherExplanation.spec_eml_code() == "andere verklaring"@,
        UncountedVotesReason::spec_from_eml_code("andere verklaring"@) == Some(UncountedVotesReason::OtherExplanation),
{
    lemma_uncounted_votes_reason_eml_code_bijection(UncountedVotesReason::ValidPollCards, "geldige stempassen"@);
    lemma_uncounted_votes_reason_eml_code_bijection(UncountedVotesReason::ValidProxyCertificates, "geldige volmachtbewijzen"@);
    lemma_uncounted_votes_reason_eml_code_bijection(UncountedVotesReason::ValidVoterCards, "geldige kiezerspassen"@);
    lemma_uncounted_votes_reason_eml_code_bijection(UncountedVotesReason::AdmittedVoters, "toegelaten kiezers"@);
    lemma_uncounted_votes_reason_eml_code_bijection(UncountedVotesReason::MoreBallotsCounted, "meer getelde stembiljetten"@);
    lemma_uncounted_votes_reason_eml_code_bijection(UncountedVotesReason::FewerBallotsCounted, "minder getelde stembiljetten"@);
    lemma_uncounted_votes_reason_eml_code_bijection(UncountedVotesReason::BallotsTaken, "meegenomen stembiljetten"@);
    lemma_uncounted_votes_reason_eml_code_bijection(UncountedVotesReason::TooFewBallotsIssued, "te weinig uitgereikte stembiljetten"@);
    lemma_uncounted_votes_reason_eml_code_bijection(UncountedVotesReason::TooManyBallotsIssued, "te veel uitgereikte stembiljetten"@);
    lemma_uncounted_votes_reason_eml_code_bijection(UncountedVotesReason::NoPostalBallots, "geen briefstembiljetten"@);
    lemma_uncounted_votes_reason_eml_code_bijection(UncountedVotesReason::TooManyPostalBallots, "te veel briefstembiljetten"@);
    lemma_uncounted_votes_reason_eml_code_bijection(UncountedVotesReason::LostBallots, "kwijtgeraakte stembiljetten"@);
    lemma_uncounted_votes_reason_eml_code_bijection(UncountedVotesReason::NoExplanation, "geen verklaring"@);
    lemma_uncounted_votes_reason_eml_code_bijection(UncountedVotesReason::OtherExplanation, "andere verklaring"@);
}



/// Identifier for the reporting unit votes.
#[derive(Debug, Clone, PartialEq, Eq)]
pub struct ReportingUnitIdentifier {
    /// Id of the reporting unit, as the document spells it
    pub id: String,
    /// Name of the reporting unit
    pub name: String,
}

impl ReportingUnitIdentifier {
    /// The events of this identifier's element: the `Id` attribute and the
    /// name as text.
    pub open spec fn spec_events(self) -> Seq<XmlEvent> {
        seq![
            XmlEvent::Start(ElementName::ReportingUnitIdentifier),
            XmlEvent::Attribute(AttributeName::Id, self.id),
            XmlEvent::Text(self.name),
            XmlEvent::End(ElementName::ReportingUnitIdentifier),
        ]
    }

    /// Append the events of this identifier's element to `out`.
    pub fn write_events(&self, out: &mut Vec<XmlEvent>)
        ensures
            final(out)@ == old(out)@ + self.spec_events(),
    {
        out.push(XmlEvent::Start(ElementName::ReportingUnitIdentifier));
        out.push(XmlEvent::Attribute(AttributeName::Id, self.id.clone()));
        out.push(XmlEvent::Text(self.name.clone()));
        out.push(XmlEvent::End(ElementName::ReportingUnitIdentifier));
    }
}

/// Uncounted votes reasons within the reporting unit votes.
#[derive(Debug, Clone, PartialEq, Eq)]
pub struct UncountedVotes {
    /// Number of uncounted votes, as the document spells it.
    pub value: String,
    /// Reason for uncounted votes, as the document spells it.
    pub reason: String,
}

impl UncountedVotes {
    /// The events of this element: the `ReasonCode` attribute and the number
    /// as text.
    pub open spec fn spec_events(self) -> Seq<XmlEvent> {
        seq![
            XmlEvent::Start(ElementName::UncountedVotes),
            XmlEvent::Attribute(AttributeName::ReasonCode, self.reason),
            XmlEvent::Text(self.value),
            XmlEvent::End(ElementName::UncountedVotes),
        ]
    }

    /// Append the events of this element to `out`.
    pub fn write_events(&self, out: &mut Vec<XmlEvent>)
        ensures
            final(out)@ == old(out)@ + self.spec_events(),
    {
        out.push(XmlEvent::Start(ElementName::UncountedVotes));
        out.push(XmlEvent::Attribute(AttributeName::ReasonCode, self.reason.clone()));
        out.push(XmlEvent::Text(self.value.clone()));
        out.push(XmlEvent::End(ElementName::UncountedVotes));
    }
}

/// An investigation within the reporting unit.
#[derive(Debug, Clone, PartialEq, Eq)]
pub struct Investigation {
    /// Whether the type of investigation as specified by reason was
    /// conducted, as the document spells it.
    pub investigated: String,
    /// Reason for the investigation, as the document spells it.
    pub reason: String,
}

impl Investigation {
    /// The events of this element: the `ReasonCode` attribute and the
    /// investigated flag as text.
    pub open spec fn spec_events(self) -> Seq<XmlEvent> {
        seq![
            XmlEvent::Start(ElementName::Investigation),
            XmlEvent::Attribute(AttributeName::ReasonCode, self.reason),
            XmlEvent::Text(self.investigated),
            XmlEvent::End(ElementName::Investigation),
        ]
    }

    /// Append the events of this element to `out`.
    pub fn write_events(&self, out: &mut Vec<XmlEvent>)
        ensures
            final(out)@ == old(out)@ + self.spec_events(),
    {
        out.push(XmlEvent::Start(ElementName::Investigation));
        out.push(XmlEvent::Attribute(AttributeName::ReasonCode, self.reason.clone()));
        out.push(XmlEvent::Text(self.investigated.clone()));
        out.push(XmlEvent::End(ElementName::Investigation));
    }
}

/// Investigations within the reporting unit.
#[derive(Debug, Clone, PartialEq, Eq)]
pub struct ReportingUnitInvestigations {
    /// Investigations within the reporting unit.
    pub investigations: Vec<Investigation>,
}

/// The events of a list of investigations, one after the other.
pub open spec fn investigations_events(s: Seq<Investigation>) -> Seq<XmlEvent>
    decreases s.len(),
{
    if s.len() == 0 {
        seq![]
    } else {
        investigations_events(s.drop_last()) + s.last().spec_events()
    }
}

impl ReportingUnitInvestigations {
    /// The events of this element: each investigation in order.
    pub open spec fn spec_events(self) -> Seq<XmlEvent> {
        seq![XmlEvent::Start(ElementName::ReportingUnitInvestigations)] + investigations_events(
            self.investigations@,
        ) + seq![XmlEvent::End(ElementName::ReportingUnitInvestigations)]
    }

    /// Append the events of this element to `out`.
    pub fn write_events(&self, out: &mut Vec<XmlEvent>)
        ensures
            final(out)@ == old(out)@ + self.spec_events(),
    {
        let ghost start = out@;
        out.push(XmlEvent::Start(ElementName::ReportingUnitInvestigations));
        let n = self.investigations.len();
        let mut i: usize = 0;
        while i < n
            invariant
                n == self.investigations@.len(),
                i <= n,
                out@ == start + seq![XmlEvent::Start(ElementName::ReportingUnitInvestigations)]
                    + investigations_events(self.investigations@.take(i as int)),
            decreases n - i,
        {
            self.investigations[i].write_events(out);
            assert(self.investigations@.take(i + 1).drop_last() =~= self.investigations@.take(
                i as int,
            ));
            i = i + 1;
        }
        assert(self.investigations@.take(n as int) =~= self.investigations@);
        out.push(XmlEvent::End(ElementName::ReportingUnitInvestigations));
    }
}

/// The events of a list of uncounted votes, one after the other.
pub open spec fn uncounted_votes_events(s: Seq<UncountedVotes>) -> Seq<XmlEvent>
    decreases s.len(),
{
    if s.len() == 0 {
        seq![]
    } else {
        uncounted_votes_events(s.drop_last()) + s.last().spec_events()
    }
}

/// Append the events of each uncounted votes entry, in order.
pub fn push_uncounted_votes(out: &mut Vec<XmlEvent>, s: &Vec<UncountedVotes>)
    ensures
        final(out)@ == old(out)@ + uncounted_votes_events(s@),
{
    let ghost start = out@;
    let n = s.len();
    let mut i: usize = 0;
    assert(s@.take(0) =~= Seq::<UncountedVotes>::empty());
    while i < n
        invariant
            n == s@.len(),
            i <= n,
            out@ == start + uncounted_votes_events(s@.take(i as int)),
        decreases n - i,
    {
        s[i].write_events(out);
        assert(s@.take(i + 1).drop_last() =~= s@.take(i as int));
        i = i + 1;
    }
    assert(s@.take(n as int) =~= s@);
}

/// Selection of a candidate.
#[derive(Debug, Clone, PartialEq, Eq)]
pub struct CandidateSelection {
    /// Identifier of the candidate.
    pub identifier: CandidateIdentifier,
    /// Name of the candidate, as the text of its full name element.
    pub name: Option<String>,
    /// Gender of the candidate, as the document spells it.
    pub gender: Option<String>,
    /// Qualified address of the candidate, if present.
    pub qualified_address: Option<MinimalQualifyingAddress>,
}

/// The events of an optional qualifying address.
pub open spec fn optional_address_events(a: Option<MinimalQualifyingAddress>) -> Seq<XmlEvent> {
    match a {
        Some(a) => a.spec_events(),
        None => seq![],
    }
}

impl CandidateSelection {
    /// The events of this element: the identifier, then the full name, the
    /// gender and the qualifying address where present.
    pub open spec fn spec_events(self) -> Seq<XmlEvent> {
        seq![XmlEvent::Start(ElementName::Candidate)] + self.identifier.spec_events()
            + optional_text_element(ElementName::CandidateFullName, self.name)
            + optional_text_element(ElementName::Gender, self.gender) + optional_address_events(
            self.qualified_address,
        ) + seq![XmlEvent::End(ElementName::Candidate)]
    }

    /// Append the events of this element to `out`.
    pub fn write_events(&self, out: &mut Vec<XmlEvent>)
        ensures
            final(out)@ == old(out)@ + self.spec_events(),
    {
        out.push(XmlEvent::Start(ElementName::Candidate));
        self.identifier.write_events(out);
        push_optional_text_element(out, ElementName::CandidateFullName, &self.name);
        push_optional_text_element(out, ElementName::Gender, &self.gender);
        match &self.qualified_address {
            Some(a) => a.write_events(out),
            None => {},
        }
        out.push(XmlEvent::End(ElementName::Candidate));
    }
}

/// Selection of an affiliation.
#[derive(Debug, Clone, PartialEq, Eq)]
pub struct AffiliationSelection {
    /// Id of the affiliation, as the document spells it.
    pub id: String,
    /// Name of the affiliation.
    pub name: String,
}

impl AffiliationSelection {
    /// The events of this element: the `Id` attribute and the registered name.
    pub open spec fn spec_events(self) -> Seq<XmlEvent> {
        seq![
            XmlEvent::Start(ElementName::AffiliationIdentifier),
            XmlEvent::Attribute(AttributeName::Id, self.id),
        ] + text_element(ElementName::RegisteredName, self.name) + seq![
            XmlEvent::End(ElementName::AffiliationIdentifier),
        ]
    }

    /// Append the events of this element to `out`.
    pub fn write_events(&self, out: &mut Vec<XmlEvent>)
        ensures
            final(out)@ == old(out)@ + self.spec_events(),
    {
        out.push(XmlEvent::Start(ElementName::AffiliationIdentifier));
        out.push(XmlEvent::Attribute(AttributeName::Id, self.id.clone()));
        push_text_element(out, ElementName::RegisteredName, &self.name);
        out.push(XmlEvent::End(ElementName::AffiliationIdentifier));
    }
}

/// Selection of a referendum option.
#[derive(Debug, Clone, PartialEq, Eq)]
pub struct ReferendumOptionSelection {
    /// Value of the referendum option.
    pub value: String,
    /// Id of the referendum option, if present.
    pub id: Option<String>,
    /// Display order of the referendum option, if present, as the document spells it.
    pub display_order: Option<String>,
    /// Short code of the referendum option, if present.
    pub short_code: Option<String>,
    /// Expected confirmation reference of the referendum option, if present.
    pub expected_confirmation_reference: Option<String>,
}

impl ReferendumOptionSelection {
    /// The events of this element: the `Id`, `DisplayOrder`, `ShortCode` and
    /// `ExpectedConfirmationReference` attributes where present, and the
    /// value as text.
    pub open spec fn spec_events(self) -> Seq<XmlEvent> {
        seq![XmlEvent::Start(ElementName::ReferendumOptionIdentifier)] + optional_attribute(
            AttributeName::Id,
            self.id,
        ) + optional_attribute(AttributeName::DisplayOrder, self.display_order)
            + optional_attribute(AttributeName::ShortCode, self.short_code) + optional_attribute(
            AttributeName::ExpectedConfirmationReference,
            self.expected_confirmation_reference,
        ) + seq![
            XmlEvent::Text(self.value),
            XmlEvent::End(ElementName::ReferendumOptionIdentifier),
        ]
    }

    /// Append the events of this element to `out`.
    pub fn write_events(&self, out: &mut Vec<XmlEvent>)
        ensures
            final(out)@ == old(out)@ + self.spec_events(),
    {
        out.push(XmlEvent::Start(ElementName::ReferendumOptionIdentifier));
        push_optional_attribute(out, AttributeName::Id, &self.id);
        push_optional_attribute(out, AttributeName::DisplayOrder, &self.display_order);
        push_optional_attribute(out, AttributeName::ShortCode, &self.short_code);
        push_optional_attribute(
            out,
            AttributeName::ExpectedConfirmationReference,
            &self.expected_confirmation_reference,
        );
        out.push(XmlEvent::Text(self.value.clone()));
        out.push(XmlEvent::End(ElementName::ReferendumOptionIdentifier));
    }
}

/// The type of selection.
#[derive(Debug, Clone, PartialEq, Eq)]
pub enum ElectionCountSelectionType {
    /// Selection of a candidate.
    Candidate(Box<CandidateSelection>),
    /// Selection of an affiliation.
    Affiliation(Box<AffiliationSelection>),
    /// Selection of a referendum option.
    ReferendumOption(Box<ReferendumOptionSelection>),
}

/// A selection within the reporting unit votes.
#[derive(Debug, Clone, PartialEq, Eq)]
pub struct ElectionCountSelection {
    /// Type of selection.
    pub selection_type: ElectionCountSelectionType,
    /// Number of valid votes for this selection, as the document spells it.
    pub valid_votes: String,
    /// Value of the `Value` attribute, if present.
    pub value: Option<String>,
    /// Value of the `Category` attribute, if present.
    pub category: Option<String>,
}

impl ElectionCountSelectionType {
    /// The events of the element of this selection type.
    pub open spec fn spec_events(self) -> Seq<XmlEvent> {
        match self {
            ElectionCountSelectionType::Candidate(c) => c.spec_events(),
            ElectionCountSelectionType::Affiliation(a) => a.spec_events(),
            ElectionCountSelectionType::ReferendumOption(r) => r.spec_events(),
        }
    }
}

impl ElectionCountSelection {
    /// The events of this element: the `Value` and `Category` attributes
    /// where present, the element of the selection type, and `ValidVotes`.
    pub open spec fn spec_events(self) -> Seq<XmlEvent> {
        seq![XmlEvent::Start(ElementName::Selection)] + optional_attribute(
            AttributeName::Value,
            self.value,
        ) + optional_attribute(AttributeName::Category, self.category)
            + self.selection_type.spec_events() + text_element(
            ElementName::ValidVotes,
            self.valid_votes,
        ) + seq![XmlEvent::End(ElementName::Selection)]
    }

    /// Append the events of this element to `out`.
    pub fn write_events(&self, out: &mut Vec<XmlEvent>)
        ensures
            final(out)@ == old(out)@ + self.spec_events(),
    {
        out.push(XmlEvent::Start(ElementName::Selection));
        push_optional_attribute(out, AttributeName::Value, &self.value);
        push_optional_attribute(out, AttributeName::Category, &self.category);
        match &self.selection_type {
            ElectionCountSelectionType::Candidate(c) => c.write_events(out),
            ElectionCountSelectionType::Affiliation(a) => a.write_events(out),
            ElectionCountSelectionType::ReferendumOption(r) => r.write_events(out),
        }
        push_text_element(out, ElementName::ValidVotes, &self.valid_votes);
        out.push(XmlEvent::End(ElementName::Selection));
    }
}

/// The events of a list of selections, one after the other.
pub open spec fn count_selections_events(s: Seq<ElectionCountSelection>) -> Seq<XmlEvent>
    decreases s.len(),
{
    if s.len() == 0 {
        seq![]
    } else {
        count_selections_events(s.drop_last()) + s.last().spec_events()
    }
}

/// Append the events of each selection, in order.
pub fn push_count_selections(out: &mut Vec<XmlEvent>, s: &Vec<ElectionCountSelection>)
    ensures
        final(out)@ == old(out)@ + count_selections_events(s@),
{
    let ghost start = out@;
    let n = s.len();
    let mut i: usize = 0;
    assert(s@.take(0) =~= Seq::<ElectionCountSelection>::empty());
    while i < n
        invariant
            n == s@.len(),
            i <= n,
            out@ == start + count_selections_events(s@.take(i as int)),
        decreases n - i,
    {
        s[i].write_events(out);
        assert(s@.take(i + 1).drop_last() =~= s@.take(i as int));
        i = i + 1;
    }
    assert(s@.take(n as int) =~= s@);
}

/// The events of the vote totals that `TotalVotes` and `ReportingUnitVotes`
/// share: `Cast`, `TotalCounted`, then `RejectedVotes` with ReasonCode
/// `blanco` and with ReasonCode `ongeldig`.
pub open spec fn vote_count_events(
    eligible_voter_count: String,
    candidate_votes_count: String,
    rejected_votes_blank: String,
    rejected_votes_invalid: String,
) -> Seq<XmlEvent> {
    text_element(ElementName::Cast, eligible_voter_count) + text_element(
        ElementName::TotalCounted,
        candidate_votes_count,
    ) + seq![
        XmlEvent::Start(ElementName::RejectedVotes),
        XmlEvent::FixedAttribute(AttributeName::ReasonCode, "blanco"),
        XmlEvent::Text(rejected_votes_blank),
        XmlEvent::End(ElementName::RejectedVotes),
        XmlEvent::Start(ElementName::RejectedVotes),
        XmlEvent::FixedAttribute(AttributeName::ReasonCode, "ongeldig"),
        XmlEvent::Text(rejected_votes_invalid),
        XmlEvent::End(ElementName::RejectedVotes),
    ]
}

/// Append the events of the vote totals, as [`vote_count_events`] lists them.
pub fn push_vote_counts(
    out: &mut Vec<XmlEvent>,
    eligible_voter_count: &String,
    candidate_votes_count: &String,
    rejected_votes_blank: &String,
    rejected_votes_invalid: &String,
)
    ensures
        final(out)@ == old(out)@ + vote_count_events(
            *eligible_voter_count,
            *candidate_votes_count,
            *rejected_votes_blank,
            *rejected_votes_invalid,
        ),
{
    push_text_element(out, ElementName::Cast, eligible_voter_count);
    push_text_element(out, ElementName::TotalCounted, candidate_votes_count);
    out.push(XmlEvent::Start(ElementName::RejectedVotes));
    out.push(XmlEvent::FixedAttribute(AttributeName::ReasonCode, "blanco"));
    out.push(XmlEvent::Text(rejected_votes_blank.clone()));
    out.push(XmlEvent::End(ElementName::RejectedVotes));
    out.push(XmlEvent::Start(ElementName::RejectedVotes));
    out.push(XmlEvent::FixedAttribute(AttributeName::ReasonCode, "ongeldig"));
    out.push(XmlEvent::Text(rejected_votes_invalid.clone()));
    out.push(XmlEvent::End(ElementName::RejectedVotes));
}

/// Total votes in a contest.
#[derive(Debug, Clone, PartialEq, Eq)]
pub struct TotalVotes {
    /// Selections within the total votes.
    pub selections: Vec<ElectionCountSelection>,
    /// Total number of eligible voters (the EML_NL `Cast` element), as the
    /// document spells it.
    pub eligible_voter_count: String,
    /// Total number of votes on candidates (the EML_NL `TotalCounted`
    /// element), as the document spells it.
    pub candidate_votes_count: String,
    /// Rejected blank votes (`RejectedVotes` with ReasonCode `blanco`).
    pub rejected_votes_blank: String,
    /// Rejected invalid votes (`RejectedVotes` with ReasonCode `ongeldig`).
    pub rejected_votes_invalid: String,
    /// Uncounted votes reasons within the total votes.
    pub uncounted_votes: Vec<UncountedVotes>,
}

impl TotalVotes {
    /// The events of this element: the selections in order, the vote totals,
    /// and the uncounted votes in order.
    pub open spec fn spec_events(self) -> Seq<XmlEvent> {
        seq![XmlEvent::Start(ElementName::TotalVotes)] + count_selections_events(
            self.selections@,
        ) + vote_count_events(
            self.eligible_voter_count,
            self.candidate_votes_count,
            self.rejected_votes_blank,
            self.rejected_votes_invalid,
        ) + uncounted_votes_events(self.uncounted_votes@) + seq![
            XmlEvent::End(ElementName::TotalVotes),
        ]
    }

    /// Append the events of this element to `out`.
    pub fn write_events(&self, out: &mut Vec<XmlEvent>)
        ensures
            final(out)@ == old(out)@ + self.spec_events(),
    {
        out.push(XmlEvent::Start(ElementName::TotalVotes));
        push_count_selections(out, &self.selections);
        push_vote_counts(
            out,
            &self.eligible_voter_count,
            &self.candidate_votes_count,
            &self.rejected_votes_blank,
            &self.rejected_votes_invalid,
        );
        push_uncounted_votes(out, &self.uncounted_votes);
        out.push(XmlEvent::End(ElementName::TotalVotes));
    }
}

/// Votes per reporting unit.
#[derive(Debug, Clone, PartialEq, Eq)]
pub struct ReportingUnitVotes {
    /// Identifier for the reporting unit votes.
    pub identifier: ReportingUnitIdentifier,
    /// Selections within the reporting unit votes.
    pub selections: Vec<ElectionCountSelection>,
    /// Total number of eligible voters (the EML_NL `Cast` element), as the
    /// document spells it.
    pub eligible_voter_count: String,
    /// Total number of votes on candidates (the EML_NL `TotalCounted`
    /// element), as the document spells it.
    pub candidate_votes_count: String,
    /// Rejected blank votes (`RejectedVotes` with ReasonCode `blanco`).
    pub rejected_votes_blank: String,
    /// Rejected invalid votes (`RejectedVotes` with ReasonCode `ongeldig`).
    pub rejected_votes_invalid: String,
    /// Uncounted votes reasons within the reporting unit votes.
    pub uncounted_votes: Vec<UncountedVotes>,
    /// Investigations within the reporting unit votes.
    pub investigations: Option<ReportingUnitInvestigations>,
}

/// The events of optional investigations.
pub open spec fn optional_investigations_events(i: Option<ReportingUnitInvestigations>) -> Seq<
    XmlEvent,
> {
    match i {
        Some(i) => i.spec_events(),
        None => seq![],
    }
}

impl ReportingUnitVotes {
    /// The events of this element: the identifier, the selections in order,
    /// the vote totals, the uncounted votes in order, and the investigations
    /// where present.
    pub open spec fn spec_events(self) -> Seq<XmlEvent> {
        seq![XmlEvent::Start(ElementName::ReportingUnitVotes)] + self.identifier.spec_events()
            + count_selections_events(self.selections@) + vote_count_events(
            self.eligible_voter_count,
            self.candidate_votes_count,
            self.rejected_votes_blank,
            self.rejected_votes_invalid,
        ) + uncounted_votes_events(self.uncounted_votes@) + optional_investigations_events(
            self.investigations,
        ) + seq![XmlEvent::End(ElementName::ReportingUnitVotes)]
    }

    /// Append the events of this element to `out`.
    pub fn write_events(&self, out: &mut Vec<XmlEvent>)
        ensures
            final(out)@ == old(out)@ + self.spec_events(),
    {
        out.push(XmlEvent::Start(ElementName::ReportingUnitVotes));
        self.identifier.write_events(out);
        push_count_selections(out, &self.selections);
        push_vote_counts(
            out,
            &self.eligible_voter_count,
            &self.candidate_votes_count,
            &self.rejected_votes_blank,
            &self.rejected_votes_invalid,
        );
        push_uncounted_votes(out, &self.uncounted_votes);
        match &self.investigations {
            Some(i) => i.write_events(out),
            None => {},
        }
        out.push(XmlEvent::End(ElementName::ReportingUnitVotes));
    }
}

/// Identifier for the election in this count.
#[derive(Debug, Clone, PartialEq, Eq)]
pub struct ElectionCountElectionIdentifier {
    /// Id of the election, as the document spells it
    pub id: String,
    /// Name of the election
    pub name: Option<String>,
    /// Category of the election, as the document spells it
    pub category: String,
    /// Subcategory of the election, as the document spells it
    pub subcategory: Option<String>,
    /// The (top level) region where the election takes place.
    pub domain: Option<ElectionDomain>,
    /// Date of the election, as the document spells it
    pub election_date: String,
}

/// The events of an optional election domain.
pub open spec fn optional_domain_events(d: Option<ElectionDomain>) -> Seq<XmlEvent> {
    match d {
        Some(d) => d.spec_events(),
        None => seq![],
    }
}

impl ElectionCountElectionIdentifier {
    /// The events of this element: the `Id` attribute, `ElectionName` where
    /// present, `ElectionCategory`, `kr:ElectionSubcategory` and
    /// `kr:ElectionDomain` where present, and `kr:ElectionDate`.
    pub open spec fn spec_events(self) -> Seq<XmlEvent> {
        seq![
            XmlEvent::Start(ElementName::ElectionIdentifier),
            XmlEvent::Attribute(AttributeName::Id, self.id),
        ] + optional_text_element(ElementName::ElectionName, self.name) + text_element(
            ElementName::ElectionCategory,
            self.category,
        ) + optional_text_element(ElementName::ElectionSubcategory, self.subcategory)
            + optional_domain_events(self.domain) + text_element(
            ElementName::ElectionDate,
            self.election_date,
        ) + seq![XmlEvent::End(ElementName::ElectionIdentifier)]
    }

    /// Append the events of this element to `out`.
    pub fn write_events(&self, out: &mut Vec<XmlEvent>)
        ensures
            final(out)@ == old(out)@ + self.spec_events(),
    {
        out.push(XmlEvent::Start(ElementName::ElectionIdentifier));
        out.push(XmlEvent::Attribute(AttributeName::Id, self.id.clone()));
        push_optional_text_element(out, ElementName::ElectionName, &self.name);
        push_text_element(out, ElementName::ElectionCategory, &self.category);
        push_optional_text_element(out, ElementName::ElectionSubcategory, &self.subcategory);
        match &self.domain {
            Some(d) => d.write_events(out),
            None => {},
        }
        push_text_element(out, ElementName::ElectionDate, &self.election_date);
        out.push(XmlEvent::End(ElementName::ElectionIdentifier));
    }
}


/// A child element of a count `Selection`, already read.
#[derive(Debug)]
pub enum CountSelectionChild {
    /// A `Candidate` child.
    Candidate(Box<CandidateSelection>),
    /// An `AffiliationIdentifier` child.
    Affiliation(Box<AffiliationSelection>),
    /// A `ReferendumOptionIdentifier` child.
    ReferendumOption(Box<ReferendumOptionSelection>),
    /// A `ValidVotes` child, with its text.
    ValidVotes(String),
    /// Any other child element, with the span of its content.
    Other(QName, Span),
}

/// The selection type that the children give: that of the last `Candidate`,
/// `AffiliationIdentifier` or `ReferendumOptionIdentifier` child.
pub open spec fn count_selection_type(cs: Seq<CountSelectionChild>) -> Option<
    ElectionCountSelectionType,
>
    decreases cs.len(),
{
    if cs.len() == 0 {
        None
    } else {
        match cs.last() {
            CountSelectionChild::Candidate(c) => Some(ElectionCountSelectionType::Candidate(c)),
            CountSelectionChild::Affiliation(a) => Some(ElectionCountSelectionType::Affiliation(a)),
            CountSelectionChild::ReferendumOption(r) => Some(
                ElectionCountSelectionType::ReferendumOption(r),
            ),
            _ => count_selection_type(cs.drop_last()),
        }
    }
}

/// The text of the last `ValidVotes` child.
pub open spec fn count_selection_valid_votes(cs: Seq<CountSelectionChild>) -> Option<String>
    decreases cs.len(),
{
    if cs.len() == 0 {
        None
    } else {
        match cs.last() {
            CountSelectionChild::ValidVotes(v) => Some(v),
            _ => count_selection_valid_votes(cs.drop_last()),
        }
    }
}

/// One unexpected element error for each other child, in order, each at the
/// span of that child's content.
pub open spec fn count_selection_unexpected(cs: Seq<CountSelectionChild>) -> Seq<ReadError>
    decreases cs.len(),
{
    if cs.len() == 0 {
        seq![]
    } else {
        let prev = count_selection_unexpected(cs.drop_last());
        match cs.last() {
            CountSelectionChild::Other(q, span) => prev.push(
                read_error(
                    ReadErrorKind::UnexpectedElement(ChildName::Unknown(q), ElementName::Selection),
                    span,
                ),
            ),
            _ => prev,
        }
    }
}

/// The selection that the children make, or what is missing: no selection
/// type, then no `ValidVotes`, either at `inner_span`, the span of the
/// selection's content.
pub open spec fn count_selection_result(
    cs: Seq<CountSelectionChild>,
    value: Option<String>,
    category: Option<String>,
    inner_span: Span,
) -> Result<ElectionCountSelection, ReadError> {
    match count_selection_type(cs) {
        None => Err(read_error(ReadErrorKind::MissingSelectionType, inner_span)),
        Some(t) => match count_selection_valid_votes(cs) {
            None => Err(
                read_error(ReadErrorKind::MissingElement(ElementName::ValidVotes), inner_span),
            ),
            Some(v) => Ok(
                ElectionCountSelection { selection_type: t, valid_votes: v, value, category },
            ),
        },
    }
}

impl ElectionCountSelection {
    /// Read a selection from its `Value` and `Category` attributes and its
    /// children, in document order; `inner_span` is the span of the
    /// selection's content.
    ///
    /// The last selection type child and the last `ValidVotes` child count.
    /// Any other child is unexpected, at the span of its content: in strict
    /// mode the first of them is the error, in lax mode each is recorded in
    /// the second result and reading goes on. Then a missing selection type,
    /// and after it a missing `ValidVotes`, is the error, at `inner_span`.
    pub fn from_children(
        value: Option<String>,
        category: Option<String>,
        children: Vec<CountSelectionChild>,
        inner_span: Span,
        strict: bool,
    ) -> (r: (Result<ElectionCountSelection, ReadError>, Vec<ReadError>))
        ensures
            strict && count_selection_unexpected(children@).len() > 0 ==> {
                &&& r.0 == Err::<ElectionCountSelection, ReadError>(
                    count_selection_unexpected(children@)[0],
                )
                &&& r.1@ == Seq::<ReadError>::empty()
            },
            !(strict && count_selection_unexpected(children@).len() > 0) ==> {
                &&& r.1@ == (if strict {
                    Seq::<ReadError>::empty()
                } else {
                    count_selection_unexpected(children@)
                })
                &&& r.0 == count_selection_result(children@, value, category, inner_span)
            },
    {
        let ghost all = children@;
        let mut rest = children;
        let ghost mut k: int = 0;
        let mut selection_type: Option<ElectionCountSelectionType> = None;
        let mut valid_votes: Option<String> = None;
        let mut unexpected: Vec<ReadError> = Vec::new();
        assert(all.take(0) =~= Seq::<CountSelectionChild>::empty());
        while rest.len() > 0
            invariant
                0 <= k <= all.len(),
                rest@ == all.skip(k),
                selection_type == count_selection_type(all.take(k)),
                valid_votes == count_selection_valid_votes(all.take(k)),
                unexpected@ == count_selection_unexpected(all.take(k)),
            decreases rest.len(),
        {
            let child = rest.remove(0);
            proof {
                assert(all.take(k + 1).drop_last() =~= all.take(k));
                assert(all.take(k + 1).last() == child);
                assert(rest@ =~= all.skip(k + 1));
            }
            match child {
                CountSelectionChild::Candidate(c) => {
                    selection_type = Some(ElectionCountSelectionType::Candidate(c));
                },
                CountSelectionChild::Affiliation(a) => {
                    selection_type = Some(ElectionCountSelectionType::Affiliation(a));
                },
                CountSelectionChild::ReferendumOption(o) => {
                    selection_type = Some(ElectionCountSelectionType::ReferendumOption(o));
                },
                CountSelectionChild::ValidVotes(v) => {
                    valid_votes = Some(v);
                },
                CountSelectionChild::Other(q, span) => {
                    unexpected.push(
                        ReadError::at(
                            ReadErrorKind::UnexpectedElement(
                                ChildName::Unknown(q),
                                ElementName::Selection,
                            ),
                            span,
                        ),
                    );
                },
            }
            proof {
                k = k + 1;
            }
        }
        assert(all.take(k) =~= all);
        if strict && unexpected.len() > 0 {
            let first = unexpected.remove(0);
            return (Err(first), Vec::new());
        }
        let warnings = if strict {
            Vec::new()
        } else {
            unexpected
        };
        let result = match selection_type {
            None => Err(ReadError::at(ReadErrorKind::MissingSelectionType, inner_span)),
            Some(t) => match valid_votes {
                None => Err(
                    ReadError::at(
                        ReadErrorKind::MissingElement(ElementName::ValidVotes),
                        inner_span,
                    ),
                ),
                Some(v) => Ok(
                    ElectionCountSelection { selection_type: t, valid_votes: v, value, category },
                ),
            },
        };
        (result, warnings)
    }
}


/// A child element of `ReportingUnitVotes` or `TotalVotes`, already read.
#[derive(Debug)]
pub enum VotesChild {
    /// A `ReportingUnitIdentifier` child, with the span of its content.
    Identifier(ReportingUnitIdentifier, Span),
    /// A `Selection` child.
    Selection(ElectionCountSelection),
    /// A `Cast` child, with its text.
    Cast(String),
    /// A `TotalCounted` child, with its text.
    TotalCounted(String),
    /// A `RejectedVotes` child: its `ReasonCode` attribute, if any, and its text.
    RejectedVotes(Option<String>, String),
    /// An `UncountedVotes` child.
    UncountedVotes(UncountedVotes),
    /// A `kr:ReportingUnitInvestigations` child, with the span of its content.
    Investigations(ReportingUnitInvestigations, Span),
    /// Any other child element, with the span of its content.
    Other(QName, Span),
}

/// Whether a `RejectedVotes` reason code is the given one.
pub open spec fn has_reason(reason: Option<String>, code: Seq<char>) -> bool {
    match reason {
        Some(r) => r@ == code,
        None => false,
    }
}

/// The last `ReportingUnitIdentifier` child.
pub open spec fn votes_identifier(cs: Seq<VotesChild>) -> Option<ReportingUnitIdentifier>
    decreases cs.len(),
{
    if cs.len() == 0 {
        None
    } else {
        match cs.last() {
            VotesChild::Identifier(i, _) => Some(i),
            _ => votes_identifier(cs.drop_last()),
        }
    }
}

/// The `Selection` children, in order.
pub open spec fn votes_selections(cs: Seq<VotesChild>) -> Seq<ElectionCountSelection>
    decreases cs.len(),
{
    if cs.len() == 0 {
        seq![]
    } else {
        match cs.last() {
            VotesChild::Selection(s) => votes_selections(cs.drop_last()).push(s),
            _ => votes_selections(cs.drop_last()),
        }
    }
}

/// The text of the last `Cast` child.
pub open spec fn votes_cast(cs: Seq<VotesChild>) -> Option<String>
    decreases cs.len(),
{
    if cs.len() == 0 {
        None
    } else {
        match cs.last() {
            VotesChild::Cast(v) => Some(v),
            _ => votes_cast(cs.drop_last()),
        }
    }
}

/// The text of the last `TotalCounted` child.
pub open spec fn votes_total_counted(cs: Seq<VotesChild>) -> Option<String>
    decreases cs.len(),
{
    if cs.len() == 0 {
        None
    } else {
        match cs.last() {
            VotesChild::TotalCounted(v) => Some(v),
            _ => votes_total_counted(cs.drop_last()),
        }
    }
}

/// The text of the last `RejectedVotes` child whose reason code is `code`.
pub open spec fn votes_rejected(cs: Seq<VotesChild>, code: Seq<char>) -> Option<String>
    decreases cs.len(),
{
    if cs.len() == 0 {
        None
    } else {
        match cs.last() {
            VotesChild::RejectedVotes(reason, v) => if has_reason(reason, code) {
                Some(v)
            } else {
                votes_rejected(cs.drop_last(), code)
            },
            _ => votes_rejected(cs.drop_last(), code),
        }
    }
}

/// The `UncountedVotes` children, in order.
pub open spec fn votes_uncounted(cs: Seq<VotesChild>) -> Seq<UncountedVotes>
    decreases cs.len(),
{
    if cs.len() == 0 {
        seq![]
    } else {
        match cs.last() {
            VotesChild::UncountedVotes(u) => votes_uncounted(cs.drop_last()).push(u),
            _ => votes_uncounted(cs.drop_last()),
        }
    }
}

/// The last `kr:ReportingUnitInvestigations` child.
pub open spec fn votes_investigations(cs: Seq<VotesChild>) -> Option<ReportingUnitInvestigations>
    decreases cs.len(),
{
    if cs.len() == 0 {
        None
    } else {
        match cs.last() {
            VotesChild::Investigations(i, _) => Some(i),
            _ => votes_investigations(cs.drop_last()),
        }
    }
}

/// One unexpected element error for each child, in order, that may not stand
/// in `parent`: any other element, and, where `unit` is false (in
/// `TotalVotes`), the reporting unit identifier and investigations; each at
/// the span of that child's content.
pub open spec fn votes_unexpected(cs: Seq<VotesChild>, parent: ElementName, unit: bool) -> Seq<
    ReadError,
>
    decreases cs.len(),
{
    if cs.len() == 0 {
        seq![]
    } else {
        let prev = votes_unexpected(cs.drop_last(), parent, unit);
        match cs.last() {
            VotesChild::Other(q, span) => prev.push(
                read_error(ReadErrorKind::UnexpectedElement(ChildName::Unknown(q), parent), span),
            ),
            VotesChild::Identifier(_, span) => if unit {
                prev
            } else {
                prev.push(
                    read_error(
                        ReadErrorKind::UnexpectedElement(
                            ChildName::Known(ElementName::ReportingUnitIdentifier),
                            parent,
                        ),
                        span,
                    ),
                )
            },
            VotesChild::Investigations(_, span) => if unit {
                prev
            } else {
                prev.push(
                    read_error(
                        ReadErrorKind::UnexpectedElement(
                            ChildName::Known(ElementName::ReportingUnitInvestigations),
                            parent,
                        ),
                        span,
                    ),
                )
            },
            _ => prev,
        }
    }
}

/// The first vote total that the children leave out, in the order `Cast`,
/// `TotalCounted`, blank rejected votes, invalid rejected votes.
pub open spec fn votes_missing_total(cs: Seq<VotesChild>) -> Option<ReadErrorKind> {
    if votes_cast(cs) is None {
        Some(ReadErrorKind::MissingElement(ElementName::Cast))
    } else if votes_total_counted(cs) is None {
        Some(ReadErrorKind::MissingElement(ElementName::TotalCounted))
    } else if votes_rejected(cs, "blanco"@) is None {
        Some(ReadErrorKind::MissingRejectedVotesBlank)
    } else if votes_rejected(cs, "ongeldig"@) is None {
        Some(ReadErrorKind::MissingRejectedVotesInvalid)
    } else {
        None
    }
}

/// What a scan of the children of a votes element collected.
struct VotesScan {
    identifier: Option<ReportingUnitIdentifier>,
    selections: Vec<ElectionCountSelection>,
    cast: Option<String>,
    total_counted: Option<String>,
    blank: Option<String>,
    invalid: Option<String>,
    uncounted: Vec<UncountedVotes>,
    investigations: Option<ReportingUnitInvestigations>,
    unexpected: Vec<ReadError>,
}

/// Collect, in document order, what the children of a votes element hold.
fn scan_votes(children: Vec<VotesChild>, parent: ElementName, unit: bool) -> (r: VotesScan)
    ensures
        r.identifier == votes_identifier(children@),
        r.selections@ == votes_selections(children@),
        r.cast == votes_cast(children@),
        r.total_counted == votes_total_counted(children@),
        r.blank == votes_rejected(children@, "blanco"@),
        r.invalid == votes_rejected(children@, "ongeldig"@),
        r.uncounted@ == votes_uncounted(children@),
        r.investigations == votes_investigations(children@),
        r.unexpected@ == votes_unexpected(children@, parent, unit),
{
    let ghost all = children@;
    let mut rest = children;
    let ghost mut k: int = 0;
    let mut scan = VotesScan {
        identifier: None,
        selections: Vec::new(),
        cast: None,
        total_counted: None,
        blank: None,
        invalid: None,
        uncounted: Vec::new(),
        investigations: None,
        unexpected: Vec::new(),
    };
    assert(all.take(0) =~= Seq::<VotesChild>::empty());
    while rest.len() > 0
        invariant
            0 <= k <= all.len(),
            rest@ == all.skip(k),
            scan.identifier == votes_identifier(all.take(k)),
            scan.selections@ == votes_selections(all.take(k)),
            scan.cast == votes_cast(all.take(k)),
            scan.total_counted == votes_total_counted(all.take(k)),
            scan.blank == votes_rejected(all.take(k), "blanco"@),
            scan.invalid == votes_rejected(all.take(k), "ongeldig"@),
            scan.uncounted@ == votes_uncounted(all.take(k)),
            scan.investigations == votes_investigations(all.take(k)),
            scan.unexpected@ == votes_unexpected(all.take(k), parent, unit),
        decreases rest.len(),
    {
        let child = rest.remove(0);
        proof {
            assert(all.take(k + 1).drop_last() =~= all.take(k));
            assert(all.take(k + 1).last() == child);
            assert(rest@ =~= all.skip(k + 1));
        }
        match child {
            VotesChild::Identifier(i, span) => {
                scan.identifier = Some(i);
                if !unit {
                    scan.unexpected.push(
                        ReadError::at(
                            ReadErrorKind::UnexpectedElement(
                                ChildName::Known(ElementName::ReportingUnitIdentifier),
                                parent,
                            ),
                            span,
                        ),
                    );
                }
            },
            VotesChild::Selection(s) => {
                scan.selections.push(s);
            },
            VotesChild::Cast(v) => {
                scan.cast = Some(v);
            },
            VotesChild::TotalCounted(v) => {
                scan.total_counted = Some(v);
            },
            VotesChild::RejectedVotes(reason, v) => {
                let (is_blank, is_invalid) = match &reason {
                    Some(code) => (str_eq(code.as_str(), "blanco"), str_eq(code.as_str(), "ongeldig")),
                    None => (false, false),
                };
                proof {
                    reveal_strlit("blanco");
                    reveal_strlit("ongeldig");
                    assert("blanco"@.len() == 6);
                    assert("ongeldig"@.len() == 8);
                }
                if is_blank {
                    scan.blank = Some(v);
                } else if is_invalid {
                    scan.invalid = Some(v);
                }
            },
            VotesChild::UncountedVotes(u) => {
                scan.uncounted.push(u);
            },
            VotesChild::Investigations(i, span) => {
                scan.investigations = Some(i);
                if !unit {
                    scan.unexpected.push(
                        ReadError::at(
                            ReadErrorKind::UnexpectedElement(
                                ChildName::Known(ElementName::ReportingUnitInvestigations),
                                parent,
                            ),
                            span,
                        ),
                    );
                }
            },
            VotesChild::Other(q, span) => {
                scan.unexpected.push(
                    ReadError::at(
                        ReadErrorKind::UnexpectedElement(ChildName::Unknown(q), parent),
                        span,
                    ),
                );
            },
        }
        proof {
            k = k + 1;
        }
    }
    assert(all.take(k) =~= all);
    scan
}

impl TotalVotes {
    /// Read total votes from the children, in document order.
    ///
    /// Selections and uncounted votes are kept in order; of `Cast`,
    /// `TotalCounted` and each kind of `RejectedVotes` the last one counts. A
    /// `RejectedVotes` child goes to the blank or the invalid total by its
    /// `ReasonCode` (`blanco` or `ongeldig`); one with another reason code is
    /// passed over. Any other child (a reporting unit identifier or
    /// investigations included) is unexpected, at the span of its content:
    /// in strict mode the first of them is the error, in lax mode each is
    /// recorded in the second result. Then the first missing total is the
    /// error, at `inner_span`, the span of the element's content.
    pub fn from_children(children: Vec<VotesChild>, inner_span: Span, strict: bool) -> (r: (
        Result<TotalVotes, ReadError>,
        Vec<ReadError>,
    ))
        ensures
            ({
                let unexpected = votes_unexpected(children@, ElementName::TotalVotes, false);
                &&& strict && unexpected.len() > 0 ==> {
                    &&& r.0 == Err::<TotalVotes, ReadError>(unexpected[0])
                    &&& r.1@ == Seq::<ReadError>::empty()
                }
                &&& !(strict && unexpected.len() > 0) ==> {
                    &&& r.1@ == (if strict {
                        Seq::<ReadError>::empty()
                    } else {
                        unexpected
                    })
                    &&& match votes_missing_total(children@) {
                        Some(e) => r.0 == Err::<TotalVotes, ReadError>(read_error(e, inner_span)),
                        None => r.0 matches Ok(v) && {
                            &&& v.selections@ == votes_selections(children@)
                            &&& Some(v.eligible_voter_count) == votes_cast(children@)
                            &&& Some(v.candidate_votes_count) == votes_total_counted(children@)
                            &&& Some(v.rejected_votes_blank) == votes_rejected(
                                children@,
                                "blanco"@,
                            )
                            &&& Some(v.rejected_votes_invalid) == votes_rejected(
                                children@,
                                "ongeldig"@,
                            )
                            &&& v.uncounted_votes@ == votes_uncounted(children@)
                        },
                    }
                }
            }),
    {
        let ghost cs = children@;
        let mut scan = scan_votes(children, ElementName::TotalVotes, false);
        if strict && scan.unexpected.len() > 0 {
            let first = scan.unexpected.remove(0);
            return (Err(first), Vec::new());
        }
        let warnings = if strict {
            Vec::new()
        } else {
            scan.unexpected
        };
        let result = match (scan.cast, scan.total_counted, scan.blank, scan.invalid) {
            (None, _, _, _) => Err(
                ReadError::at(ReadErrorKind::MissingElement(ElementName::Cast), inner_span),
            ),
            (Some(_), None, _, _) => Err(
                ReadError::at(ReadErrorKind::MissingElement(ElementName::TotalCounted), inner_span),
            ),
            (Some(_), Some(_), None, _) => Err(
                ReadError::at(ReadErrorKind::MissingRejectedVotesBlank, inner_span),
            ),
            (Some(_), Some(_), Some(_), None) => Err(
                ReadError::at(ReadErrorKind::MissingRejectedVotesInvalid, inner_span),
            ),
            (Some(cast), Some(total), Some(blank), Some(invalid)) => Ok(
                TotalVotes {
                    selections: scan.selections,
                    eligible_voter_count: cast,
                    candidate_votes_count: total,
                    rejected_votes_blank: blank,
                    rejected_votes_invalid: invalid,
                    uncounted_votes: scan.uncounted,
                },
            ),
        };
        (result, warnings)
    }
}

impl ReportingUnitVotes {
    /// Read reporting unit votes from the children, in document order.
    ///
    /// As [`TotalVotes::from_children`], and besides: the last reporting unit
    /// identifier and the last investigations count, and a missing identifier
    /// is the error, at `inner_span`, before any missing total.
    pub fn from_children(children: Vec<VotesChild>, inner_span: Span, strict: bool) -> (r: (
        Result<ReportingUnitVotes, ReadError>,
        Vec<ReadError>,
    ))
        ensures
            ({
                let unexpected = votes_unexpected(children@, ElementName::ReportingUnitVotes, true);
                &&& strict && unexpected.len() > 0 ==> {
                    &&& r.0 == Err::<ReportingUnitVotes, ReadError>(unexpected[0])
                    &&& r.1@ == Seq::<ReadError>::empty()
                }
                &&& !(strict && unexpected.len() > 0) ==> {
                    &&& r.1@ == (if strict {
                        Seq::<ReadError>::empty()
                    } else {
                        unexpected
                    })
                    &&& if votes_identifier(children@) is None {
                        r.0 == Err::<ReportingUnitVotes, ReadError>(
                            read_error(
                                ReadErrorKind::MissingElement(ElementName::ReportingUnitIdentifier),
                                inner_span,
                            ),
                        )
                    } else {
                        match votes_missing_total(children@) {
                            Some(e) => r.0 == Err::<ReportingUnitVotes, ReadError>(
                                read_error(e, inner_span),
                            ),
                            None => r.0 matches Ok(v) && {
                                &&& Some(v.identifier) == votes_identifier(children@)
                                &&& v.selections@ == votes_selections(children@)
                                &&& Some(v.eligible_voter_count) == votes_cast(children@)
                                &&& Some(v.candidate_votes_count) == votes_total_counted(
                                    children@,
                                )
                                &&& Some(v.rejected_votes_blank) == votes_rejected(
                                    children@,
                                    "blanco"@,
                                )
                                &&& Some(v.rejected_votes_invalid) == votes_rejected(
                                    children@,
                                    "ongeldig"@,
                                )
                                &&& v.uncounted_votes@ == votes_uncounted(children@)
                                &&& v.investigations == votes_investigations(children@)
                            },
                        }
                    }
                }
            }),
    {
        let mut scan = scan_votes(children, ElementName::ReportingUnitVotes, true);
        if strict && scan.unexpected.len() > 0 {
            let first = scan.unexpected.remove(0);
            return (Err(first), Vec::new());
        }
        let warnings = if strict {
            Vec::new()
        } else {
            scan.unexpected
        };
        let result = match (scan.identifier, scan.cast, scan.total_counted, scan.blank, scan.invalid) {
            (None, _, _, _, _) => Err(
                ReadError::at(
                    ReadErrorKind::MissingElement(ElementName::ReportingUnitIdentifier),
                    inner_span,
                ),
            ),
            (Some(_), None, _, _, _) => Err(
                ReadError::at(ReadErrorKind::MissingElement(ElementName::Cast), inner_span),
            ),
            (Some(_), Some(_), None, _, _) => Err(
                ReadError::at(ReadErrorKind::MissingElement(ElementName::TotalCounted), inner_span),
            ),
            (Some(_), Some(_), Some(_), None, _) => Err(
                ReadError::at(ReadErrorKind::MissingRejectedVotesBlank, inner_span),
            ),
            (Some(_), Some(_), Some(_), Some(_), None) => Err(
                ReadError::at(ReadErrorKind::MissingRejectedVotesInvalid, inner_span),
            ),
            (Some(identifier), Some(cast), Some(total), Some(blank), Some(invalid)) => Ok(
                ReportingUnitVotes {
                    identifier,
                    selections: scan.selections,
                    eligible_voter_count: cast,
                    candidate_votes_count: total,
                    rejected_votes_blank: blank,
                    rejected_votes_invalid: invalid,
                    uncounted_votes: scan.uncounted,
                    investigations: scan.investigations,
                },
            ),
        };
        (result, warnings)
    }
}


/// Representing a `510a`, `510b`, `510c` or `510d` document, containing a count.
///
/// The transaction id, managing authority, creation date and time and
/// canonicalization method are held as the text the document gives them.
#[derive(Debug, Clone, PartialEq, Eq)]
pub struct ElectionCount {
    /// Type of count document.
    pub count_type: CountType,
    /// Transaction ID of the document.
    pub transaction_id: String,
    /// Managing authority of the document.
    pub managing_authority: String,
    /// Creation date and time of the document.
    pub creation_date_time: String,
    /// Canonicalization method used in this document, if present.
    pub canonicalization_method: Option<String>,
    /// The actual count data.
    pub count: ElectionCountCount,
}

/// The actual count data.
#[derive(Debug, Clone, PartialEq, Eq)]
pub struct ElectionCountCount {
    /// The election for this count.
    pub election: ElectionCountElection,
}

/// The election for this count.
#[derive(Debug, Clone, PartialEq, Eq)]
pub struct ElectionCountElection {
    /// Identifier
    pub identifier: ElectionCountElectionIdentifier,
    /// Contests within this election.
    pub contests: Vec<ElectionCountContest>,
}

/// A contest within the election count.
#[derive(Debug, Clone, PartialEq, Eq)]
pub struct ElectionCountContest {
    /// Identifier for the contest, as the document spells it.
    pub identifier: String,
    /// Total votes in this contest, if present.
    pub total_votes: Option<TotalVotes>,
    /// Votes per reporting unit in this contest.
    pub reporting_unit_votes: Vec<ReportingUnitVotes>,
}

impl ElectionCount {
    /// The count type that the document's `Id` attribute names; `span` is
    /// the span of the document's root element. Any other id is an invalid
    /// document type error at `span`, which names the accepted ids
    /// `510a/510b/510c/510d` and holds the id found.
    pub fn count_type_from_document_id(id: &str, span: Span) -> (r: Result<CountType, ReadError>)
        ensures
            match CountType::spec_from_eml_id(id@) {
                Some(t) => r == Ok::<CountType, ReadError>(t),
                None => r matches Err(err) && (err.span == Some(span) && (
                err.kind matches ReadErrorKind::InvalidDocumentType(expected, found)
                    && expected@ == "510a/510b/510c/510d"@ && found@ == id@)),
            },
    {
        match CountType::from_eml_id(id) {
            Some(t) => Ok(t),
            None => Err(
                ReadError::at(
                    ReadErrorKind::InvalidDocumentType("510a/510b/510c/510d", id.to_owned()),
                    span,
                ),
            ),
        }
    }
}


/// One `Selection` child for each selection, in order.
pub open spec fn selection_children(s: Seq<ElectionCountSelection>) -> Seq<VotesChild> {
    s.map_values(|x: ElectionCountSelection| VotesChild::Selection(x))
}

/// One `UncountedVotes` child for each entry, in order.
pub open spec fn uncounted_children(u: Seq<UncountedVotes>) -> Seq<VotesChild> {
    u.map_values(|x: UncountedVotes| VotesChild::UncountedVotes(x))
}

/// The children that the vote totals are written with: `Cast`,
/// `TotalCounted`, and the blank and the invalid `RejectedVotes`, whose
/// reason codes read back as `blank_code` and `invalid_code`.
pub open spec fn vote_count_children(
    eligible_voter_count: String,
    candidate_votes_count: String,
    rejected_votes_blank: String,
    rejected_votes_invalid: String,
    blank_code: String,
    invalid_code: String,
) -> Seq<VotesChild> {
    seq![
        VotesChild::Cast(eligible_voter_count),
        VotesChild::TotalCounted(candidate_votes_count),
        VotesChild::RejectedVotes(Some(blank_code), rejected_votes_blank),
        VotesChild::RejectedVotes(Some(invalid_code), rejected_votes_invalid),
    ]
}

/// The children that total votes are written with, in the order of
/// [`TotalVotes::spec_events`].
pub open spec fn total_votes_children(v: TotalVotes, blank_code: String, invalid_code: String) -> Seq<
    VotesChild,
> {
    selection_children(v.selections@) + vote_count_children(
        v.eligible_voter_count,
        v.candidate_votes_count,
        v.rejected_votes_blank,
        v.rejected_votes_invalid,
        blank_code,
        invalid_code,
    ) + uncounted_children(v.uncounted_votes@)
}

/// The children that reporting unit votes are written with, in the order of
/// [`ReportingUnitVotes::spec_events`]; the identifier and the
/// investigations stand at the given spans.
pub open spec fn reporting_unit_votes_children(
    v: ReportingUnitVotes,
    blank_code: String,
    invalid_code: String,
    identifier_span: Span,
    investigations_span: Span,
) -> Seq<VotesChild> {
    seq![VotesChild::Identifier(v.identifier, identifier_span)] + selection_children(
        v.selections@,
    ) + vote_count_children(
        v.eligible_voter_count,
        v.candidate_votes_count,
        v.rejected_votes_blank,
        v.rejected_votes_invalid,
        blank_code,
        invalid_code,
    ) + uncounted_children(v.uncounted_votes@) + match v.investigations {
        Some(i) => seq![VotesChild::Investigations(i, investigations_span)],
        None => seq![],
    }
}

/// Selection children after `q` add their selections and change nothing else.
proof fn lemma_append_selections(q: Seq<VotesChild>, sels: Seq<ElectionCountSelection>, parent: ElementName, unit: bool)
    ensures
        ({
            let cs = q + selection_children(sels);
            &&& votes_identifier(cs) == votes_identifier(q)
            &&& votes_selections(cs) == votes_selections(q) + sels
            &&& votes_cast(cs) == votes_cast(q)
            &&& votes_total_counted(cs) == votes_total_counted(q)
            &&& forall|code: Seq<char>| #[trigger] votes_rejected(cs, code) == votes_rejected(q, code)
            &&& votes_uncounted(cs) == votes_uncounted(q)
            &&& votes_investigations(cs) == votes_investigations(q)
            &&& votes_unexpected(cs, parent, unit) == votes_unexpected(q, parent, unit)
        }),
    decreases sels.len(),
{
    let cs = q + selection_children(sels);
    if sels.len() == 0 {
        assert(cs =~= q);
    } else {
        let prev = sels.drop_last();
        lemma_append_selections(q, prev, parent, unit);
        assert(cs.drop_last() =~= q + selection_children(prev));
        assert(cs.last() == VotesChild::Selection(sels.last()));
        assert(votes_selections(q) + prev.push(sels.last()) =~= votes_selections(q) + sels);
        assert forall|code: Seq<char>| #[trigger]
            votes_rejected(cs, code) == votes_rejected(q, code) by {
            assert(votes_rejected(q + selection_children(prev), code) == votes_rejected(q, code));
        }
    }
}

/// Uncounted votes children after `q` add their entries and change nothing
/// else.
proof fn lemma_append_uncounted(q: Seq<VotesChild>, u: Seq<UncountedVotes>, parent: ElementName, unit: bool)
    ensures
        ({
            let cs = q + uncounted_children(u);
            &&& votes_identifier(cs) == votes_identifier(q)
            &&& votes_selections(cs) == votes_selections(q)
            &&& votes_cast(cs) == votes_cast(q)
            &&& votes_total_counted(cs) == votes_total_counted(q)
            &&& forall|code: Seq<char>| #[trigger] votes_rejected(cs, code) == votes_rejected(q, code)
            &&& votes_uncounted(cs) == votes_uncounted(q) + u
            &&& votes_investigations(cs) == votes_investigations(q)
            &&& votes_unexpected(cs, parent, unit) == votes_unexpected(q, parent, unit)
        }),
    decreases u.len(),
{
    let cs = q + uncounted_children(u);
    if u.len() == 0 {
        assert(cs =~= q);
    } else {
        let prev = u.drop_last();
        lemma_append_uncounted(q, prev, parent, unit);
        assert(cs.drop_last() =~= q + uncounted_children(prev));
        assert(cs.last() == VotesChild::UncountedVotes(u.last()));
        assert(votes_uncounted(q) + prev.push(u.last()) =~= votes_uncounted(q) + u);
        assert forall|code: Seq<char>| #[trigger]
            votes_rejected(cs, code) == votes_rejected(q, code) by {
            assert(votes_rejected(q + uncounted_children(prev), code) == votes_rejected(q, code));
        }
    }
}

/// The vote total children after `q` give the four totals and change
/// nothing else.
proof fn lemma_append_vote_counts(
    q: Seq<VotesChild>,
    cast: String,
    total: String,
    blank: String,
    invalid: String,
    blank_code: String,
    invalid_code: String,
    parent: ElementName,
    unit: bool,
)
    requires
        blank_code@ == "blanco"@,
        invalid_code@ == "ongeldig"@,
    ensures
        ({
            let cs = q + vote_count_children(cast, total, blank, invalid, blank_code, invalid_code);
            &&& votes_identifier(cs) == votes_identifier(q)
            &&& votes_selections(cs) == votes_selections(q)
            &&& votes_cast(cs) == Some(cast)
            &&& votes_total_counted(cs) == Some(total)
            &&& votes_rejected(cs, "blanco"@) == Some(blank)
            &&& votes_rejected(cs, "ongeldig"@) == Some(invalid)
            &&& votes_uncounted(cs) == votes_uncounted(q)
            &&& votes_investigations(cs) == votes_investigations(q)
            &&& votes_unexpected(cs, parent, unit) == votes_unexpected(q, parent, unit)
        }),
{
    reveal_strlit("blanco");
    reveal_strlit("ongeldig");
    assert("blanco"@.len() == 6);
    assert("ongeldig"@.len() == 8);
    let c1 = q.push(VotesChild::Cast(cast));
    let c2 = c1.push(VotesChild::TotalCounted(total));
    let c3 = c2.push(VotesChild::RejectedVotes(Some(blank_code), blank));
    let c4 = c3.push(VotesChild::RejectedVotes(Some(invalid_code), invalid));
    assert(c4 =~= q + vote_count_children(cast, total, blank, invalid, blank_code, invalid_code));
    assert(c1.drop_last() =~= q);
    assert(c2.drop_last() =~= c1);
    assert(c3.drop_last() =~= c2);
    assert(c4.drop_last() =~= c3);
    assert(has_reason(Some(blank_code), "blanco"@));
    assert(!has_reason(Some(blank_code), "ongeldig"@));
    assert(has_reason(Some(invalid_code), "ongeldig"@));
    assert(!has_reason(Some(invalid_code), "blanco"@));
    assert(votes_identifier(c1) == votes_identifier(q));
    assert(votes_identifier(c2) == votes_identifier(q));
    assert(votes_identifier(c3) == votes_identifier(q));
    assert(votes_selections(c1) == votes_selections(q));
    assert(votes_selections(c2) == votes_selections(q));
    assert(votes_selections(c3) == votes_selections(q));
    assert(votes_cast(c1) == Some(cast));
    assert(votes_cast(c2) == Some(cast));
    assert(votes_cast(c3) == Some(cast));
    assert(votes_total_counted(c2) == Some(total));
    assert(votes_total_counted(c3) == Some(total));
    assert(votes_rejected(c3, "blanco"@) == Some(blank));
    assert(votes_uncounted(c1) == votes_uncounted(q));
    assert(votes_uncounted(c2) == votes_uncounted(q));
    assert(votes_uncounted(c3) == votes_uncounted(q));
    assert(votes_investigations(c1) == votes_investigations(q));
    assert(votes_investigations(c2) == votes_investigations(q));
    assert(votes_investigations(c3) == votes_investigations(q));
    assert(votes_unexpected(c1, parent, unit) == votes_unexpected(q, parent, unit));
    assert(votes_unexpected(c2, parent, unit) == votes_unexpected(q, parent, unit));
    assert(votes_unexpected(c3, parent, unit) == votes_unexpected(q, parent, unit));
}

/// Reading back what was written: the children that total votes are written
/// with, the reason codes read as `blanco` and `ongeldig`, leave nothing
/// unexpected and nothing missing, and give back every part of the total
/// votes.
pub proof fn lemma_total_votes_write_read(v: TotalVotes, blank_code: String, invalid_code: String)
    requires
        blank_code@ == "blanco"@,
        invalid_code@ == "ongeldig"@,
    ensures
        ({
            let cs = total_votes_children(v, blank_code, invalid_code);
            &&& votes_unexpected(cs, ElementName::TotalVotes, false).len() == 0
            &&& votes_missing_total(cs) is None
            &&& votes_selections(cs) == v.selections@
            &&& votes_cast(cs) == Some(v.eligible_voter_count)
            &&& votes_total_counted(cs) == Some(v.candidate_votes_count)
            &&& votes_rejected(cs, "blanco"@) == Some(v.rejected_votes_blank)
            &&& votes_rejected(cs, "ongeldig"@) == Some(v.rejected_votes_invalid)
            &&& votes_uncounted(cs) == v.uncounted_votes@
        }),
{
    let e = Seq::<VotesChild>::empty();
    let a = selection_children(v.selections@);
    let b = a + vote_count_children(
        v.eligible_voter_count,
        v.candidate_votes_count,
        v.rejected_votes_blank,
        v.rejected_votes_invalid,
        blank_code,
        invalid_code,
    );
    let parent = ElementName::TotalVotes;
    lemma_append_selections(e, v.selections@, parent, false);
    assert(e + a =~= a);
    assert(Seq::<ElectionCountSelection>::empty() + v.selections@ =~= v.selections@);
    lemma_append_vote_counts(
        a,
        v.eligible_voter_count,
        v.candidate_votes_count,
        v.rejected_votes_blank,
        v.rejected_votes_invalid,
        blank_code,
        invalid_code,
        parent,
        false,
    );
    lemma_append_uncounted(b, v.uncounted_votes@, parent, false);
    assert(Seq::<UncountedVotes>::empty() + v.uncounted_votes@ =~= v.uncounted_votes@);
}

/// Reading back what was written: the children that reporting unit votes
/// are written with, the reason codes read as `blanco` and `ongeldig`, leave
/// nothing unexpected and nothing missing, and give back every part of the
/// reporting unit votes, wherever the identifier and investigations stand.
pub proof fn lemma_reporting_unit_votes_write_read(
    v: ReportingUnitVotes,
    blank_code: String,
    invalid_code: String,
    identifier_span: Span,
    investigations_span: Span,
)
    requires
        blank_code@ == "blanco"@,
        invalid_code@ == "ongeldig"@,
    ensures
        ({
            let cs = reporting_unit_votes_children(
                v,
                blank_code,
                invalid_code,
                identifier_span,
                investigations_span,
            );
            &&& votes_unexpected(cs, ElementName::ReportingUnitVotes, true).len() == 0
            &&& votes_identifier(cs) == Some(v.identifier)
            &&& votes_missing_total(cs) is None
            &&& votes_selections(cs) == v.selections@
            &&& votes_cast(cs) == Some(v.eligible_voter_count)
            &&& votes_total_counted(cs) == Some(v.candidate_votes_count)
            &&& votes_rejected(cs, "blanco"@) == Some(v.rejected_votes_blank)
            &&& votes_rejected(cs, "ongeldig"@) == Some(v.rejected_votes_invalid)
            &&& votes_uncounted(cs) == v.uncounted_votes@
            &&& votes_investigations(cs) == v.investigations
        }),
{
    let parent = ElementName::ReportingUnitVotes;
    let q = seq![VotesChild::Identifier(v.identifier, identifier_span)];
    let e = Seq::<VotesChild>::empty();
    assert(q.drop_last() =~= e);
    assert(votes_selections(e) =~= Seq::<ElectionCountSelection>::empty());
    assert(votes_uncounted(e) =~= Seq::<UncountedVotes>::empty());
    assert(votes_unexpected(e, parent, true) =~= Seq::<ReadError>::empty());
    assert(votes_identifier(q) == Some(v.identifier));
    assert(votes_investigations(e) is None);
    assert(votes_selections(q) == Seq::<ElectionCountSelection>::empty());
    assert(votes_uncounted(q) == Seq::<UncountedVotes>::empty());
    assert(votes_investigations(q) is None);
    assert(votes_unexpected(q, parent, true) == Seq::<ReadError>::empty());
    let a = q + selection_children(v.selections@);
    let b = a + vote_count_children(
        v.eligible_voter_count,
        v.candidate_votes_count,
        v.rejected_votes_blank,
        v.rejected_votes_invalid,
        blank_code,
        invalid_code,
    );
    let c = b + uncounted_children(v.uncounted_votes@);
    lemma_append_selections(q, v.selections@, parent, true);
    assert(Seq::<ElectionCountSelection>::empty() + v.selections@ =~= v.selections@);
    lemma_append_vote_counts(
        a,
        v.eligible_voter_count,
        v.candidate_votes_count,
        v.rejected_votes_blank,
        v.rejected_votes_invalid,
        blank_code,
        invalid_code,
        parent,
        true,
    );
    lemma_append_uncounted(b, v.uncounted_votes@, parent, true);
    assert(Seq::<UncountedVotes>::empty() + v.uncounted_votes@ =~= v.uncounted_votes@);
    assert(votes_rejected(c, "blanco"@) == votes_rejected(b, "blanco"@));
    assert(votes_rejected(c, "ongeldig"@) == votes_rejected(b, "ongeldig"@));
    let cs = reporting_unit_votes_children(
        v,
        blank_code,
        invalid_code,
        identifier_span,
        investigations_span,
    );
    match v.investigations {
        Some(i) => {
            assert(cs =~= c.push(VotesChild::Investigations(i, investigations_span)));
            assert(cs.drop_last() =~= c);
        },
        None => {
            assert(cs =~= c);
        },
    }
}

/// The children that the element of a count selection is written with: the
/// element of its selection type, then `ValidVotes`.
pub open spec fn count_selection_children(s: ElectionCountSelection) -> Seq<CountSelectionChild> {
    seq![
        match s.selection_type {
            ElectionCountSelectionType::Candidate(c) => CountSelectionChild::Candidate(c),
            ElectionCountSelectionType::Affiliation(a) => CountSelectionChild::Affiliation(a),
            ElectionCountSelectionType::ReferendumOption(r) => CountSelectionChild::ReferendumOption(r),
        },
        CountSelectionChild::ValidVotes(s.valid_votes),
    ]
}

/// Reading back what was written: the children that a count selection is
/// written with, read with its attributes, give the same selection, with
/// nothing unexpected, whatever the span of its content.
pub proof fn lemma_count_selection_write_read(s: ElectionCountSelection, inner_span: Span)
    ensures
        count_selection_unexpected(count_selection_children(s)).len() == 0,
        count_selection_result(
            count_selection_children(s),
            s.value,
            s.category,
            inner_span,
        ) == Ok::<ElectionCountSelection, ReadError>(s),
{
    let cs = count_selection_children(s);
    reveal_with_fuel(count_selection_unexpected, 3);
    reveal_with_fuel(count_selection_type, 3);
    reveal_with_fuel(count_selection_valid_votes, 3);
    assert(cs.drop_last().drop_last() =~= Seq::<CountSelectionChild>::empty());
    assert(cs.drop_last().last() == cs[0]);
}

/// Whether the event is a `ReasonCode` attribute that reads `code`.
pub open spec fn reason_code_is(e: XmlEvent, code: Seq<char>) -> bool {
    match e {
        XmlEvent::Attribute(AttributeName::ReasonCode, c) => c@ == code,
        XmlEvent::FixedAttribute(AttributeName::ReasonCode, c) => c@ == code,
        _ => false,
    }
}

/// Reading a rejected votes total back from events: the text of the last
/// `RejectedVotes` element whose `ReasonCode` attribute reads `code`, that
/// is, of the last place in `events` where `Start(RejectedVotes)`, such an
/// attribute, `Text(t)` and `End(RejectedVotes)` follow one another.
pub open spec fn last_rejected_text(events: Seq<XmlEvent>, code: Seq<char>) -> Option<String>
    decreases events.len(),
{
    if events.len() < 4 {
        None
    } else {
        let n = events.len() as int;
        match (events[n - 4], events[n - 2], events[n - 1]) {
            (XmlEvent::Start(a), XmlEvent::Text(t), XmlEvent::End(b)) => if a
                == ElementName::RejectedVotes && b == ElementName::RejectedVotes
                && reason_code_is(events[n - 3], code) {
                Some(t)
            } else {
                last_rejected_text(events.drop_last(), code)
            },
            _ => last_rejected_text(events.drop_last(), code),
        }
    }
}

/// Events in which no `RejectedVotes` element ends, written after `p`, leave
/// the rejected votes read back as they were after `p`.
proof fn lemma_last_rejected_skips(p: Seq<XmlEvent>, q: Seq<XmlEvent>, code: Seq<char>)
    requires
        no_end_of(q, ElementName::RejectedVotes),
    ensures
        last_rejected_text(p + q, code) == last_rejected_text(p, code),
    decreases q.len(),
{
    if q.len() == 0 {
        assert(p + q =~= p);
    } else {
        let r = q.drop_last();
        assert(no_end_of(r, ElementName::RejectedVotes)) by {
            assert forall|i: int| 0 <= i < r.len() implies r[i] != XmlEvent::End(
                ElementName::RejectedVotes,
            ) by {
                assert(r[i] == q[i]);
            }
        }
        lemma_last_rejected_skips(p, r, code);
        assert((p + q).drop_last() =~= p + r);
        assert((p + q)[(p + q).len() - 1] == q[q.len() - 1]);
    }
}

/// The events of one `RejectedVotes` element with the given reason code.
pub open spec fn rejected_votes_element(reason: &'static str, text: String) -> Seq<XmlEvent> {
    seq![
        XmlEvent::Start(ElementName::RejectedVotes),
        XmlEvent::FixedAttribute(AttributeName::ReasonCode, reason),
        XmlEvent::Text(text),
        XmlEvent::End(ElementName::RejectedVotes),
    ]
}

/// A `RejectedVotes` element after `p` is read back for its own reason code
/// and changes nothing for any other.
proof fn lemma_last_rejected_element(
    p: Seq<XmlEvent>,
    reason: &'static str,
    text: String,
    code: Seq<char>,
)
    ensures
        last_rejected_text(p + rejected_votes_element(reason, text), code) == if reason@
            == code {
            Some(text)
        } else {
            last_rejected_text(p, code)
        },
{
    let e4 = p + rejected_votes_element(reason, text);
    let e3 = e4.drop_last();
    let e2 = e3.drop_last();
    let e1 = e2.drop_last();
    assert(e1 =~= p.push(XmlEvent::Start(ElementName::RejectedVotes)));
    assert(e1.drop_last() =~= p);
    assert(e2.last() == XmlEvent::FixedAttribute(AttributeName::ReasonCode, reason));
    assert(e3.last() == XmlEvent::Text(text));
    assert(last_rejected_text(e1, code) == last_rejected_text(p, code));
    assert(last_rejected_text(e2, code) == last_rejected_text(p, code));
    assert(last_rejected_text(e3, code) == last_rejected_text(p, code));
    let n = e4.len() as int;
    assert(e4[n - 4] == XmlEvent::Start(ElementName::RejectedVotes));
    assert(e4[n - 3] == XmlEvent::FixedAttribute(AttributeName::ReasonCode, reason));
    assert(e4[n - 2] == XmlEvent::Text(text));
    assert(e4[n - 1] == XmlEvent::End(ElementName::RejectedVotes));
}

/// No element other than `UncountedVotes` ends among the events of
/// uncounted votes.
proof fn lemma_uncounted_events_no_end(u: Seq<UncountedVotes>, name: ElementName)
    requires
        name != ElementName::UncountedVotes,
    ensures
        no_end_of(uncounted_votes_events(u), name),
    decreases u.len(),
{
    if u.len() > 0 {
        lemma_uncounted_events_no_end(u.drop_last(), name);
        lemma_no_end_of_concat(uncounted_votes_events(u.drop_last()), u.last().spec_events(), name);
    }
}

/// No element other than `Investigation` and `ReportingUnitInvestigations`
/// ends among the events of optional investigations.
proof fn lemma_investigations_events_no_end(i: Option<ReportingUnitInvestigations>, name: ElementName)
    requires
        name != ElementName::Investigation,
        name != ElementName::ReportingUnitInvestigations,
    ensures
        no_end_of(optional_investigations_events(i), name),
{
    match i {
        Some(inv) => {
            lemma_investigation_list_no_end(inv.investigations@, name);
            let a = seq![XmlEvent::Start(ElementName::ReportingUnitInvestigations)];
            let b = investigations_events(inv.investigations@);
            let c = seq![XmlEvent::End(ElementName::ReportingUnitInvestigations)];
            lemma_no_end_of_concat(a, b, name);
            lemma_no_end_of_concat(a + b, c, name);
        },
        None => {},
    }
}

proof fn lemma_investigation_list_no_end(s: Seq<Investigation>, name: ElementName)
    requires
        name != ElementName::Investigation,
    ensures
        no_end_of(investigations_events(s), name),
    decreases s.len(),
{
    if s.len() > 0 {
        lemma_investigation_list_no_end(s.drop_last(), name);
        lemma_no_end_of_concat(investigations_events(s.drop_last()), s.last().spec_events(), name);
    }
}

/// Reading back the vote totals from what is written: followed by events in
/// which no `Cast`, `TotalCounted` or `RejectedVotes` element ends, the
/// `Cast` element holds the eligible voter count, `TotalCounted` the
/// candidate votes count, and the `RejectedVotes` elements with reason code
/// `blanco` and `ongeldig` the blank and the invalid count.
pub proof fn lemma_vote_counts_read_back(
    p: Seq<XmlEvent>,
    eligible_voter_count: String,
    candidate_votes_count: String,
    rejected_votes_blank: String,
    rejected_votes_invalid: String,
    q: Seq<XmlEvent>,
)
    requires
        no_end_of(q, ElementName::Cast),
        no_end_of(q, ElementName::TotalCounted),
        no_end_of(q, ElementName::RejectedVotes),
    ensures
        ({
            let evs = p + vote_count_events(
                eligible_voter_count,
                candidate_votes_count,
                rejected_votes_blank,
                rejected_votes_invalid,
            ) + q;
            &&& last_text_of(evs, ElementName::Cast) == Some(eligible_voter_count)
            &&& last_text_of(evs, ElementName::TotalCounted) == Some(candidate_votes_count)
            &&& last_rejected_text(evs, "blanco"@) == Some(rejected_votes_blank)
            &&& last_rejected_text(evs, "ongeldig"@) == Some(rejected_votes_invalid)
        }),
{
    reveal_strlit("blanco");
    reveal_strlit("ongeldig");
    assert("blanco"@.len() == 6);
    assert("ongeldig"@.len() == 8);
    let cast = text_element(ElementName::Cast, eligible_voter_count);
    let total = text_element(ElementName::TotalCounted, candidate_votes_count);
    let blank = rejected_votes_element("blanco", rejected_votes_blank);
    let invalid = rejected_votes_element("ongeldig", rejected_votes_invalid);
    let evs = p + vote_count_events(
        eligible_voter_count,
        candidate_votes_count,
        rejected_votes_blank,
        rejected_votes_invalid,
    ) + q;
    assert(vote_count_events(
        eligible_voter_count,
        candidate_votes_count,
        rejected_votes_blank,
        rejected_votes_invalid,
    ) =~= cast + total + blank + invalid);
    // Cast
    let after_cast = total + blank + invalid + q;
    assert(evs =~= p + cast + after_cast);
    assert(no_end_of(total + blank + invalid, ElementName::Cast));
    lemma_no_end_of_concat(total + blank + invalid, q, ElementName::Cast);
    lemma_last_text_of_found(p, eligible_voter_count, after_cast, ElementName::Cast);
    // TotalCounted
    let after_total = blank + invalid + q;
    assert(evs =~= p + cast + total + after_total);
    assert(no_end_of(blank + invalid, ElementName::TotalCounted));
    lemma_no_end_of_concat(blank + invalid, q, ElementName::TotalCounted);
    lemma_last_text_of_found(p + cast, candidate_votes_count, after_total, ElementName::TotalCounted);
    // RejectedVotes
    let front = p + cast + total;
    assert(evs =~= front + blank + invalid + q);
    lemma_last_rejected_skips(front + blank + invalid, q, "blanco"@);
    lemma_last_rejected_skips(front + blank + invalid, q, "ongeldig"@);
    lemma_last_rejected_element(front + blank, "ongeldig", rejected_votes_invalid, "blanco"@);
    lemma_last_rejected_element(front + blank, "ongeldig", rejected_votes_invalid, "ongeldig"@);
    lemma_last_rejected_element(front, "blanco", rejected_votes_blank, "blanco"@);
}

/// Reading back the written total votes: in its events, the `Cast` element
/// holds the eligible voter count, `TotalCounted` the candidate votes count,
/// and the `RejectedVotes` elements with reason code `blanco` and `ongeldig`
/// the blank and the invalid count.
pub proof fn lemma_total_votes_events_read_back(v: TotalVotes)
    ensures
        last_text_of(v.spec_events(), ElementName::Cast) == Some(v.eligible_voter_count),
        last_text_of(v.spec_events(), ElementName::TotalCounted) == Some(v.candidate_votes_count),
        last_rejected_text(v.spec_events(), "blanco"@) == Some(v.rejected_votes_blank),
        last_rejected_text(v.spec_events(), "ongeldig"@) == Some(v.rejected_votes_invalid),
{
    let p = seq![XmlEvent::Start(ElementName::TotalVotes)] + count_selections_events(
        v.selections@,
    );
    let u = uncounted_votes_events(v.uncounted_votes@);
    let end = seq![XmlEvent::End(ElementName::TotalVotes)];
    let q = u + end;
    lemma_uncounted_events_no_end(v.uncounted_votes@, ElementName::Cast);
    lemma_uncounted_events_no_end(v.uncounted_votes@, ElementName::TotalCounted);
    lemma_uncounted_events_no_end(v.uncounted_votes@, ElementName::RejectedVotes);
    lemma_no_end_of_concat(u, end, ElementName::Cast);
    lemma_no_end_of_concat(u, end, ElementName::TotalCounted);
    lemma_no_end_of_concat(u, end, ElementName::RejectedVotes);
    lemma_vote_counts_read_back(
        p,
        v.eligible_voter_count,
        v.candidate_votes_count,
        v.rejected_votes_blank,
        v.rejected_votes_invalid,
        q,
    );
    assert(v.spec_events() =~= p + vote_count_events(
        v.eligible_voter_count,
        v.candidate_votes_count,
        v.rejected_votes_blank,
        v.rejected_votes_invalid,
    ) + q);
}

/// Reading back the written reporting unit votes: in its events, the `Cast`
/// element holds the eligible voter count, `TotalCounted` the candidate
/// votes count, and the `RejectedVotes` elements with reason code `blanco`
/// and `ongeldig` the blank and the invalid count.
pub proof fn lemma_reporting_unit_votes_events_read_back(v: ReportingUnitVotes)
    ensures
        last_text_of(v.spec_events(), ElementName::Cast) == Some(v.eligible_voter_count),
        last_text_of(v.spec_events(), ElementName::TotalCounted) == Some(v.candidate_votes_count),
        last_rejected_text(v.spec_events(), "blanco"@) == Some(v.rejected_votes_blank),
        last_rejected_text(v.spec_events(), "ongeldig"@) == Some(v.rejected_votes_invalid),
{
    let p = seq![XmlEvent::Start(ElementName::ReportingUnitVotes)] + v.identifier.spec_events()
        + count_selections_events(v.selections@);
    let u = uncounted_votes_events(v.uncounted_votes@);
    let inv = optional_investigations_events(v.investigations);
    let end = seq![XmlEvent::End(ElementName::ReportingUnitVotes)];
    let q = u + inv + end;
    lemma_uncounted_events_no_end(v.uncounted_votes@, ElementName::Cast);
    lemma_uncounted_events_no_end(v.uncounted_votes@, ElementName::TotalCounted);
    lemma_uncounted_events_no_end(v.uncounted_votes@, ElementName::RejectedVotes);
    lemma_investigations_events_no_end(v.investigations, ElementName::Cast);
    lemma_investigations_events_no_end(v.investigations, ElementName::TotalCounted);
    lemma_investigations_events_no_end(v.investigations, ElementName::RejectedVotes);
    lemma_no_end_of_concat(u, inv, ElementName::Cast);
    lemma_no_end_of_concat(u, inv, ElementName::TotalCounted);
    lemma_no_end_of_concat(u, inv, ElementName::RejectedVotes);
    lemma_no_end_of_concat(u + inv, end, ElementName::Cast);
    lemma_no_end_of_concat(u + inv, end, ElementName::TotalCounted);
    lemma_no_end_of_concat(u + inv, end, ElementName::RejectedVotes);
    lemma_vote_counts_read_back(
        p,
        v.eligible_voter_count,
        v.candidate_votes_count,
        v.rejected_votes_blank,
        v.rejected_votes_invalid,
        q,
    );
    assert(v.spec_events() =~= p + vote_count_events(
        v.eligible_voter_count,
        v.candidate_votes_count,
        v.rejected_votes_blank,
        v.rejected_votes_invalid,
    ) + q);
}

/// The events of an election identifier, from its parts.
pub open spec fn election_identifier_events(
    id: String,
    name: Option<String>,
    category: String,
    subcategory: Option<String>,
    domain: Option<ElectionDomain>,
    election_date: String,
) -> Seq<XmlEvent> {
    seq![
        XmlEvent::Start(ElementName::ElectionIdentifier),
        XmlEvent::Attribute(AttributeName::Id, id),
    ] + optional_text_element(ElementName::ElectionName, name) + text_element(
        ElementName::ElectionCategory,
        category,
    ) + optional_text_element(ElementName::ElectionSubcategory, subcategory)
        + optional_domain_events(domain) + text_element(ElementName::ElectionDate, election_date)
        + seq![XmlEvent::End(ElementName::ElectionIdentifier)]
}

/// No text-only child of an election identifier ends inside the events of
/// an optional domain or of another such child.
proof fn lemma_election_identifier_parts_no_end(
    name: Option<String>,
    category: String,
    subcategory: Option<String>,
    domain: Option<ElectionDomain>,
    election_date: String,
    n: ElementName,
)
    requires
        n == ElementName::ElectionName || n == ElementName::ElectionCategory || n
            == ElementName::ElectionSubcategory || n == ElementName::ElectionDate,
    ensures
        n != ElementName::ElectionName ==> no_end_of(
            optional_text_element(ElementName::ElectionName, name),
            n,
        ),
        n != ElementName::ElectionCategory ==> no_end_of(
            text_element(ElementName::ElectionCategory, category),
            n,
        ),
        n != ElementName::ElectionSubcategory ==> no_end_of(
            optional_text_element(ElementName::ElectionSubcategory, subcategory),
            n,
        ),
        n != ElementName::ElectionDate ==> no_end_of(
            text_element(ElementName::ElectionDate, election_date),
            n,
        ),
        no_end_of(optional_domain_events(domain), n),
        no_end_of(seq![XmlEvent::End(ElementName::ElectionIdentifier)], n),
{
}

/// Reading back an election identifier from its events: the `Id`
/// attribute is its id, `ElectionName` holds its name exactly when it has
/// one, `ElectionCategory` its category, `kr:ElectionSubcategory` its
/// subcategory exactly when it has one, and `kr:ElectionDate` its date.
pub proof fn lemma_election_identifier_read_back(
    id: String,
    name: Option<String>,
    category: String,
    subcategory: Option<String>,
    domain: Option<ElectionDomain>,
    election_date: String,
)
    ensures
        ({
            let evs = election_identifier_events(
                id,
                name,
                category,
                subcategory,
                domain,
                election_date,
            );
            &&& start_attribute(evs, AttributeName::Id) == Some(id)
            &&& last_text_of(evs, ElementName::ElectionName) == name
            &&& last_text_of(evs, ElementName::ElectionCategory) == Some(category)
            &&& last_text_of(evs, ElementName::ElectionSubcategory) == subcategory
            &&& last_text_of(evs, ElementName::ElectionDate) == Some(election_date)
        }),
{
    let h = seq![
        XmlEvent::Start(ElementName::ElectionIdentifier),
        XmlEvent::Attribute(AttributeName::Id, id),
    ];
    let a = optional_text_element(ElementName::ElectionName, name);
    let b = text_element(ElementName::ElectionCategory, category);
    let c = optional_text_element(ElementName::ElectionSubcategory, subcategory);
    let d = optional_domain_events(domain);
    let e = text_element(ElementName::ElectionDate, election_date);
    let z = seq![XmlEvent::End(ElementName::ElectionIdentifier)];
    let evs = election_identifier_events(id, name, category, subcategory, domain, election_date);
    assert(evs =~= h + a + b + c + d + e + z);
    assert(evs.drop_first()[0] == XmlEvent::Attribute(AttributeName::Id, id));
    let names = seq![
        ElementName::ElectionName,
        ElementName::ElectionCategory,
        ElementName::ElectionSubcategory,
        ElementName::ElectionDate,
    ];
    assert forall|k: int| 0 <= k < 4 implies {
        let n = #[trigger] names[k];
        &&& no_end_of(h, n)
        &&& no_end_of(d, n)
        &&& no_end_of(z, n)
        &&& (n != ElementName::ElectionName ==> no_end_of(a, n))
        &&& (n != ElementName::ElectionCategory ==> no_end_of(b, n))
        &&& (n != ElementName::ElectionSubcategory ==> no_end_of(c, n))
        &&& (n != ElementName::ElectionDate ==> no_end_of(e, n))
    } by {
        lemma_election_identifier_parts_no_end(
            name,
            category,
            subcategory,
            domain,
            election_date,
            names[k],
        );
        assert(no_end_of(h, names[k]));
    }
    // ElectionDate
    let n = ElementName::ElectionDate;
    assert(names[3] == n);
    lemma_last_text_of_found(h + a + b + c + d, election_date, z, n);
    // ElectionCategory
    let n = ElementName::ElectionCategory;
    assert(names[1] == n);
    lemma_no_end_of_concat(c, d, n);
    lemma_no_end_of_concat(c + d, e, n);
    lemma_no_end_of_concat(c + d + e, z, n);
    lemma_last_text_of_found(h + a, category, c + d + e + z, n);
    assert(evs =~= (h + a) + text_element(n, category) + (c + d + e + z));
    // ElectionSubcategory
    let n = ElementName::ElectionSubcategory;
    assert(names[2] == n);
    lemma_no_end_of_concat(d, e, n);
    lemma_no_end_of_concat(d + e, z, n);
    match subcategory {
        Some(x) => {
            lemma_last_text_of_found(h + a + b, x, d + e + z, n);
            assert(evs =~= (h + a + b) + text_element(n, x) + (d + e + z));
        },
        None => {
            lemma_no_end_of_concat(h, a, n);
            lemma_no_end_of_concat(h + a, b, n);
            lemma_no_end_of_concat(h + a + b, d + e + z, n);
            assert(evs =~= (h + a + b) + (d + e + z));
            lemma_last_text_of_absent((h + a + b) + (d + e + z), n);
        },
    }
    // ElectionName
    let n = ElementName::ElectionName;
    assert(names[0] == n);
    lemma_no_end_of_concat(b, c, n);
    lemma_no_end_of_concat(b + c, d, n);
    lemma_no_end_of_concat(b + c + d, e, n);
    lemma_no_end_of_concat(b + c + d + e, z, n);
    match name {
        Some(x) => {
            lemma_last_text_of_found(h, x, b + c + d + e + z, n);
            assert(evs =~= h + text_element(n, x) + (b + c + d + e + z));
        },
        None => {
            lemma_no_end_of_concat(h, b + c + d + e + z, n);
            assert(evs =~= h + (b + c + d + e + z));
            lemma_last_text_of_absent(h + (b + c + d + e + z), n);
        },
    }
}

/// Reading back the written election identifier of a count: its id, name,
/// category, subcategory and date are what its events give back.
pub proof fn lemma_count_election_identifier_events_read_back(i: ElectionCountElectionIdentifier)
    ensures
        start_attribute(i.spec_events(), AttributeName::Id) == Some(i.id),
        last_text_of(i.spec_events(), ElementName::ElectionName) == i.name,
        last_text_of(i.spec_events(), ElementName::ElectionCategory) == Some(i.category),
        last_text_of(i.spec_events(), ElementName::ElectionSubcategory) == i.subcategory,
        last_text_of(i.spec_events(), ElementName::ElectionDate) == Some(i.election_date),
{
    lemma_election_identifier_read_back(
        i.id,
        i.name,
        i.category,
        i.subcategory,
        i.domain,
        i.election_date,
    );
    assert(i.spec_events() =~= election_identifier_events(
        i.id,
        i.name,
        i.category,
        i.subcategory,
        i.domain,
        i.election_date,
    ));
}

/// Reading back a written reporting unit identifier: its `Id` attribute
/// gives back its id and its text its name.
pub proof fn lemma_reporting_unit_identifier_events_read_back(r: ReportingUnitIdentifier)
    ensures
        start_attribute(r.spec_events(), AttributeName::Id) == Some(r.id),
        start_text(r.spec_events()) == Some(r.name),
{
    lemma_attribute_text_element_read_back(
        ElementName::ReportingUnitIdentifier,
        AttributeName::Id,
        r.id,
        r.name,
    );
    assert(r.spec_events() =~= attribute_text_element(
        ElementName::ReportingUnitIdentifier,
        AttributeName::Id,
        r.id,
        r.name,
    ));
}

/// Reading back written uncounted votes: the `ReasonCode` attribute gives
/// back the reason and the text the number.
pub proof fn lemma_uncounted_votes_events_read_back(u: UncountedVotes)
    ensures
        start_attribute(u.spec_events(), AttributeName::ReasonCode) == Some(u.reason),
        start_text(u.spec_events()) == Some(u.value),
{
    lemma_attribute_text_element_read_back(
        ElementName::UncountedVotes,
        AttributeName::ReasonCode,
        u.reason,
        u.value,
    );
    assert(u.spec_events() =~= attribute_text_element(
        ElementName::UncountedVotes,
        AttributeName::ReasonCode,
        u.reason,
        u.value,
    ));
}

/// Reading back a written investigation: the `ReasonCode` attribute gives
/// back the reason and the text whether it was investigated.
pub proof fn lemma_investigation_events_read_back(i: Investigation)
    ensures
        start_attribute(i.spec_events(), AttributeName::ReasonCode) == Some(i.reason),
        start_text(i.spec_events()) == Some(i.investigated),
{
    lemma_attribute_text_element_read_back(
        ElementName::Investigation,
        AttributeName::ReasonCode,
        i.reason,
        i.investigated,
    );
    assert(i.spec_events() =~= attribute_text_element(
        ElementName::Investigation,
        AttributeName::ReasonCode,
        i.reason,
        i.investigated,
    ));
}

/// Reading back a written affiliation selection of a count: the `Id`
/// attribute gives back its id and `RegisteredName` its name.
pub proof fn lemma_count_affiliation_events_read_back(a: AffiliationSelection)
    ensures
        start_attribute(a.spec_events(), AttributeName::Id) == Some(a.id),
        last_text_of(a.spec_events(), ElementName::RegisteredName) == Some(a.name),
{
    let h = seq![
        XmlEvent::Start(ElementName::AffiliationIdentifier),
        XmlEvent::Attribute(AttributeName::Id, a.id),
    ];
    let z = seq![XmlEvent::End(ElementName::AffiliationIdentifier)];
    assert(a.spec_events().drop_first()[0] == XmlEvent::Attribute(AttributeName::Id, a.id));
    assert(no_end_of(z, ElementName::RegisteredName));
    lemma_last_text_of_found(h, a.name, z, ElementName::RegisteredName);
}

/// Reading back a written referendum option: its `Id`, `DisplayOrder`,
/// `ShortCode` and `ExpectedConfirmationReference` attributes give back
/// those fields, each exactly when it is there, and its text its value.
pub proof fn lemma_referendum_option_events_read_back(r: ReferendumOptionSelection)
    ensures
        start_attribute(r.spec_events(), AttributeName::Id) == r.id,
        start_attribute(r.spec_events(), AttributeName::DisplayOrder) == r.display_order,
        start_attribute(r.spec_events(), AttributeName::ShortCode) == r.short_code,
        start_attribute(r.spec_events(), AttributeName::ExpectedConfirmationReference)
            == r.expected_confirmation_reference,
        start_text(r.spec_events()) == Some(r.value),
{
    let tail = seq![
        XmlEvent::Text(r.value),
        XmlEvent::End(ElementName::ReferendumOptionIdentifier),
    ];
    let attrs = optional_attribute(AttributeName::Id, r.id) + optional_attribute(
        AttributeName::DisplayOrder,
        r.display_order,
    ) + optional_attribute(AttributeName::ShortCode, r.short_code) + optional_attribute(
        AttributeName::ExpectedConfirmationReference,
        r.expected_confirmation_reference,
    ) + tail;
    assert(r.spec_events().drop_first() =~= attrs);
    assert forall|a: AttributeName| #[trigger] start_attribute(r.spec_events(), a) == if a
        == AttributeName::Id {
        r.id
    } else if a == AttributeName::DisplayOrder {
        r.display_order
    } else if a == AttributeName::ShortCode {
        r.short_code
    } else if a == AttributeName::ExpectedConfirmationReference {
        r.expected_confirmation_reference
    } else {
        None::<String>
    } by {
        lemma_four_optional_attributes(
            AttributeName::Id,
            r.id,
            AttributeName::DisplayOrder,
            r.display_order,
            AttributeName::ShortCode,
            r.short_code,
            AttributeName::ExpectedConfirmationReference,
            r.expected_confirmation_reference,
            tail,
            a,
        );
    }
    lemma_four_optional_attributes(
        AttributeName::Id,
        r.id,
        AttributeName::DisplayOrder,
        r.display_order,
        AttributeName::ShortCode,
        r.short_code,
        AttributeName::ExpectedConfirmationReference,
        r.expected_confirmation_reference,
        tail,
        AttributeName::Id,
    );
    assert(tail[0] == XmlEvent::Text(r.value));
}

/// Reading back a written candidate selection of a count: its identifier
/// reads back as it was, `CandidateFullName` holds its name and `Gender`
/// its gender, each exactly when it has one.
pub proof fn lemma_count_candidate_events_read_back(c: CandidateSelection)
    ensures
        last_text_of(c.spec_events(), ElementName::CandidateFullName) == c.name,
        last_text_of(c.spec_events(), ElementName::Gender) == c.gender,
        start_attribute(c.identifier.spec_events(), AttributeName::Id) == Some(c.identifier.id),
{
    lemma_candidate_identifier_events_read_back(c.identifier);
    let h = seq![XmlEvent::Start(ElementName::Candidate)] + c.identifier.spec_events();
    let n = optional_text_element(ElementName::CandidateFullName, c.name);
    let g = optional_text_element(ElementName::Gender, c.gender);
    let a = optional_address_events(c.qualified_address);
    let z = seq![XmlEvent::End(ElementName::Candidate)];
    assert(c.spec_events() =~= h + n + g + a + z);
    let fnm = ElementName::CandidateFullName;
    let gen = ElementName::Gender;
    assert(no_end_of(a, fnm));
    assert(no_end_of(a, gen));
    assert(no_end_of(z, fnm));
    assert(no_end_of(z, gen));
    assert(no_end_of(g, fnm));
    assert(no_end_of(n, gen));
    assert(no_end_of(h, fnm));
    assert(no_end_of(h, gen));
    // Gender
    lemma_no_end_of_concat(a, z, gen);
    match c.gender {
        Some(x) => {
            lemma_last_text_of_found(h + n, x, a + z, gen);
            assert(c.spec_events() =~= (h + n) + text_element(gen, x) + (a + z));
        },
        None => {
            lemma_no_end_of_concat(h, n, gen);
            lemma_no_end_of_concat(h + n, a + z, gen);
            assert(c.spec_events() =~= (h + n) + (a + z));
            lemma_last_text_of_absent((h + n) + (a + z), gen);
        },
    }
    // CandidateFullName
    lemma_no_end_of_concat(g, a, fnm);
    lemma_no_end_of_concat(g + a, z, fnm);
    match c.name {
        Some(x) => {
            lemma_last_text_of_found(h, x, g + a + z, fnm);
            assert(c.spec_events() =~= h + text_element(fnm, x) + (g + a + z));
        },
        None => {
            lemma_no_end_of_concat(h, g + a + z, fnm);
            assert(c.spec_events() =~= h + (g + a + z));
            lemma_last_text_of_absent(h + (g + a + z), fnm);
        },
    }
}

/// Reading back a written count selection: its `Value` and `Category`
/// attributes give back its value and category, each exactly when it has
/// one, and `ValidVotes` holds its valid votes.
pub proof fn lemma_count_selection_events_read_back(s: ElectionCountSelection)
    ensures
        start_attribute(s.spec_events(), AttributeName::Value) == s.value,
        start_attribute(s.spec_events(), AttributeName::Category) == s.category,
        last_text_of(s.spec_events(), ElementName::ValidVotes) == Some(s.valid_votes),
{
    let z = seq![XmlEvent::End(ElementName::Selection)];
    assert(no_end_of(z, ElementName::ValidVotes));
    let front = seq![XmlEvent::Start(ElementName::Selection)] + optional_attribute(
        AttributeName::Value,
        s.value,
    ) + optional_attribute(AttributeName::Category, s.category) + s.selection_type.spec_events();
    lemma_last_text_of_found(front, s.valid_votes, z, ElementName::ValidVotes);
    let t = s.selection_type.spec_events();
    let tail = t + text_element(ElementName::ValidVotes, s.valid_votes) + z;
    assert(tail[0] == t[0]);
    assert(t.len() > 0 && !(t[0] is Attribute) && !(t[0] is FixedAttribute));
    assert(s.spec_events().drop_first() =~= optional_attribute(AttributeName::Id, None) + optional_attribute(
        AttributeName::DisplayOrder,
        None,
    ) + optional_attribute(AttributeName::Value, s.value) + optional_attribute(
        AttributeName::Category,
        s.category,
    ) + tail);
    lemma_four_optional_attributes(
        AttributeName::Id,
        None,
        AttributeName::DisplayOrder,
        None,
        AttributeName::Value,
        s.value,
        AttributeName::Category,
        s.category,
        tail,
        AttributeName::Value,
    );
    lemma_four_optional_attributes(
        AttributeName::Id,
        None,
        AttributeName::DisplayOrder,
        None,
        AttributeName::Value,
        s.value,
        AttributeName::Category,
        s.category,
        tail,
        AttributeName::Category,
    );
}

/// The start of an element that can stand in a votes element but not inside
/// a selection.
pub open spec fn is_votes_part_start(e: XmlEvent) -> bool {
    ||| e == XmlEvent::Start(ElementName::Selection)
    ||| e == XmlEvent::Start(ElementName::UncountedVotes)
    ||| e == XmlEvent::Start(ElementName::ReportingUnitIdentifier)
    ||| e == XmlEvent::Start(ElementName::ReportingUnitInvestigations)
}

/// A candidate identifier's element holds no start of another element.
proof fn lemma_candidate_identifier_lacks(i: CandidateIdentifier, n: ElementName)
    requires
        n != ElementName::CandidateIdentifier,
    ensures
        lacks_event(i.spec_events(), XmlEvent::Start(n)),
{
    let e = XmlEvent::Start(n);
    let i0 = seq![
        XmlEvent::Start(ElementName::CandidateIdentifier),
        XmlEvent::Attribute(AttributeName::Id, i.id),
    ];
    let i1 = optional_attribute(AttributeName::DisplayOrder, i.display_order);
    let i2 = optional_attribute(AttributeName::ShortCode, i.short_code);
    let i3 = optional_attribute(
        AttributeName::ExpectedConfirmationReference,
        i.expected_confirmation_reference,
    );
    let i4 = seq![XmlEvent::End(ElementName::CandidateIdentifier)];
    assert(lacks_event(i1, e));
    assert(lacks_event(i2, e));
    assert(lacks_event(i3, e));
    lemma_lacks_event_concat(i0, i1, e);
    lemma_lacks_event_concat(i0 + i1, i2, e);
    lemma_lacks_event_concat(i0 + i1 + i2, i3, e);
    lemma_lacks_event_concat(i0 + i1 + i2 + i3, i4, e);
    assert(i.spec_events() =~= i0 + i1 + i2 + i3 + i4);
}

/// A count candidate's element starts no element other than its own parts.
#[verifier::rlimit(40)]
proof fn lemma_count_candidate_lacks(c: CandidateSelection, n: ElementName)
    requires
        n != ElementName::Candidate && n != ElementName::CandidateIdentifier && n
            != ElementName::CandidateFullName && n != ElementName::Gender && n
            != ElementName::QualifyingAddress,
    ensures
        lacks_event(c.spec_events(), XmlEvent::Start(n)),
{
    let e = XmlEvent::Start(n);
    lemma_candidate_identifier_lacks(c.identifier, n);
    let a0 = seq![XmlEvent::Start(ElementName::Candidate)];
    let a1 = c.identifier.spec_events();
    let a2 = optional_text_element(ElementName::CandidateFullName, c.name);
    let a3 = optional_text_element(ElementName::Gender, c.gender);
    let a4 = optional_address_events(c.qualified_address);
    let a5 = seq![XmlEvent::End(ElementName::Candidate)];
    assert(lacks_event(a2, e));
    assert(lacks_event(a3, e));
    assert(lacks_event(a4, e));
    lemma_lacks_event_concat(a0, a1, e);
    lemma_lacks_event_concat(a0 + a1, a2, e);
    lemma_lacks_event_concat(a0 + a1 + a2, a3, e);
    lemma_lacks_event_concat(a0 + a1 + a2 + a3, a4, e);
    lemma_lacks_event_concat(a0 + a1 + a2 + a3 + a4, a5, e);
    assert(c.spec_events() =~= a0 + a1 + a2 + a3 + a4 + a5);
}

/// A referendum option's element starts no element other than itself.
proof fn lemma_referendum_option_lacks(r: ReferendumOptionSelection, n: ElementName)
    requires
        n != ElementName::ReferendumOptionIdentifier,
    ensures
        lacks_event(r.spec_events(), XmlEvent::Start(n)),
{
    let e = XmlEvent::Start(n);
    let c0 = seq![XmlEvent::Start(ElementName::ReferendumOptionIdentifier)];
    let c1 = optional_attribute(AttributeName::Id, r.id);
    let c2 = optional_attribute(AttributeName::DisplayOrder, r.display_order);
    let c3 = optional_attribute(AttributeName::ShortCode, r.short_code);
    let c4 = optional_attribute(
        AttributeName::ExpectedConfirmationReference,
        r.expected_confirmation_reference,
    );
    let c5 = seq![
        XmlEvent::Text(r.value),
        XmlEvent::End(ElementName::ReferendumOptionIdentifier),
    ];
    assert(lacks_event(c1, e));
    assert(lacks_event(c2, e));
    assert(lacks_event(c3, e));
    assert(lacks_event(c4, e));
    lemma_lacks_event_concat(c0, c1, e);
    lemma_lacks_event_concat(c0 + c1, c2, e);
    lemma_lacks_event_concat(c0 + c1 + c2, c3, e);
    lemma_lacks_event_concat(c0 + c1 + c2 + c3, c4, e);
    lemma_lacks_event_concat(c0 + c1 + c2 + c3 + c4, c5, e);
    assert(r.spec_events() =~= c0 + c1 + c2 + c3 + c4 + c5);
}

/// The element of a selection's type holds no selection, uncounted votes,
/// reporting unit identifier or investigations element.
proof fn lemma_count_selection_type_lacks(t: ElectionCountSelectionType, e: XmlEvent)
    requires
        is_votes_part_start(e),
    ensures
        lacks_event(t.spec_events(), e),
{
    let n = match e {
        XmlEvent::Start(n) => n,
        _ => ElementName::Selection,
    };
    assert(e == XmlEvent::Start(n));
    match t {
        ElectionCountSelectionType::Candidate(c) => {
            lemma_count_candidate_lacks(*c, n);
        },
        ElectionCountSelectionType::Affiliation(a) => {
            let b0 = seq![
                XmlEvent::Start(ElementName::AffiliationIdentifier),
                XmlEvent::Attribute(AttributeName::Id, a.id),
            ];
            let b1 = text_element(ElementName::RegisteredName, a.name);
            let b2 = seq![XmlEvent::End(ElementName::AffiliationIdentifier)];
            lemma_lacks_event_concat(b0, b1, e);
            lemma_lacks_event_concat(b0 + b1, b2, e);
            assert(a.spec_events() =~= b0 + b1 + b2);
        },
        ElectionCountSelectionType::ReferendumOption(r) => {
            lemma_referendum_option_lacks(*r, n);
        },
    }
}

/// A selection's element starts one selection and holds no uncounted
/// votes, reporting unit identifier or investigations element.
proof fn lemma_count_selection_counts(s: ElectionCountSelection, e: XmlEvent)
    requires
        is_votes_part_start(e),
    ensures
        count_event(s.spec_events(), e) == if e == XmlEvent::Start(ElementName::Selection) {
            1nat
        } else {
            0nat
        },
{
    let h = seq![XmlEvent::Start(ElementName::Selection)];
    let rest = optional_attribute(AttributeName::Value, s.value) + optional_attribute(
        AttributeName::Category,
        s.category,
    ) + s.selection_type.spec_events() + text_element(ElementName::ValidVotes, s.valid_votes)
        + seq![XmlEvent::End(ElementName::Selection)];
    assert(s.spec_events() =~= h + rest);
    lemma_count_selection_type_lacks(s.selection_type, e);
    let r1 = optional_attribute(AttributeName::Value, s.value);
    let r2 = optional_attribute(AttributeName::Category, s.category);
    let r3 = s.selection_type.spec_events();
    let r4 = text_element(ElementName::ValidVotes, s.valid_votes);
    let r5 = seq![XmlEvent::End(ElementName::Selection)];
    assert(lacks_event(r1, e));
    assert(lacks_event(r2, e));
    lemma_lacks_event_concat(r1, r2, e);
    lemma_lacks_event_concat(r1 + r2, r3, e);
    lemma_lacks_event_concat(r1 + r2 + r3, r4, e);
    lemma_lacks_event_concat(r1 + r2 + r3 + r4, r5, e);
    lemma_count_event_basics(rest, XmlEvent::Start(ElementName::Selection), e);
    lemma_count_event_concat(h, rest, e);
}

/// The selections' elements start one selection each and hold no uncounted
/// votes, reporting unit identifier or investigations element.
proof fn lemma_count_selections_counts(sels: Seq<ElectionCountSelection>, e: XmlEvent)
    requires
        is_votes_part_start(e),
    ensures
        count_event(count_selections_events(sels), e) == if e == XmlEvent::Start(
            ElementName::Selection,
        ) {
            sels.len()
        } else {
            0nat
        },
    decreases sels.len(),
{
    if sels.len() == 0 {
        let x = XmlEvent::End(ElementName::Selection);
        lemma_count_event_basics(count_selections_events(sels), x, e);
    } else {
        lemma_count_selections_counts(sels.drop_last(), e);
        lemma_count_selection_counts(sels.last(), e);
        lemma_count_event_concat(count_selections_events(sels.drop_last()), sels.last().spec_events(), e);
    }
}

/// The uncounted votes' elements start one uncounted votes element each and
/// hold no selection, reporting unit identifier or investigations element.
proof fn lemma_uncounted_counts(u: Seq<UncountedVotes>, e: XmlEvent)
    requires
        is_votes_part_start(e),
    ensures
        count_event(uncounted_votes_events(u), e) == if e == XmlEvent::Start(
            ElementName::UncountedVotes,
        ) {
            u.len()
        } else {
            0nat
        },
    decreases u.len(),
{
    let x = XmlEvent::End(ElementName::Selection);
    if u.len() == 0 {
        lemma_count_event_basics(uncounted_votes_events(u), x, e);
    } else {
        lemma_uncounted_counts(u.drop_last(), e);
        let one = u.last().spec_events();
        let rest = one.drop_first();
        assert(one =~= seq![one[0]] + rest);
        assert(lacks_event(rest, e));
        lemma_count_event_basics(rest, one[0], e);
        lemma_count_event_concat(seq![one[0]], rest, e);
        lemma_count_event_concat(uncounted_votes_events(u.drop_last()), one, e);
    }
}

/// Reading back the written total votes: its events hold one selection
/// element for each of its selections and one uncounted votes element for
/// each of its uncounted votes.
pub proof fn lemma_total_votes_events_counts(v: TotalVotes)
    ensures
        count_event(v.spec_events(), XmlEvent::Start(ElementName::Selection))
            == v.selections@.len(),
        count_event(v.spec_events(), XmlEvent::Start(ElementName::UncountedVotes))
            == v.uncounted_votes@.len(),
{
    let h = seq![XmlEvent::Start(ElementName::TotalVotes)];
    let a = count_selections_events(v.selections@);
    let b = vote_count_events(
        v.eligible_voter_count,
        v.candidate_votes_count,
        v.rejected_votes_blank,
        v.rejected_votes_invalid,
    );
    let c = uncounted_votes_events(v.uncounted_votes@);
    let z = seq![XmlEvent::End(ElementName::TotalVotes)];
    assert(v.spec_events() =~= h + a + b + c + z);
    let es = seq![
        XmlEvent::Start(ElementName::Selection),
        XmlEvent::Start(ElementName::UncountedVotes),
    ];
    assert forall|k: int| 0 <= k < 2 implies count_event(v.spec_events(), #[trigger] es[k])
        == count_event(a, es[k]) + count_event(c, es[k]) by {
        let e = es[k];
        lemma_count_event_basics(h, XmlEvent::Start(ElementName::TotalVotes), e);
        lemma_count_event_basics(z, XmlEvent::End(ElementName::TotalVotes), e);
        lemma_count_event_basics(b, e, e);
        lemma_count_event_concat(h, a, e);
        lemma_count_event_concat(h + a, b, e);
        lemma_count_event_concat(h + a + b, c, e);
        lemma_count_event_concat(h + a + b + c, z, e);
    }
    lemma_count_selections_counts(v.selections@, es[0]);
    lemma_count_selections_counts(v.selections@, es[1]);
    lemma_uncounted_counts(v.uncounted_votes@, es[0]);
    lemma_uncounted_counts(v.uncounted_votes@, es[1]);
}

/// How many times a votes part starts in the events of reporting unit votes:
/// the sum over its identifier, selections, uncounted votes and
/// investigations.
proof fn lemma_reporting_unit_votes_count_for(v: ReportingUnitVotes, e: XmlEvent)
    requires
        is_votes_part_start(e),
    ensures
        count_event(v.spec_events(), e) == (if e == XmlEvent::Start(
            ElementName::ReportingUnitIdentifier,
        ) {
            1nat
        } else {
            0nat
        }) + (if e == XmlEvent::Start(ElementName::Selection) {
            v.selections@.len()
        } else {
            0nat
        }) + (if e == XmlEvent::Start(ElementName::UncountedVotes) {
            v.uncounted_votes@.len()
        } else {
            0nat
        }) + (if e == XmlEvent::Start(ElementName::ReportingUnitInvestigations)
            && v.investigations is Some {
            1nat
        } else {
            0nat
        }),
{
    let h = seq![XmlEvent::Start(ElementName::ReportingUnitVotes)];
    let i = v.identifier.spec_events();
    let a = count_selections_events(v.selections@);
    let b = vote_count_events(
        v.eligible_voter_count,
        v.candidate_votes_count,
        v.rejected_votes_blank,
        v.rejected_votes_invalid,
    );
    let c = uncounted_votes_events(v.uncounted_votes@);
    let d = optional_investigations_events(v.investigations);
    let z = seq![XmlEvent::End(ElementName::ReportingUnitVotes)];
    assert(v.spec_events() =~= h + i + a + b + c + d + z);
    lemma_count_event_basics(h, XmlEvent::Start(ElementName::ReportingUnitVotes), e);
    lemma_count_event_basics(z, XmlEvent::End(ElementName::ReportingUnitVotes), e);
    lemma_count_event_basics(b, e, e);
    lemma_count_event_concat(h, i, e);
    lemma_count_event_concat(h + i, a, e);
    lemma_count_event_concat(h + i + a, b, e);
    lemma_count_event_concat(h + i + a + b, c, e);
    lemma_count_event_concat(h + i + a + b + c, d, e);
    lemma_count_event_concat(h + i + a + b + c + d, z, e);
    lemma_count_selections_counts(v.selections@, e);
    lemma_uncounted_counts(v.uncounted_votes@, e);
    let i0 = seq![XmlEvent::Start(ElementName::ReportingUnitIdentifier)];
    let ir = i.drop_first();
    assert(i =~= i0 + ir);
    assert(lacks_event(ir, e));
    lemma_count_event_basics(ir, XmlEvent::Start(ElementName::ReportingUnitIdentifier), e);
    lemma_count_event_concat(i0, ir, e);
    match v.investigations {
        Some(inv) => {
            let d0 = seq![XmlEvent::Start(ElementName::ReportingUnitInvestigations)];
            let dr = investigations_events(inv.investigations@) + seq![
                XmlEvent::End(ElementName::ReportingUnitInvestigations),
            ];
            assert(d =~= d0 + dr);
            lemma_investigation_list_lacks(inv.investigations@, e);
            lemma_lacks_event_concat(
                investigations_events(inv.investigations@),
                seq![XmlEvent::End(ElementName::ReportingUnitInvestigations)],
                e,
            );
            lemma_count_event_basics(dr, XmlEvent::Start(ElementName::ReportingUnitInvestigations), e);
            lemma_count_event_concat(d0, dr, e);
        },
        None => {
            lemma_count_event_basics(d, e, e);
        },
    }
}

/// Reading back the written reporting unit votes: its events hold one
/// reporting unit identifier element, one selection element for each of its
/// selections, one uncounted votes element for each of its uncounted votes,
/// and an investigations element exactly when it has investigations.
pub proof fn lemma_reporting_unit_votes_events_counts(v: ReportingUnitVotes)
    ensures
        count_event(v.spec_events(), XmlEvent::Start(ElementName::ReportingUnitIdentifier))
            == 1,
        count_event(v.spec_events(), XmlEvent::Start(ElementName::Selection))
            == v.selections@.len(),
        count_event(v.spec_events(), XmlEvent::Start(ElementName::UncountedVotes))
            == v.uncounted_votes@.len(),
        count_event(v.spec_events(), XmlEvent::Start(ElementName::ReportingUnitInvestigations))
            == if v.investigations is Some {
            1nat
        } else {
            0nat
        },
{
    lemma_reporting_unit_votes_count_for(v, XmlEvent::Start(ElementName::ReportingUnitIdentifier));
    lemma_reporting_unit_votes_count_for(v, XmlEvent::Start(ElementName::Selection));
    lemma_reporting_unit_votes_count_for(v, XmlEvent::Start(ElementName::UncountedVotes));
    lemma_reporting_unit_votes_count_for(
        v,
        XmlEvent::Start(ElementName::ReportingUnitInvestigations),
    );
}

proof fn lemma_investigation_list_lacks(s: Seq<Investigation>, e: XmlEvent)
    requires
        is_votes_part_start(e),
    ensures
        lacks_event(investigations_events(s), e),
    decreases s.len(),
{
    if s.len() > 0 {
        lemma_investigation_list_lacks(s.drop_last(), e);
        lemma_lacks_event_concat(investigations_events(s.drop_last()), s.last().spec_events(), e);
    }
}

/// The investigations' elements are one investigation element each.
proof fn lemma_investigation_list_count(s: Seq<Investigation>)
    ensures
        count_event(investigations_events(s), XmlEvent::Start(ElementName::Investigation))
            == s.len(),
    decreases s.len(),
{
    let e = XmlEvent::Start(ElementName::Investigation);
    if s.len() == 0 {
        lemma_count_event_basics(investigations_events(s), e, e);
    } else {
        lemma_investigation_list_count(s.drop_last());
        let one = s.last().spec_events();
        let rest = one.drop_first();
        assert(one =~= seq![one[0]] + rest);
        assert(lacks_event(rest, e));
        lemma_count_event_basics(rest, one[0], e);
        lemma_count_event_concat(seq![one[0]], rest, e);
        lemma_count_event_concat(investigations_events(s.drop_last()), one, e);
    }
}

/// Reading back written investigations: their events hold one investigation
/// element for each investigation.
pub proof fn lemma_investigations_events_count(r: ReportingUnitInvestigations)
    ensures
        count_event(r.spec_events(), XmlEvent::Start(ElementName::Investigation))
            == r.investigations@.len(),
{
    let e = XmlEvent::Start(ElementName::Investigation);
    let h = seq![XmlEvent::Start(ElementName::ReportingUnitInvestigations)];
    let b = investigations_events(r.investigations@);
    let z = seq![XmlEvent::End(ElementName::ReportingUnitInvestigations)];
    lemma_investigation_list_count(r.investigations@);
    lemma_count_event_basics(b, XmlEvent::Start(ElementName::ReportingUnitInvestigations), e);
    lemma_count_event_basics(b, XmlEvent::End(ElementName::ReportingUnitInvestigations), e);
    lemma_count_event_concat(h, b, e);
    lemma_count_event_concat(h + b, z, e);
}

} // verus!
