use eml_nl::common::{
    AddressChild, CandidateIdentifier, CountryNameCode, ElectionDomain, MinimalQualifyingAddress,
    MinimalQualifyingAddressCountry, MinimalQualifyingAddressLocality, RegionCategory,
};
use eml_nl::documents::election_count::{
    AffiliationSelection as CountAffiliation, CandidateSelection as CountCandidate,
};
use eml_nl::documents::election_result::{
    AffiliationSelection as ResultAffiliation,
};
use eml_nl::documents::{
    CountSelectionChild, CountType, ElectionCount, ElectionCountElectionIdentifier,
    ElectionCountSelection, ElectionCountSelectionType, ElectionResult, ElectionResultSelection,
    ElectionResultSelectionType, Investigation, ReferendumOptionSelection,
    ReportingUnitIdentifier, ReportingUnitInvestigations, ReportingUnitVotes,
    ResultSelectionChild, TotalVotes, UncountedVotes, VotesChild,
};
use eml_nl::utils::CandidateIdType;
use eml_nl::xml::{
    AttributeName, ChildName, ElementName, Namespace, QName, ReadError, ReadErrorKind, Span,
    XmlEvent,
};

fn s(v: &str) -> String {
    v.to_string()
}

fn other(local: &str) -> QName {
    QName { namespace: Some(s("urn:oasis:names:tc:evs:schema:eml")), local: s(local) }
}

fn sp(start: usize, end: usize) -> Span {
    Span { start, end }
}

fn at(kind: ReadErrorKind, span: Span) -> ReadError {
    ReadError { kind, span: Some(span) }
}

#[test]
fn test_simple_candidate_identifier() {
    // <CandidateIdentifier xmlns="urn:oasis:names:tc:evs:schema:eml" Id="1"/>
    let can_id = CandidateIdentifier::from_parts(s("1"), None, None, None, None);
    assert_eq!(can_id.id, "1");
    assert!(CandidateIdType::new(&can_id.id).is_ok());
    assert_eq!(can_id.display_order, None);
    assert_eq!(can_id.short_code, None);
    assert_eq!(can_id.expected_confirmation_reference, None);

    let mut out = Vec::new();
    can_id.write_events(&mut out);
    assert_eq!(
        out,
        vec![
            XmlEvent::Start(ElementName::CandidateIdentifier),
            XmlEvent::Attribute(AttributeName::Id, s("1")),
            XmlEvent::End(ElementName::CandidateIdentifier),
        ]
    );
}

#[test]
fn test_all_attributes_candidate_identifier() {
    // <CandidateIdentifier Id="2254" DisplayOrder="2" ShortCode="1234"
    //   ExpectedConfirmationReference="Ref123"/>
    let can_id = CandidateIdentifier::from_parts(
        s("2254"),
        Some(s("2")),
        Some(s("1234")),
        Some(s("Ref123")),
        None,
    );
    assert_eq!(can_id.id, "2254");
    assert_eq!(can_id.display_order, Some(s("2")));
    assert_eq!(can_id.short_code, Some(s("1234")));
    assert_eq!(can_id.expected_confirmation_reference, Some("Ref123".to_string()));

    let mut out = Vec::new();
    can_id.write_events(&mut out);
    assert_eq!(
        out,
        vec![
            XmlEvent::Start(ElementName::CandidateIdentifier),
            XmlEvent::Attribute(AttributeName::Id, s("2254")),
            XmlEvent::Attribute(AttributeName::DisplayOrder, s("2")),
            XmlEvent::Attribute(AttributeName::ShortCode, s("1234")),
            XmlEvent::Attribute(AttributeName::ExpectedConfirmationReference, s("Ref123")),
            XmlEvent::End(ElementName::CandidateIdentifier),
        ]
    );
}

#[test]
fn test_election_domain_construction() {
    let ed = ElectionDomain::new(s("1234"), s("Test Domain"));
    assert_eq!(ed.id, "1234");
    assert_eq!(ed.name, "Test Domain");
}

#[test]
fn test_election_domain_parsing() {
    // <kr:ElectionDomain Id="1234">Test Domain</kr:ElectionDomain>
    let ed = ElectionDomain::new(s("1234"), s("Test Domain"));
    assert_eq!(ed.id, "1234");
    assert_eq!(ed.name, "Test Domain");

    let mut out = Vec::new();
    ed.write_events(&mut out);
    assert_eq!(
        out,
        vec![
            XmlEvent::Start(ElementName::ElectionDomain),
            XmlEvent::Attribute(AttributeName::Id, s("1234")),
            XmlEvent::Text(s("Test Domain")),
            XmlEvent::End(ElementName::ElectionDomain),
        ]
    );
}

#[test]
fn candidate_identifier_short_code_attribute_wins() {
    let c = CandidateIdentifier::from_parts(s("3"), None, Some(s("A")), None, Some(s("B")));
    assert_eq!(c.short_code, Some(s("A")));
    let c = CandidateIdentifier::from_parts(s("3"), None, None, None, Some(s("B")));
    assert_eq!(c.short_code, Some(s("B")));
    let c = CandidateIdentifier::new(s("7"));
    assert_eq!(c.id, "7");
    assert_eq!(c.short_code, None);
}

#[test]
fn region_category_new_wraps_error() {
    assert_eq!(RegionCategory::new("STAAT"), Ok(RegionCategory::STAAT));
    assert_eq!(
        RegionCategory::new("staat"),
        Err(ReadError { kind: ReadErrorKind::InvalidValue(s("staat")), span: None })
    );
}

#[test]
fn element_names() {
    assert_eq!(ElementName::ElectionDate.namespace(), Namespace::Kr);
    assert_eq!(ElementName::Country.namespace(), Namespace::Xal);
    assert_eq!(ElementName::Selection.namespace(), Namespace::Eml);
    assert_eq!(ElementName::ReportingUnitInvestigations.local_name(), "ReportingUnitInvestigations");
    assert_eq!(ElementName::Cast.local_name(), "Cast");
}

fn locality(name: &str) -> MinimalQualifyingAddressLocality {
    MinimalQualifyingAddressLocality { locality_name: s(name) }
}

#[test]
fn qualifying_address_first_choice_wins() {
    let (r, w) = MinimalQualifyingAddress::from_children(
        vec![
            AddressChild::Locality(locality("Utrecht"), sp(10, 40)),
            AddressChild::Locality(locality("Ede"), sp(40, 66)),
        ],
        sp(0, 90),
        false,
    );
    assert_eq!(r, Ok(MinimalQualifyingAddress::Locality(locality("Utrecht"))));
    assert_eq!(
        w,
        vec![at(
            ReadErrorKind::UnexpectedElement(
                ChildName::Known(ElementName::Locality),
                ElementName::QualifyingAddress
            ),
            sp(40, 66)
        )]
    );
    let (r, w) = MinimalQualifyingAddress::from_children(
        vec![
            AddressChild::Locality(locality("Utrecht"), sp(10, 40)),
            AddressChild::Other(other("X"), sp(41, 45)),
        ],
        sp(0, 90),
        true,
    );
    assert_eq!(
        r,
        Err(at(
            ReadErrorKind::UnexpectedElement(
                ChildName::Unknown(other("X")),
                ElementName::QualifyingAddress
            ),
            sp(41, 45)
        ))
    );
    assert!(w.is_empty());
}

#[test]
fn qualifying_address_country_and_missing() {
    let country = MinimalQualifyingAddressCountry {
        country_name_code: CountryNameCode::new(s("NL")),
        locality: locality("Den Haag"),
    };
    let (r, w) = MinimalQualifyingAddress::from_children(
        vec![AddressChild::Country(country.clone(), sp(5, 50))],
        sp(0, 60),
        true,
    );
    assert_eq!(r, Ok(MinimalQualifyingAddress::Country(country)));
    assert!(w.is_empty());
    let (r, w) = MinimalQualifyingAddress::from_children(
        vec![AddressChild::Other(other("Y"), sp(5, 9))],
        sp(0, 20),
        false,
    );
    assert_eq!(
        r,
        Err(at(
            ReadErrorKind::MissingChoiceElements(vec![ElementName::Country, ElementName::Locality]),
            sp(0, 20)
        ))
    );
    assert_eq!(
        w,
        vec![at(
            ReadErrorKind::UnexpectedElement(
                ChildName::Unknown(other("Y")),
                ElementName::QualifyingAddress
            ),
            sp(5, 9)
        )]
    );
    let mut out = Vec::new();
    MinimalQualifyingAddress::Locality(locality("A")).write_events(&mut out);
    assert_eq!(
        out,
        vec![
            XmlEvent::Start(ElementName::QualifyingAddress),
            XmlEvent::End(ElementName::QualifyingAddress)
        ]
    );
}

fn affiliation() -> CountAffiliation {
    CountAffiliation { id: s("1"), name: s("Partij A") }
}

#[test]
fn count_selection_read_last_wins_and_errors() {
    let (r, w) = ElectionCountSelection::from_children(
        Some(s("v")),
        None,
        vec![
            CountSelectionChild::ValidVotes(s("10")),
            CountSelectionChild::Other(other("Junk"), sp(30, 38)),
            CountSelectionChild::Affiliation(Box::new(affiliation())),
            CountSelectionChild::ValidVotes(s("12")),
        ],
        sp(12, 200),
        false,
    );
    let sel = r.unwrap();
    assert_eq!(sel.valid_votes, "12");
    assert_eq!(sel.value, Some(s("v")));
    assert_eq!(sel.selection_type, ElectionCountSelectionType::Affiliation(Box::new(affiliation())));
    assert_eq!(
        w,
        vec![at(
            ReadErrorKind::UnexpectedElement(ChildName::Unknown(other("Junk")), ElementName::Selection),
            sp(30, 38)
        )]
    );

    let (r, _) = ElectionCountSelection::from_children(
        None,
        None,
        vec![
            CountSelectionChild::Affiliation(Box::new(affiliation())),
            CountSelectionChild::Other(other("Junk"), sp(70, 71)),
        ],
        sp(12, 200),
        true,
    );
    assert_eq!(
        r,
        Err(at(
            ReadErrorKind::UnexpectedElement(ChildName::Unknown(other("Junk")), ElementName::Selection),
            sp(70, 71)
        ))
    );
    let (r, _) = ElectionCountSelection::from_children(
        None,
        None,
        vec![CountSelectionChild::ValidVotes(s("1"))],
        sp(12, 40),
        true,
    );
    assert_eq!(r, Err(at(ReadErrorKind::MissingSelectionType, sp(12, 40))));
    let (r, _) = ElectionCountSelection::from_children(
        None,
        None,
        vec![CountSelectionChild::Affiliation(Box::new(affiliation()))],
        sp(12, 41),
        true,
    );
    assert_eq!(r, Err(at(ReadErrorKind::MissingElement(ElementName::ValidVotes), sp(12, 41))));
}

fn count_selection() -> ElectionCountSelection {
    ElectionCountSelection {
        selection_type: ElectionCountSelectionType::Affiliation(Box::new(affiliation())),
        valid_votes: s("12"),
        value: None,
        category: Some(s("c")),
    }
}

#[test]
fn count_selection_write() {
    let mut out = Vec::new();
    count_selection().write_events(&mut out);
    assert_eq!(
        out,
        vec![
            XmlEvent::Start(ElementName::Selection),
            XmlEvent::Attribute(AttributeName::Category, s("c")),
            XmlEvent::Start(ElementName::AffiliationIdentifier),
            XmlEvent::Attribute(AttributeName::Id, s("1")),
            XmlEvent::Start(ElementName::RegisteredName),
            XmlEvent::Text(s("Partij A")),
            XmlEvent::End(ElementName::RegisteredName),
            XmlEvent::End(ElementName::AffiliationIdentifier),
            XmlEvent::Start(ElementName::ValidVotes),
            XmlEvent::Text(s("12")),
            XmlEvent::End(ElementName::ValidVotes),
            XmlEvent::End(ElementName::Selection),
        ]
    );
}

#[test]
fn candidate_and_referendum_write() {
    let c = CountCandidate {
        identifier: CandidateIdentifier::new(s("4")),
        name: None,
        gender: Some(s("female")),
        qualified_address: None,
    };
    let mut out = Vec::new();
    c.write_events(&mut out);
    assert_eq!(out.len(), 8);
    assert_eq!(out[4], XmlEvent::Start(ElementName::Gender));
    let r = ReferendumOptionSelection {
        value: s("Ja"),
        id: Some(s("1")),
        display_order: None,
        short_code: None,
        expected_confirmation_reference: None,
    };
    let mut out = Vec::new();
    r.write_events(&mut out);
    assert_eq!(
        out,
        vec![
            XmlEvent::Start(ElementName::ReferendumOptionIdentifier),
            XmlEvent::Attribute(AttributeName::Id, s("1")),
            XmlEvent::Text(s("Ja")),
            XmlEvent::End(ElementName::ReferendumOptionIdentifier),
        ]
    );
}

#[test]
fn result_selection_read() {
    let aff = ResultAffiliation { id: s("2"), name: s("B") };
    let (r, w) = ElectionResultSelection::from_children(
        vec![
            ResultSelectionChild::Affiliation(Box::new(aff.clone())),
            ResultSelectionChild::Ranking(s("1")),
            ResultSelectionChild::Elected(s("yes")),
        ],
        sp(3, 99),
        true,
    );
    let sel = r.unwrap();
    assert!(w.is_empty());
    assert_eq!(sel.selection_type, ElectionResultSelectionType::Affiliation(Box::new(aff.clone())));
    assert_eq!(sel.votes, None);
    assert_eq!(sel.ranking, Some(s("1")));
    assert_eq!(sel.elected, "yes");

    let mut out = Vec::new();
    sel.write_events(&mut out);
    assert_eq!(out[0], XmlEvent::Start(ElementName::Selection));
    assert_eq!(out[7], XmlEvent::Start(ElementName::Ranking));
    assert_eq!(out[10], XmlEvent::Start(ElementName::Elected));

    let (r, _) = ElectionResultSelection::from_children(
        vec![ResultSelectionChild::Affiliation(Box::new(aff)), ResultSelectionChild::Votes(s("3"))],
        sp(3, 50),
        false,
    );
    assert_eq!(r, Err(at(ReadErrorKind::MissingElement(ElementName::Elected), sp(3, 50))));
    let (r, w) = ElectionResultSelection::from_children(
        vec![
            ResultSelectionChild::Other(other("Q"), sp(7, 12)),
            ResultSelectionChild::Elected(s("no")),
        ],
        sp(3, 51),
        false,
    );
    assert_eq!(r, Err(at(ReadErrorKind::MissingSelectionType, sp(3, 51))));
    assert_eq!(
        w,
        vec![at(
            ReadErrorKind::UnexpectedElement(ChildName::Unknown(other("Q")), ElementName::Selection),
            sp(7, 12)
        )]
    );
    let (r, w) = ElectionResultSelection::from_children(
        vec![
            ResultSelectionChild::Elected(s("no")),
            ResultSelectionChild::Other(other("Q"), sp(20, 25)),
        ],
        sp(3, 51),
        true,
    );
    assert_eq!(
        r,
        Err(at(
            ReadErrorKind::UnexpectedElement(ChildName::Unknown(other("Q")), ElementName::Selection),
            sp(20, 25)
        ))
    );
    assert!(w.is_empty());
}

fn vote_children() -> Vec<VotesChild> {
    vec![
        VotesChild::Selection(count_selection()),
        VotesChild::Cast(s("100")),
        VotesChild::TotalCounted(s("90")),
        VotesChild::RejectedVotes(Some(s("ongeldig")), s("3")),
        VotesChild::RejectedVotes(Some(s("blanco")), s("2")),
        VotesChild::RejectedVotes(Some(s("anders")), s("9")),
        VotesChild::UncountedVotes(UncountedVotes { value: s("1"), reason: s("geen verklaring") }),
    ]
}

#[test]
fn total_votes_read_and_write() {
    let (r, w) = TotalVotes::from_children(vote_children(), sp(0, 500), true);
    let tv = r.unwrap();
    assert!(w.is_empty());
    assert_eq!(tv.selections, vec![count_selection()]);
    assert_eq!(tv.eligible_voter_count, "100");
    assert_eq!(tv.candidate_votes_count, "90");
    assert_eq!(tv.rejected_votes_blank, "2");
    assert_eq!(tv.rejected_votes_invalid, "3");
    assert_eq!(tv.uncounted_votes.len(), 1);

    let mut out = Vec::new();
    tv.write_events(&mut out);
    let n = out.len();
    assert_eq!(out[0], XmlEvent::Start(ElementName::TotalVotes));
    assert_eq!(out[13], XmlEvent::Start(ElementName::Cast));
    assert_eq!(out[19], XmlEvent::Start(ElementName::RejectedVotes));
    assert_eq!(out[20], XmlEvent::FixedAttribute(AttributeName::ReasonCode, "blanco"));
    assert_eq!(out[21], XmlEvent::Text(s("2")));
    assert_eq!(out[24], XmlEvent::FixedAttribute(AttributeName::ReasonCode, "ongeldig"));
    assert_eq!(out[27], XmlEvent::Start(ElementName::UncountedVotes));
    assert_eq!(out[n - 1], XmlEvent::End(ElementName::TotalVotes));

    let mut unit = vote_children();
    unit.push(VotesChild::Identifier(
        ReportingUnitIdentifier { id: s("SB1"), name: s("x") },
        sp(400, 420),
    ));
    let (r, _) = TotalVotes::from_children(unit, sp(0, 500), true);
    assert_eq!(
        r,
        Err(at(
            ReadErrorKind::UnexpectedElement(
                ChildName::Known(ElementName::ReportingUnitIdentifier),
                ElementName::TotalVotes
            ),
            sp(400, 420)
        ))
    );
}

#[test]
fn total_votes_missing_totals() {
    let mut cs = vote_children();
    cs.remove(4);
    let (r, _) = TotalVotes::from_children(cs, sp(1, 2), true);
    assert_eq!(r, Err(at(ReadErrorKind::MissingRejectedVotesBlank, sp(1, 2))));
    let mut cs = vote_children();
    cs.remove(3);
    let (r, _) = TotalVotes::from_children(cs, sp(1, 3), true);
    assert_eq!(r, Err(at(ReadErrorKind::MissingRejectedVotesInvalid, sp(1, 3))));
    let mut cs = vote_children();
    cs.remove(1);
    let (r, _) = TotalVotes::from_children(cs, sp(1, 4), false);
    assert_eq!(r, Err(at(ReadErrorKind::MissingElement(ElementName::Cast), sp(1, 4))));
}

#[test]
fn reporting_unit_votes_read_and_write() {
    let (r, _) = ReportingUnitVotes::from_children(vote_children(), sp(8, 80), true);
    assert_eq!(
        r,
        Err(at(ReadErrorKind::MissingElement(ElementName::ReportingUnitIdentifier), sp(8, 80)))
    );

    let mut cs = vote_children();
    cs.insert(0, VotesChild::Identifier(
        ReportingUnitIdentifier { id: s("SB1"), name: s("Stembureau 1") },
        sp(9, 30),
    ));
    cs.push(VotesChild::Investigations(
        ReportingUnitInvestigations {
            investigations: vec![Investigation {
                investigated: s("true"),
                reason: s("uitslag gecorrigeerd"),
            }],
        },
        sp(60, 70),
    ));
    cs.push(VotesChild::Other(other("Extra"), sp(71, 79)));
    let (r, w) = ReportingUnitVotes::from_children(cs, sp(8, 80), false);
    let v = r.unwrap();
    assert_eq!(v.identifier.id, "SB1");
    assert!(v.investigations.is_some());
    assert_eq!(
        w,
        vec![at(
            ReadErrorKind::UnexpectedElement(
                ChildName::Unknown(other("Extra")),
                ElementName::ReportingUnitVotes
            ),
            sp(71, 79)
        )]
    );

    let mut out = Vec::new();
    v.write_events(&mut out);
    assert_eq!(out[0], XmlEvent::Start(ElementName::ReportingUnitVotes));
    assert_eq!(out[1], XmlEvent::Start(ElementName::ReportingUnitIdentifier));
    assert_eq!(out[2], XmlEvent::Attribute(AttributeName::Id, s("SB1")));
    assert_eq!(out[5], XmlEvent::Start(ElementName::Selection));
    let n = out.len();
    assert_eq!(out[n - 7], XmlEvent::Start(ElementName::ReportingUnitInvestigations));
    assert_eq!(out[n - 1], XmlEvent::End(ElementName::ReportingUnitVotes));
}

#[test]
fn election_identifier_write() {
    let id = ElectionCountElectionIdentifier {
        id: s("GR2026_Ede"),
        name: None,
        category: s("GR"),
        subcategory: Some(s("GR1")),
        domain: Some(ElectionDomain::new(s("0228"), s("Ede"))),
        election_date: s("2026-03-18"),
    };
    let mut out = Vec::new();
    id.write_events(&mut out);
    assert_eq!(
        out,
        vec![
            XmlEvent::Start(ElementName::ElectionIdentifier),
            XmlEvent::Attribute(AttributeName::Id, s("GR2026_Ede")),
            XmlEvent::Start(ElementName::ElectionCategory),
            XmlEvent::Text(s("GR")),
            XmlEvent::End(ElementName::ElectionCategory),
            XmlEvent::Start(ElementName::ElectionSubcategory),
            XmlEvent::Text(s("GR1")),
            XmlEvent::End(ElementName::ElectionSubcategory),
            XmlEvent::Start(ElementName::ElectionDomain),
            XmlEvent::Attribute(AttributeName::Id, s("0228")),
            XmlEvent::Text(s("Ede")),
            XmlEvent::End(ElementName::ElectionDomain),
            XmlEvent::Start(ElementName::ElectionDate),
            XmlEvent::Text(s("2026-03-18")),
            XmlEvent::End(ElementName::ElectionDate),
            XmlEvent::End(ElementName::ElectionIdentifier),
        ]
    );
}

#[test]
fn document_ids() {
    assert_eq!(
        ElectionCount::count_type_from_document_id("510c", sp(0, 120)),
        Ok(CountType::District)
    );
    assert_eq!(
        ElectionCount::count_type_from_document_id("520", sp(0, 120)),
        Err(at(ReadErrorKind::InvalidDocumentType("510a/510b/510c/510d", s("520")), sp(0, 120)))
    );
    assert_eq!(ElectionResult::check_document_id("520", sp(0, 90)), Ok(()));
    assert_eq!(
        ElectionResult::check_document_id("510a", sp(0, 90)),
        Err(at(ReadErrorKind::InvalidDocumentType("520", s("510a")), sp(0, 90)))
    );
}

#[test]
fn country_name_code_and_tree_write() {
    let mut c = CountryNameCode::new(s("NL"));
    c.code = Some(s("528"));
    let mut out = Vec::new();
    c.write_events(&mut out);
    assert_eq!(
        out,
        vec![
            XmlEvent::Start(ElementName::CountryNameCode),
            XmlEvent::Attribute(AttributeName::Code, s("528")),
            XmlEvent::Text(s("NL")),
            XmlEvent::End(ElementName::CountryNameCode),
        ]
    );
    let tree = eml_nl::common::ElectionTree::new(vec![
        eml_nl::common::ElectionTreeRegion {},
        eml_nl::common::ElectionTreeRegion {},
    ]);
    let mut out = Vec::new();
    tree.write_events(&mut out);
    assert_eq!(out.len(), 6);
    assert_eq!(out[1], XmlEvent::Start(ElementName::Region));
    assert_eq!(out[5], XmlEvent::End(ElementName::ElectionTree));
}

#[test]
fn result_election_identifier_write() {
    let id = eml_nl::documents::ElectionResultElectionIdentifier {
        id: s("TK2025"),
        name: Some(s("Tweede Kamer")),
        category: s("TK"),
        subcategory: None,
        domain: None,
        election_date: s("2025-10-29"),
    };
    let mut out = Vec::new();
    id.write_events(&mut out);
    assert_eq!(out.len(), 12);
    assert_eq!(out[2], XmlEvent::Start(ElementName::ElectionName));
    assert_eq!(out[3], XmlEvent::Text(s("Tweede Kamer")));
    assert_eq!(out[5], XmlEvent::Start(ElementName::ElectionCategory));
    assert_eq!(out[8], XmlEvent::Start(ElementName::ElectionDate));
}

#[test]
fn total_votes_written_children_read_back() {
    let tv = TotalVotes {
        selections: vec![count_selection(), count_selection()],
        eligible_voter_count: s("100"),
        candidate_votes_count: s("90"),
        rejected_votes_blank: s("2"),
        rejected_votes_invalid: s("3"),
        uncounted_votes: vec![UncountedVotes { value: s("1"), reason: s("geen verklaring") }],
    };
    let children = vec![
        VotesChild::Selection(count_selection()),
        VotesChild::Selection(count_selection()),
        VotesChild::Cast(s("100")),
        VotesChild::TotalCounted(s("90")),
        VotesChild::RejectedVotes(Some(s("blanco")), s("2")),
        VotesChild::RejectedVotes(Some(s("ongeldig")), s("3")),
        VotesChild::UncountedVotes(UncountedVotes { value: s("1"), reason: s("geen verklaring") }),
    ];
    let (r, w) = TotalVotes::from_children(children, sp(0, 900), true);
    assert_eq!(r, Ok(tv));
    assert!(w.is_empty());
}

#[test]
fn reporting_unit_votes_written_children_read_back() {
    let investigations = ReportingUnitInvestigations {
        investigations: vec![Investigation { investigated: s("true"), reason: s("uitslag gecorrigeerd") }],
    };
    let v = ReportingUnitVotes {
        identifier: ReportingUnitIdentifier { id: s("SB2"), name: s("Stembureau 2") },
        selections: vec![count_selection()],
        eligible_voter_count: s("40"),
        candidate_votes_count: s("38"),
        rejected_votes_blank: s("1"),
        rejected_votes_invalid: s("0"),
        uncounted_votes: vec![],
        investigations: Some(investigations.clone()),
    };
    let children = vec![
        VotesChild::Identifier(ReportingUnitIdentifier { id: s("SB2"), name: s("Stembureau 2") }, sp(5, 40)),
        VotesChild::Selection(count_selection()),
        VotesChild::Cast(s("40")),
        VotesChild::TotalCounted(s("38")),
        VotesChild::RejectedVotes(Some(s("blanco")), s("1")),
        VotesChild::RejectedVotes(Some(s("ongeldig")), s("0")),
        VotesChild::Investigations(investigations, sp(300, 380)),
    ];
    let (r, w) = ReportingUnitVotes::from_children(children, sp(0, 400), false);
    assert_eq!(r, Ok(v));
    assert!(w.is_empty());
}

#[test]
fn locality_and_country_write() {
    let mut out = Vec::new();
    locality("Ede").write_events(&mut out);
    assert_eq!(
        out,
        vec![
            XmlEvent::Start(ElementName::Locality),
            XmlEvent::Start(ElementName::LocalityName),
            XmlEvent::Text(s("Ede")),
            XmlEvent::End(ElementName::LocalityName),
            XmlEvent::End(ElementName::Locality),
        ]
    );
    let country = MinimalQualifyingAddressCountry {
        country_name_code: CountryNameCode::new(s("NL")),
        locality: locality("Den Haag"),
    };
    let mut out = Vec::new();
    country.write_events(&mut out);
    assert_eq!(
        out,
        vec![
            XmlEvent::Start(ElementName::Country),
            XmlEvent::Start(ElementName::CountryNameCode),
            XmlEvent::Text(s("NL")),
            XmlEvent::End(ElementName::CountryNameCode),
            XmlEvent::Start(ElementName::Locality),
            XmlEvent::Start(ElementName::LocalityName),
            XmlEvent::Text(s("Den Haag")),
            XmlEvent::End(ElementName::LocalityName),
            XmlEvent::End(ElementName::Locality),
            XmlEvent::End(ElementName::Country),
        ]
    );
}
