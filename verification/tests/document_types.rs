use eml_nl::documents::{
    CountType, InvestigationReason, RankingType, ReportingUnitIdentifierIdType,
    UncountedVotesReason, YesNoType,
};

#[test]
fn test_reporting_unit_votes_identifier_type_regex_compiles() {
    ReportingUnitIdentifierIdType::regex()
        .expect("Failed to compile ReportingUnitVotesIdentifier id regex");
}

#[test]
fn count_type_ids() {
    let all = [
        CountType::PollingStation,
        CountType::Municipal,
        CountType::District,
        CountType::Central,
    ];
    for c in all {
        assert_eq!(CountType::from_eml_id(c.to_eml_id()), Some(c.clone()));
        assert!(CountType::is_valid_eml_id(c.to_eml_id()));
    }
    assert_eq!(CountType::from_eml_id("510b"), Some(CountType::Municipal));
    assert_eq!(CountType::PollingStation.to_eml_id(), "510a");
    assert_eq!(CountType::Central.to_eml_id(), "510d");
    assert_eq!(CountType::from_eml_id("510e"), None);
    assert_eq!(CountType::from_eml_id("520"), None);
    assert!(!CountType::is_valid_eml_id("510"));
    assert!(!CountType::is_valid_eml_id(""));
}

#[test]
fn count_type_friendly_names() {
    assert_eq!(
        CountType::PollingStation.to_friendly_name(),
        "Polling Station Count"
    );
    assert_eq!(CountType::Municipal.to_friendly_name(), "Municipal Count");
    assert_eq!(CountType::District.to_friendly_name(), "District Count");
    assert_eq!(CountType::Central.to_friendly_name(), "Central Count");
}

#[test]
fn reporting_unit_identifier_ids() {
    let valid = [
        "HSB1",
        "0123",
        "HSB12::0363",
        "SB5",
        "0363::SB5",
        "HSB1::0363::SB5",
        "HSB2::SB3",
    ];
    for id in valid {
        let v = ReportingUnitIdentifierIdType::new(id).unwrap();
        assert_eq!(v.value(), id);
        assert_eq!(v.to_raw_value(), id);
        assert_eq!(v.clone().value(), id);
    }
    let invalid = ["", "HSB", "123", "12345", "SB", "HSB1::", "abc", "HSB1::SB"];
    for id in invalid {
        let e = ReportingUnitIdentifierIdType::parse_from_str(id).unwrap_err();
        assert_eq!(e.0, id);
    }
}

#[test]
fn investigation_reason_codes() {
    let all = [
        InvestigationReason::UnexplainedDifference,
        InvestigationReason::OtherError,
        InvestigationReason::ResultCorrected,
        InvestigationReason::AdmittedVotersReestablished,
        InvestigationReason::OtherReason,
        InvestigationReason::PartiallyRecountedBallots,
    ];
    for r in all {
        assert_eq!(InvestigationReason::from_eml_code(r.to_eml_code()), Some(r));
        assert_eq!(InvestigationReason::parse_from_str(&r.to_raw_value()).unwrap(), r);
    }
    assert_eq!(
        InvestigationReason::ResultCorrected.to_eml_code(),
        "uitslag gecorrigeerd"
    );
    assert_eq!(InvestigationReason::from_eml_code("uitslag"), None);
    assert_eq!(
        InvestigationReason::parse_from_str("x").unwrap_err().0,
        "x"
    );
}

#[test]
fn uncounted_votes_reason_codes() {
    let all = [
        UncountedVotesReason::ValidPollCards,
        UncountedVotesReason::ValidProxyCertificates,
        UncountedVotesReason::ValidVoterCards,
        UncountedVotesReason::AdmittedVoters,
        UncountedVotesReason::MoreBallotsCounted,
        UncountedVotesReason::FewerBallotsCounted,
        UncountedVotesReason::BallotsTaken,
        UncountedVotesReason::TooFewBallotsIssued,
        UncountedVotesReason::TooManyBallotsIssued,
        UncountedVotesReason::NoPostalBallots,
        UncountedVotesReason::TooManyPostalBallots,
        UncountedVotesReason::LostBallots,
        UncountedVotesReason::NoExplanation,
        UncountedVotesReason::OtherExplanation,
    ];
    for r in all {
        assert_eq!(UncountedVotesReason::from_eml_code(r.to_eml_code()), Some(r));
        assert_eq!(UncountedVotesReason::parse_from_str(&r.to_raw_value()).unwrap(), r);
    }
    assert_eq!(
        UncountedVotesReason::from_eml_code("geen verklaring"),
        Some(UncountedVotesReason::NoExplanation)
    );
    assert_eq!(UncountedVotesReason::LostBallots.to_eml_code(), "kwijtgeraakte stembiljetten");
    assert_eq!(UncountedVotesReason::from_eml_code("geen"), None);
    assert_eq!(UncountedVotesReason::parse_from_str("").unwrap_err().0, "");
}

#[test]
fn ranking_type_strings() {
    assert_eq!(RankingType::parse_from_str("1").unwrap(), RankingType::First);
    assert_eq!(RankingType::parse_from_str("2").unwrap(), RankingType::Second);
    assert_eq!(RankingType::First.to_raw_value(), "1");
    assert_eq!(RankingType::Second.to_raw_value(), "2");
    assert_eq!(RankingType::parse_from_str("3").unwrap_err().0, "3");
    assert_eq!(RankingType::parse_from_str("01").unwrap_err().0, "01");
}

#[test]
fn yes_no_type_strings() {
    let yes = YesNoType::parse_from_str("yes").unwrap();
    let no = YesNoType::parse_from_str("no").unwrap();
    assert_ne!(yes, no);
    assert_eq!(yes.to_raw_value(), "yes");
    assert_eq!(no.to_raw_value(), "no");
    assert_eq!(YesNoType::parse_from_str(&yes.to_raw_value()).unwrap(), yes);
    assert_eq!(YesNoType::parse_from_str("Yes").unwrap_err().0, "Yes");
    assert_eq!(YesNoType::parse_from_str("true").unwrap_err().0, "true");
}
