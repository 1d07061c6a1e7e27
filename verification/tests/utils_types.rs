use eml_nl::utils::{
    AffiliationType, CandidateIdType, ContestId, ContestIdGeen, Gender, GenderType,
    PublicationLanguageType, UnknownAffiliationTypeError, UnknownGenderError,
    UnknownGenderTypeError, UnknownPublicationLanguageType, UnknownVotingChannelError,
    VotingChannelType,
};

#[test]
fn test_election_category_from_str() {
    assert_eq!(
        AffiliationType::from_eml_value("lijstengroep"),
        Ok(AffiliationType::GroupOfLists)
    );
    assert_eq!(
        AffiliationType::from_eml_value("stel gelijkluidende lijsten"),
        Ok(AffiliationType::SetOfEqualLists)
    );
    assert_eq!(
        AffiliationType::from_eml_value("op zichzelf staande lijst"),
        Ok(AffiliationType::StandAloneList)
    );
    assert_eq!(
        AffiliationType::from_eml_value("UNKNOWN"),
        Err(UnknownAffiliationTypeError("UNKNOWN".to_string()))
    );
}

#[test]
fn test_election_category_to_str() {
    assert_eq!(AffiliationType::GroupOfLists.to_eml_value(), "lijstengroep");
    assert_eq!(
        AffiliationType::SetOfEqualLists.to_eml_value(),
        "stel gelijkluidende lijsten"
    );
    assert_eq!(
        AffiliationType::StandAloneList.to_eml_value(),
        "op zichzelf staande lijst"
    );
}

#[test]
fn test_candidate_id_regex_compiles() {
    CandidateIdType::regex().expect("Failed to compile Candidate ID regex");
}

#[test]
fn test_valid_candidate_ids() {
    let valid_ids = ["1", "12345"];
    for id in valid_ids {
        assert!(
            CandidateIdType::new(id).is_ok(),
            "CandidateIdType should accept valid id: {}",
            id
        );
    }
}

#[test]
fn test_invalid_candidate_ids() {
    let invalid_ids = ["", "0", "0123", "abc", "123abc", "-1"];
    for id in invalid_ids {
        assert!(
            CandidateIdType::new(id).is_err(),
            "CandidateIdType should reject invalid id: {}",
            id
        );
    }
}

#[test]
fn test_contest_id_regex_compiles() {
    ContestId::regex().expect("Failed to compile Contest ID regex");
}

#[test]
fn test_valid_contest_ids() {
    let valid_ids = [
        "1", "12345", "geen", "alle", "III", "IV", "V", "C", "D", "MMMM", "CM",
    ];
    for id in valid_ids {
        assert!(
            ContestId::new(id).is_ok(),
            "ContestId should accept valid id: {}",
            id
        );
    }
}

#[test]
fn test_invalid_contest_ids() {
    let invalid_ids = ["", "0", "0123", "abc", "123abc", "-1", "MMMMM", "IC"];
    for id in invalid_ids {
        assert!(
            ContestId::new(id).is_err(),
            "ContestId should reject invalid id: {}",
            id
        );
    }
}

#[test]
fn test_contest_id_types() {
    let geen = ContestId::geen();
    assert_eq!(geen.value(), "geen");
    assert!(geen.is_geen());
    assert!(!geen.is_alle());

    let alle = ContestId::alle();
    assert_eq!(alle.value(), "alle");
    assert!(!alle.is_geen());
    assert!(alle.is_alle());
}

#[test]
fn test_contest_id_geen() {
    let valid_geen = "geen";
    let invalid_geen = "alle";
    assert!(ContestIdGeen::parse_from_str(valid_geen).is_ok());
    assert!(ContestIdGeen::parse_from_str(invalid_geen).is_err());
}

#[test]
fn test_contest_id_geen_to_contest_id() {
    let geen = ContestIdGeen::new();
    let contest_id = geen.to_contest_id();
    assert_eq!(contest_id.value(), "geen");
}

#[test]
fn gender_test_valid_gender_types() {
    let valid_genders = ["male", "female", "unknown"];
    for gender in valid_genders {
        assert!(
            Gender::from_eml_value(gender).is_ok(),
            "Gender should accept valid gender: {}",
            gender
        );
    }
}

#[test]
fn gender_test_invalid_gender_types() {
    let invalid_genders = ["", "test", "abc"];
    for gender in invalid_genders {
        assert!(
            Gender::from_eml_value(gender).is_err(),
            "Gender should reject invalid gender: {}",
            gender
        );
    }
}

#[test]
fn gender_type_test_valid_gender_types() {
    let valid_genders = ["male", "female", "unknown"];
    for gender in valid_genders {
        assert!(
            GenderType::from_eml_value(gender).is_ok(),
            "GenderType should accept valid gender: {}",
            gender
        );
    }
}

#[test]
fn gender_type_test_invalid_gender_types() {
    let invalid_genders = ["", "test", "abc"];
    for gender in invalid_genders {
        assert!(
            GenderType::from_eml_value(gender).is_err(),
            "GenderType should reject invalid gender: {}",
            gender
        );
    }
}

#[test]
fn test_valid_publication_languages() {
    let valid_languages = ["nl", "fy"];
    for lang in valid_languages {
        assert!(
            PublicationLanguageType::from_eml_value(lang).is_ok(),
            "PublicationLanguageType should accept valid language code: {}",
            lang
        );
    }
}

#[test]
fn test_invalid_publication_languages() {
    let invalid_languages = ["", "de", "dutch", "nederlands"];
    for lang in invalid_languages {
        assert!(
            PublicationLanguageType::from_eml_value(lang).is_err(),
            "PublicationLanguageType should reject invalid language code: {}",
            lang
        );
    }
}

#[test]
fn test_valid_voting_channel_types() {
    let valid_channels = ["polling", "postal"];
    for channel in valid_channels {
        assert!(
            VotingChannelType::from_eml_value(channel).is_ok(),
            "VotingChannelType should accept valid channel: {}",
            channel
        );
    }
}

#[test]
fn test_invalid_voting_channel_types() {
    let invalid_channels = ["", "test", "abc"];
    for channel in invalid_channels {
        assert!(
            VotingChannelType::from_eml_value(channel).is_err(),
            "VotingChannelType should reject invalid channel: {}",
            channel
        );
    }
}

// Round trips and exact values.

#[test]
fn gender_round_trip_and_errors() {
    for g in [Gender::Male, Gender::Female, Gender::Unknown] {
        assert_eq!(Gender::from_eml_value(g.to_eml_value()), Ok(g));
        assert_eq!(Gender::parse_from_str(&g.to_raw_value()), Ok(g));
    }
    assert_eq!(Gender::Female.to_eml_value(), "female");
    assert_eq!(
        Gender::from_eml_value("Male"),
        Err(UnknownGenderError("Male".to_string()))
    );
}

#[test]
fn gender_type_round_trip_and_errors() {
    for g in [GenderType::Male, GenderType::Female, GenderType::Unknown] {
        assert_eq!(GenderType::from_eml_value(g.to_eml_value()), Ok(g));
        assert_eq!(GenderType::parse_from_str(&g.to_raw_value()), Ok(g));
    }
    assert_eq!(GenderType::Unknown.to_raw_value(), "unknown");
    assert_eq!(
        GenderType::parse_from_str("x"),
        Err(UnknownGenderTypeError("x".to_string()))
    );
}

#[test]
fn affiliation_type_round_trip() {
    for a in [
        AffiliationType::GroupOfLists,
        AffiliationType::SetOfEqualLists,
        AffiliationType::StandAloneList,
    ] {
        assert_eq!(AffiliationType::parse_from_str(&a.to_raw_value()), Ok(a));
    }
}

#[test]
fn publication_language_round_trip_and_default() {
    assert_eq!(PublicationLanguageType::default(), PublicationLanguageType::Dutch);
    assert_eq!(PublicationLanguageType::Frisian.to_eml_value(), "fy");
    assert_eq!(PublicationLanguageType::Dutch.to_raw_value(), "nl");
    for p in [PublicationLanguageType::Dutch, PublicationLanguageType::Frisian] {
        assert_eq!(PublicationLanguageType::parse_from_str(p.to_eml_value()), Ok(p));
    }
    assert_eq!(
        PublicationLanguageType::from_eml_value("NL"),
        Err(UnknownPublicationLanguageType("NL".to_string()))
    );
}

#[test]
fn voting_channel_round_trip() {
    assert_eq!(VotingChannelType::Polling.to_eml_value(), "polling");
    assert_eq!(VotingChannelType::Postal.to_raw_value(), "postal");
    for v in [VotingChannelType::Polling, VotingChannelType::Postal] {
        assert_eq!(VotingChannelType::from_eml_value(v.to_eml_value()), Ok(v));
    }
    assert_eq!(
        VotingChannelType::parse_from_str(" postal"),
        Err(UnknownVotingChannelError(" postal".to_string()))
    );
}

#[test]
fn candidate_id_values() {
    let id = CandidateIdType::new("2254").unwrap();
    assert_eq!(id.value(), "2254");
    assert_eq!(id.to_raw_value(), "2254");
    assert_eq!(id.clone(), id);
    assert_eq!(CandidateIdType::parse_from_str(&id.to_raw_value()).unwrap(), id);
    let err = CandidateIdType::new("07").unwrap_err();
    assert_eq!(err.0, "07");
}

#[test]
fn candidate_id_from_match_outcome() {
    assert_eq!(CandidateIdType::from_match("abc", false).unwrap_err().0, "abc");
}

#[test]
fn contest_id_values() {
    let id = ContestId::new("XIV").unwrap();
    assert_eq!(id.value(), "XIV");
    assert_eq!(id.to_raw_value(), "XIV");
    assert!(!id.is_geen());
    assert!(!id.is_alle());
    assert_eq!(ContestId::new("alle").unwrap(), ContestId::alle());
    assert_eq!(ContestId::new("x").unwrap_err().0, "x");
    assert_eq!(ContestId::from_match("", false).unwrap_err().0, "");
}

#[test]
fn contest_id_geen_values() {
    assert_eq!(ContestIdGeen::default(), ContestIdGeen::new());
    assert_eq!(ContestIdGeen::new().to_raw_value(), ContestIdGeen::GEEN);
    assert_eq!(ContestIdGeen::parse_from_str("Geen").unwrap_err().0, "Geen");
}
