use vstd::prelude::*;

use crate::text::str_eq;

verus! {

/// Affiliation type used in the election.
#[derive(Debug, Clone, Copy, PartialEq, Eq, Structural)]
pub enum AffiliationType {
    /// lijstengroep
    GroupOfLists,
    /// stel gelijkluidende lijsten
    SetOfEqualLists,
    /// op zichzelf staande lijst
    StandAloneList,
}

/// Error returned when an unknown affiliation type string is encountered; it holds that string.
#[derive(Debug, Clone, PartialEq, Eq)]
pub struct UnknownAffiliationTypeError(pub String);

impl AffiliationType {
    /// The EML string of this value.
    pub open spec fn spec_eml_value(self) -> Seq<char> {
        match self {
            AffiliationType::GroupOfLists => "lijstengroep"@,
            AffiliationType::SetOfEqualLists => "stel gelijkluidende lijsten"@,
            AffiliationType::StandAloneList => "op zichzelf staande lijst"@,
        }
    }

    /// The value whose EML string is `s`, if there is one.
    pub open spec fn spec_from_eml_value(s: Seq<char>) -> Option<AffiliationType> {
        if s == "lijstengroep"@ {
            Some(AffiliationType::GroupOfLists)
        } else if s == "stel gelijkluidende lijsten"@ {
            Some(AffiliationType::SetOfEqualLists)
        } else if s == "op zichzelf staande lijst"@ {
            Some(AffiliationType::StandAloneList)
        } else {
            None
        }
    }

    /// Create an [`AffiliationType`] from a `&str`, if possible.
    pub fn from_eml_value(s: &str) -> (r: Result<Self, UnknownAffiliationTypeError>)
        ensures
            match AffiliationType::spec_from_eml_value(s@) {
                Some(v) => r == Ok::<AffiliationType, UnknownAffiliationTypeError>(v),
                None => r matches Err(e) && e.0@ == s@,
            },
    {
        if str_eq(s, "lijstengroep") {
            Ok(AffiliationType::GroupOfLists)
        } else if str_eq(s, "stel gelijkluidende lijsten") {
            Ok(AffiliationType::SetOfEqualLists)
        } else if str_eq(s, "op zichzelf staande lijst") {
            Ok(AffiliationType::StandAloneList)
        } else {
            Err(UnknownAffiliationTypeError(s.to_owned()))
        }
    }

    /// Get the `&str` representation of this [`AffiliationType`].
    pub fn to_eml_value(&self) -> (r: &'static str)
        ensures
            r@ == self.spec_eml_value(),
    {
        match self {
            AffiliationType::GroupOfLists => "lijstengroep",
            AffiliationType::SetOfEqualLists => "stel gelijkluidende lijsten",
            AffiliationType::StandAloneList => "op zichzelf staande lijst",
        }
    }

    /// Parse this value from its EML string.
    pub fn parse_from_str(s: &str) -> (r: Result<Self, UnknownAffiliationTypeError>)
        ensures
            match AffiliationType::spec_from_eml_value(s@) {
                Some(v) => r == Ok::<AffiliationType, UnknownAffiliationTypeError>(v),
                None => r matches Err(e) && e.0@ == s@,
            },
    {
        AffiliationType::from_eml_value(s)
    }

    /// The EML string of this value, as an owned `String`.
    pub fn to_raw_value(&self) -> (r: String)
        ensures
            r@ == self.spec_eml_value(),
    {
        self.to_eml_value().to_owned()
    }
}

/// Every AffiliationType has exactly one EML value and every EML value names at most one
/// AffiliationType: parsing `s` gives `v` exactly when `s` is the EML value of `v`.
pub proof fn lemma_affiliation_type_eml_value_bijection(v: AffiliationType, s: Seq<char>)
    ensures
        AffiliationType::spec_from_eml_value(s) == Some(v) <==> v.spec_eml_value() == s,
{
    reveal_strlit("lijstengroep");
    reveal_strlit("stel gelijkluidende lijsten");
    reveal_strlit("op zichzelf staande lijst");
    assert("lijstengroep"@.len() == 12);
    assert("stel gelijkluidende lijsten"@.len() == 27);
    assert("op zichzelf staande lijst"@.len() == 25);
}

/// The EML value of each affiliation type, one fixed text per value, as listed
/// below: each text is what the value is written as, and parsing it gives
/// that value.
pub proof fn lemma_affiliation_type_codes()
    ensures
        AffiliationType::GroupOfLists.spec_eml_value() == "lijstengroep"@,
        AffiliationType::spec_from_eml_value("lijstengroep"@) == Some(AffiliationType::GroupOfLists),
        AffiliationType::SetOfEqualLists.spec_eml_value() == "stel gelijkluidende lijsten"@,
        AffiliationType::spec_from_eml_value("stel gelijkluidende lijsten"@) == Some(AffiliationType::SetOfEqualLists),
        AffiliationType::StandAloneList.spec_eml_value() == "op zichzelf staande lijst"@,
        AffiliationType::spec_from_eml_value("op zichzelf staande lijst"@) == Some(AffiliationType::StandAloneList),
{
    lemma_affiliation_type_eml_value_bijection(AffiliationType::GroupOfLists, "lijstengroep"@);
    lemma_affiliation_type_eml_value_bijection(AffiliationType::SetOfEqualLists, "stel gelijkluidende lijsten"@);
    lemma_affiliation_type_eml_value_bijection(AffiliationType::StandAloneList, "op zichzelf staande lijst"@);
}

} // verus!
