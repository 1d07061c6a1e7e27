use vstd::prelude::*;

use crate::text::str_eq;

verus! {

/// Gender type of a candidate.
#[derive(Debug, Clone, Copy, PartialEq, Eq, Structural)]
pub enum GenderType {
    /// Male gender
    Male,
    /// Female gender
    Female,
    /// Gender unknown
    Unknown,
}

/// Error returned when an unknown gender type string is encountered; it holds that string.
#[derive(Debug, Clone, PartialEq, Eq)]
pub struct UnknownGenderTypeError(pub String);

impl GenderType {
    /// The EML string of this value.
    pub open spec fn spec_eml_value(self) -> Seq<char> {
        match self {
            GenderType::Male => "male"@,
            GenderType::Female => "female"@,
            GenderType::Unknown => "unknown"@,
        }
    }

    /// The value whose EML string is `s`, if there is one.
    pub open spec fn spec_from_eml_value(s: Seq<char>) -> Option<GenderType> {
        if s == "male"@ {
            Some(GenderType::Male)
        } else if s == "female"@ {
            Some(GenderType::Female)
        } else if s == "unknown"@ {
            Some(GenderType::Unknown)
        } else {
            None
        }
    }

    /// Create a GenderType from a `&str`, if possible.
    pub fn from_eml_value(s: &str) -> (r: Result<Self, UnknownGenderTypeError>)
        ensures
            match GenderType::spec_from_eml_value(s@) {
                Some(v) => r == Ok::<GenderType, UnknownGenderTypeError>(v),
                None => r matches Err(e) && e.0@ == s@,
            },
    {
        if str_eq(s, "male") {
            Ok(GenderType::Male)
        } else if str_eq(s, "female") {
            Ok(GenderType::Female)
        } else if str_eq(s, "unknown") {
            Ok(GenderType::Unknown)
        } else {
            Err(UnknownGenderTypeError(s.to_owned()))
        }
    }

    /// Get the `&str` representation of this GenderType.
    pub fn to_eml_value(&self) -> (r: &'static str)
        ensures
            r@ == self.spec_eml_value(),
    {
        match self {
            GenderType::Male => "male",
            GenderType::Female => "female",
            GenderType::Unknown => "unknown",
        }
    }

    /// Parse this value from its EML string.
    pub fn parse_from_str(s: &str) -> (r: Result<Self, UnknownGenderTypeError>)
        ensures
            match GenderType::spec_from_eml_value(s@) {
                Some(v) => r == Ok::<GenderType, UnknownGenderTypeError>(v),
                None => r matches Err(e) && e.0@ == s@,
            },
    {
        GenderType::from_eml_value(s)
    }

    /// The EML string of this value, as an owned `String`.
    pub fn to_raw_value(&self) -> (r: String)
        ensures
            r@ == self.spec_eml_value(),
    {
        self.to_eml_value().to_owned()
    }
}

/// Every GenderType has exactly one EML value and every EML value names at most one
/// GenderType: parsing `s` gives `v` exactly when `s` is the EML value of `v`.
pub proof fn lemma_gender_type_eml_value_bijection(v: GenderType, s: Seq<char>)
    ensures
        GenderType::spec_from_eml_value(s) == Some(v) <==> v.spec_eml_value() == s,
{
    reveal_strlit("male");
    reveal_strlit("female");
    reveal_strlit("unknown");
    assert("male"@.len() == 4);
    assert("female"@.len() == 6);
    assert("unknown"@.len() == 7);
}

/// The EML value of each gender type, one fixed text per value, as listed
/// below: each text is what the value is written as, and parsing it gives
/// that value.
pub proof fn lemma_gender_type_codes()
    ensures
        GenderType::Male.spec_eml_value() == "male"@,
        GenderType::spec_from_eml_value("male"@) == Some(GenderType::Male),
        GenderType::Female.spec_eml_value() == "female"@,
        GenderType::spec_from_eml_value("female"@) == Some(GenderType::Female),
        GenderType::Unknown.spec_eml_value() == "unknown"@,
        GenderType::spec_from_eml_value("unknown"@) == Some(GenderType::Unknown),
{
    lemma_gender_type_eml_value_bijection(GenderType::Male, "male"@);
    lemma_gender_type_eml_value_bijection(GenderType::Female, "female"@);
    lemma_gender_type_eml_value_bijection(GenderType::Unknown, "unknown"@);
}

} // verus!
