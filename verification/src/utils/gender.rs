use vstd::prelude::*;

use crate::text::str_eq;

verus! {

/// Gender of a candidate.
#[derive(Debug, Clone, Copy, PartialEq, Eq, Structural)]
pub enum Gender {
    /// Male gender
    Male,
    /// Female gender
    Female,
    /// Gender unknown
    Unknown,
}

/// Error returned when an unknown gender string is encountered; it holds that string.
#[derive(Debug, Clone, PartialEq, Eq)]
pub struct UnknownGenderError(pub String);

impl Gender {
    /// The EML string of this value.
    pub open spec fn spec_eml_value(self) -> Seq<char> {
        match self {
            Gender::Male => "male"@,
            Gender::Female => "female"@,
            Gender::Unknown => "unknown"@,
        }
    }

    /// The value whose EML string is `s`, if there is one.
    pub open spec fn spec_from_eml_value(s: Seq<char>) -> Option<Gender> {
        if s == "male"@ {
            Some(Gender::Male)
        } else if s == "female"@ {
            Some(Gender::Female)
        } else if s == "unknown"@ {
            Some(Gender::Unknown)
        } else {
            None
        }
    }

    /// Create a Gender from a `&str`, if possible.
    pub fn from_eml_value(s: &str) -> (r: Result<Self, UnknownGenderError>)
        ensures
            match Gender::spec_from_eml_value(s@) {
                Some(v) => r == Ok::<Gender, UnknownGenderError>(v),
                None => r matches Err(e) && e.0@ == s@,
            },
    {
        if str_eq(s, "male") {
            Ok(Gender::Male)
        } else if str_eq(s, "female") {
            Ok(Gender::Female)
        } else if str_eq(s, "unknown") {
            Ok(Gender::Unknown)
        } else {
            Err(UnknownGenderError(s.to_owned()))
        }
    }

    /// Get the `&str` representation of this Gender.
    pub fn to_eml_value(&self) -> (r: &'static str)
        ensures
            r@ == self.spec_eml_value(),
    {
        match self {
            Gender::Male => "male",
            Gender::Female => "female",
            Gender::Unknown => "unknown",
        }
    }

    /// Parse this value from its EML string.
    pub fn parse_from_str(s: &str) -> (r: Result<Self, UnknownGenderError>)
        ensures
            match Gender::spec_from_eml_value(s@) {
                Some(v) => r == Ok::<Gender, UnknownGenderError>(v),
                None => r matches Err(e) && e.0@ == s@,
            },
    {
        Gender::from_eml_value(s)
    }

    /// The EML string of this value, as an owned `String`.
    pub fn to_raw_value(&self) -> (r: String)
        ensures
            r@ == self.spec_eml_value(),
    {
        self.to_eml_value().to_owned()
    }
}

/// Every Gender has exactly one EML value and every EML value names at most one
/// Gender: parsing `s` gives `v` exactly when `s` is the EML value of `v`.
pub proof fn lemma_gender_eml_value_bijection(v: Gender, s: Seq<char>)
    ensures
        Gender::spec_from_eml_value(s) == Some(v) <==> v.spec_eml_value() == s,
{
    reveal_strlit("male");
    reveal_strlit("female");
    reveal_strlit("unknown");
    assert("male"@.len() == 4);
    assert("female"@.len() == 6);
    assert("unknown"@.len() == 7);
}

/// The EML value of each gender, one fixed text per value, as listed
/// below: each text is what the value is written as, and parsing it gives
/// that value.
pub proof fn lemma_gender_codes()
    ensures
        Gender::Male.spec_eml_value() == "male"@,
        Gender::spec_from_eml_value("male"@) == Some(Gender::Male),
        Gender::Female.spec_eml_value() == "female"@,
        Gender::spec_from_eml_value("female"@) == Some(Gender::Female),
        Gender::Unknown.spec_eml_value() == "unknown"@,
        Gender::spec_from_eml_value("unknown"@) == Some(Gender::Unknown),
{
    lemma_gender_eml_value_bijection(Gender::Male, "male"@);
    lemma_gender_eml_value_bijection(Gender::Female, "female"@);
    lemma_gender_eml_value_bijection(Gender::Unknown, "unknown"@);
}

} // verus!
