use vstd::prelude::*;

use crate::text::str_eq;

verus! {

/// The publication language of something in a document.
#[derive(Debug, Clone, Copy, PartialEq, Eq, Structural)]
pub enum PublicationLanguageType {
    /// Dutch language.
    Dutch,
    /// Frisian language.
    Frisian,
}

/// Error returned when an unknown publication language type string is encountered; it holds that string.
#[derive(Debug, Clone, PartialEq, Eq)]
pub struct UnknownPublicationLanguageType(pub String);

impl Default for PublicationLanguageType {
    /// Dutch is the default publication language.
    fn default() -> (r: Self)
        ensures
            r == PublicationLanguageType::Dutch,
    {
        PublicationLanguageType::Dutch
    }
}

impl PublicationLanguageType {
    /// The EML string of this value.
    pub open spec fn spec_eml_value(self) -> Seq<char> {
        match self {
            PublicationLanguageType::Dutch => "nl"@,
            PublicationLanguageType::Frisian => "fy"@,
        }
    }

    /// The value whose EML string is `s`, if there is one.
    pub open spec fn spec_from_eml_value(s: Seq<char>) -> Option<PublicationLanguageType> {
        if s == "nl"@ {
            Some(PublicationLanguageType::Dutch)
        } else if s == "fy"@ {
            Some(PublicationLanguageType::Frisian)
        } else {
            None
        }
    }

    /// Parse a publication language type from its string representation.
    pub fn from_eml_value(s: &str) -> (r: Result<Self, UnknownPublicationLanguageType>)
        ensures
            match PublicationLanguageType::spec_from_eml_value(s@) {
                Some(v) => r == Ok::<PublicationLanguageType, UnknownPublicationLanguageType>(v),
                None => r matches Err(e) && e.0@ == s@,
            },
    {
        if str_eq(s, "nl") {
            Ok(PublicationLanguageType::Dutch)
        } else if str_eq(s, "fy") {
            Ok(PublicationLanguageType::Frisian)
        } else {
            Err(UnknownPublicationLanguageType(s.to_owned()))
        }
    }

    /// Get the `&str` representation of this [`PublicationLanguageType`].
    pub fn to_eml_value(&self) -> (r: &'static str)
        ensures
            r@ == self.spec_eml_value(),
    {
        match self {
            PublicationLanguageType::Dutch => "nl",
            PublicationLanguageType::Frisian => "fy",
        }
    }

    /// Parse this value from its EML string.
    pub fn parse_from_str(s: &str) -> (r: Result<Self, UnknownPublicationLanguageType>)
        ensures
            match PublicationLanguageType::spec_from_eml_value(s@) {
                Some(v) => r == Ok::<PublicationLanguageType, UnknownPublicationLanguageType>(v),
                None => r matches Err(e) && e.0@ == s@,
            },
    {
        PublicationLanguageType::from_eml_value(s)
    }

    /// The EML string of this value, as an owned `String`.
    pub fn to_raw_value(&self) -> (r: String)
        ensures
            r@ == self.spec_eml_value(),
    {
        self.to_eml_value().to_owned()
    }
}

/// Every PublicationLanguageType has exactly one EML value and every EML value names at most one
/// PublicationLanguageType: parsing `s` gives `v` exactly when `s` is the EML value of `v`.
pub proof fn lemma_publication_language_eml_value_bijection(v: PublicationLanguageType, s: Seq<char>)
    ensures
        PublicationLanguageType::spec_from_eml_value(s) == Some(v) <==> v.spec_eml_value() == s,
{
    reveal_strlit("nl");
    reveal_strlit("fy");
    assert("nl"@.len() == 2);
    assert("fy"@.len() == 2);
    assert("nl"@[0] == 'n');
    assert("fy"@[0] == 'f');
}

/// The EML value of each publication language, one fixed text per value, as listed
/// below: each text is what the value is written as, and parsing it gives
/// that value.
pub proof fn lemma_publication_language_codes()
    ensures
        PublicationLanguageType::Dutch.spec_eml_value() == "nl"@,
        PublicationLanguageType::spec_from_eml_value("nl"@) == Some(PublicationLanguageType::Dutch),
        PublicationLanguageType::Frisian.spec_eml_value() == "fy"@,
        PublicationLanguageType::spec_from_eml_value("fy"@) == Some(PublicationLanguageType::Frisian),
{
    lemma_publication_language_eml_value_bijection(PublicationLanguageType::Dutch, "nl"@);
    lemma_publication_language_eml_value_bijection(PublicationLanguageType::Frisian, "fy"@);
}

} // verus!
