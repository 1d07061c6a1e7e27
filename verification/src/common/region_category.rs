use vstd::prelude::*;

use crate::text::str_eq;
use crate::xml::{ReadError, ReadErrorKind};

verus! {

/// Region category
#[allow(non_camel_case_types)]
#[derive(Debug, Clone, Copy, PartialEq, Eq, Hash, Structural)]
pub enum RegionCategory {
    /// The `DEELGEMEENTE` region category.
    DEELGEMEENTE,
    /// The `GEMEENTE` region category.
    GEMEENTE,
    /// The `KIESKRING` region category.
    KIESKRING,
    /// The `PROVINCIE` region category.
    PROVINCIE,
    /// The `PROVINCIAAL_KIESKRING` region category.
    PROVINCIAAL_KIESKRING,
    /// The `PROVINCIAAL_STEMBUREAU` region category.
    PROVINCIAAL_STEMBUREAU,
    /// The `STAAT` region category.
    STAAT,
    /// The `STEMBUREAU` region category.
    STEMBUREAU,
    /// The `WATERSCHAP` region category.
    WATERSCHAP,
    /// The `WATERSCHAP_KIESKRING` region category.
    WATERSCHAP_KIESKRING,
    /// The `WATERSCHAP_GEMEENTE` region category.
    WATERSCHAP_GEMEENTE,
}

/// Error returned when an unknown region category string is encountered; it holds that string.
#[derive(Debug, Clone, PartialEq, Eq)]
pub struct UnknownRegionCategoryError(pub String);

impl RegionCategory {
    /// Create a new RegionCategory from a string, validating its format; an
    /// unknown string gives an invalid value error that holds it, with no span.
    pub fn new(s: &str) -> (r: Result<Self, ReadError>)
        ensures
            match RegionCategory::spec_from_eml_value(s@) {
                Some(v) => r == Ok::<RegionCategory, ReadError>(v),
                None => r matches Err(err) && (err.span is None && (
                err.kind matches ReadErrorKind::InvalidValue(e) && e@ == s@)),
            },
    {
        match RegionCategory::from_eml_value(s) {
            Ok(v) => Ok(v),
            Err(e) => Err(ReadError { kind: ReadErrorKind::InvalidValue(e.0), span: None }),
        }
    }

    /// The EML string of this value.
    pub open spec fn spec_eml_value(self) -> Seq<char> {
        match self {
            RegionCategory::DEELGEMEENTE => "DEELGEMEENTE"@,
            RegionCategory::GEMEENTE => "GEMEENTE"@,
            RegionCategory::KIESKRING => "KIESKRING"@,
            RegionCategory::PROVINCIE => "PROVINCIE"@,
            RegionCategory::PROVINCIAAL_KIESKRING => "PROVINCIAAL_KIESKRING"@,
            RegionCategory::PROVINCIAAL_STEMBUREAU => "PROVINCIAAL_STEMBUREAU"@,
            RegionCategory::STAAT => "STAAT"@,
            RegionCategory::STEMBUREAU => "STEMBUREAU"@,
            RegionCategory::WATERSCHAP => "WATERSCHAP"@,
            RegionCategory::WATERSCHAP_KIESKRING => "WATERSCHAP_KIESKRING"@,
            RegionCategory::WATERSCHAP_GEMEENTE => "WATERSCHAP_GEMEENTE"@,
        }
    }

    /// The value whose EML string is `s`, if there is one.
    pub open spec fn spec_from_eml_value(s: Seq<char>) -> Option<RegionCategory> {
        if s == "DEELGEMEENTE"@ {
            Some(RegionCategory::DEELGEMEENTE)
        } else if s == "GEMEENTE"@ {
            Some(RegionCategory::GEMEENTE)
        } else if s == "KIESKRING"@ {
            Some(RegionCategory::KIESKRING)
        } else if s == "PROVINCIE"@ {
            Some(RegionCategory::PROVINCIE)
        } else if s == "PROVINCIAAL_KIESKRING"@ {
            Some(RegionCategory::PROVINCIAAL_KIESKRING)
        } else if s == "PROVINCIAAL_STEMBUREAU"@ {
            Some(RegionCategory::PROVINCIAAL_STEMBUREAU)
        } else if s == "STAAT"@ {
            Some(RegionCategory::STAAT)
        } else if s == "STEMBUREAU"@ {
            Some(RegionCategory::STEMBUREAU)
        } else if s == "WATERSCHAP"@ {
            Some(RegionCategory::WATERSCHAP)
        } else if s == "WATERSCHAP_KIESKRING"@ {
            Some(RegionCategory::WATERSCHAP_KIESKRING)
        } else if s == "WATERSCHAP_GEMEENTE"@ {
            Some(RegionCategory::WATERSCHAP_GEMEENTE)
        } else {
            None
        }
    }

    /// Create a [`RegionCategory`] from a `&str`, if possible.
    pub fn from_eml_value(s: &str) -> (r: Result<Self, UnknownRegionCategoryError>)
        ensures
            match RegionCategory::spec_from_eml_value(s@) {
                Some(v) => r == Ok::<RegionCategory, UnknownRegionCategoryError>(v),
                None => r matches Err(e) && e.0@ == s@,
            },
    {
        if str_eq(s, "DEELGEMEENTE") {
            Ok(RegionCategory::DEELGEMEENTE)
        } else if str_eq(s, "GEMEENTE") {
            Ok(RegionCategory::GEMEENTE)
        } else if str_eq(s, "KIESKRING") {
            Ok(RegionCategory::KIESKRING)
        } else if str_eq(s, "PROVINCIE") {
            Ok(RegionCategory::PROVINCIE)
        } else if str_eq(s, "PROVINCIAAL_KIESKRING") {
            Ok(RegionCategory::PROVINCIAAL_KIESKRING)
        } else if str_eq(s, "PROVINCIAAL_STEMBUREAU") {
            Ok(RegionCategory::PROVINCIAAL_STEMBUREAU)
        } else if str_eq(s, "STAAT") {
            Ok(RegionCategory::STAAT)
        } else if str_eq(s, "STEMBUREAU") {
            Ok(RegionCategory::STEMBUREAU)
        } else if str_eq(s, "WATERSCHAP") {
            Ok(RegionCategory::WATERSCHAP)
        } else if str_eq(s, "WATERSCHAP_KIESKRING") {
            Ok(RegionCategory::WATERSCHAP_KIESKRING)
        } else if str_eq(s, "WATERSCHAP_GEMEENTE") {
            Ok(RegionCategory::WATERSCHAP_GEMEENTE)
        } else {
            Err(UnknownRegionCategoryError(s.to_owned()))
        }
    }

    /// Get the `&str` representation of this [`RegionCategory`].
    pub fn to_eml_value(&self) -> (r: &'static str)
        ensures
            r@ == self.spec_eml_value(),
    {
        match self {
            RegionCategory::DEELGEMEENTE => "DEELGEMEENTE",
            RegionCategory::GEMEENTE => "GEMEENTE",
            RegionCategory::KIESKRING => "KIESKRING",
            RegionCategory::PROVINCIE => "PROVINCIE",
            RegionCategory::PROVINCIAAL_KIESKRING => "PROVINCIAAL_KIESKRING",
            RegionCategory::PROVINCIAAL_STEMBUREAU => "PROVINCIAAL_STEMBUREAU",
            RegionCategory::STAAT => "STAAT",
            RegionCategory::STEMBUREAU => "STEMBUREAU",
            RegionCategory::WATERSCHAP => "WATERSCHAP",
            RegionCategory::WATERSCHAP_KIESKRING => "WATERSCHAP_KIESKRING",
            RegionCategory::WATERSCHAP_GEMEENTE => "WATERSCHAP_GEMEENTE",
        }
    }

    /// Parse this value from its EML string.
    pub fn parse_from_str(s: &str) -> (r: Result<Self, UnknownRegionCategoryError>)
        ensures
            match RegionCategory::spec_from_eml_value(s@) {
                Some(v) => r == Ok::<RegionCategory, UnknownRegionCategoryError>(v),
                None => r matches Err(e) && e.0@ == s@,
            },
    {
        RegionCategory::from_eml_value(s)
    }

    /// The EML string of this value, as an owned `String`.
    pub fn to_raw_value(&self) -> (r: String)
        ensures
            r@ == self.spec_eml_value(),
    {
        self.to_eml_value().to_owned()
    }
}

/// Every RegionCategory has exactly one EML value and every EML value names at most one
/// RegionCategory: parsing `s` gives `v` exactly when `s` is the EML value of `v`.
pub proof fn lemma_region_category_eml_value_bijection(v: RegionCategory, s: Seq<char>)
    ensures
        RegionCategory::spec_from_eml_value(s) == Some(v) <==> v.spec_eml_value() == s,
{
    reveal_strlit("DEELGEMEENTE");
    reveal_strlit("GEMEENTE");
    reveal_strlit("KIESKRING");
    reveal_strlit("PROVINCIE");
    reveal_strlit("PROVINCIAAL_KIESKRING");
    reveal_strlit("PROVINCIAAL_STEMBUREAU");
    reveal_strlit("STAAT");
    reveal_strlit("STEMBUREAU");
    reveal_strlit("WATERSCHAP");
    reveal_strlit("WATERSCHAP_KIESKRING");
    reveal_strlit("WATERSCHAP_GEMEENTE");
    assert("DEELGEMEENTE"@.len() == 12);
    assert("GEMEENTE"@.len() == 8);
    assert("KIESKRING"@.len() == 9);
    assert("PROVINCIE"@.len() == 9);
    assert("PROVINCIAAL_KIESKRING"@.len() == 21);
    assert("PROVINCIAAL_STEMBUREAU"@.len() == 22);
    assert("STAAT"@.len() == 5);
    assert("STEMBUREAU"@.len() == 10);
    assert("WATERSCHAP"@.len() == 10);
    assert("WATERSCHAP_KIESKRING"@.len() == 20);
    assert("WATERSCHAP_GEMEENTE"@.len() == 19);
    assert("KIESKRING"@[0] == 'K');
    assert("PROVINCIE"@[0] == 'P');
    assert("STEMBUREAU"@[0] == 'S');
    assert("WATERSCHAP"@[0] == 'W');
}

/// The EML value of each region category, one fixed text per value, as listed
/// below: each text is what the value is written as, and parsing it gives
/// that value.
pub proof fn lemma_region_category_codes()
    ensures
        RegionCategory::DEELGEMEENTE.spec_eml_value() == "DEELGEMEENTE"@,
        RegionCategory::spec_from_eml_value("DEELGEMEENTE"@) == Some(RegionCategory::DEELGEMEENTE),
        RegionCategory::GEMEENTE.spec_eml_value() == "GEMEENTE"@,
        RegionCategory::spec_from_eml_value("GEMEENTE"@) == Some(RegionCategory::GEMEENTE),
        RegionCategory::KIESKRING.spec_eml_value() == "KIESKRING"@,
        RegionCategory::spec_from_eml_value("KIESKRING"@) == Some(RegionCategory::KIESKRING),
        RegionCategory::PROVINCIE.spec_eml_value() == "PROVINCIE"@,
        RegionCategory::spec_from_eml_value("PROVINCIE"@) == Some(RegionCategory::PROVINCIE),
        RegionCategory::PROVINCIAAL_KIESKRING.spec_eml_value() == "PROVINCIAAL_KIESKRING"@,
        RegionCategory::spec_from_eml_value("PROVINCIAAL_KIESKRING"@) == Some(RegionCategory::PROVINCIAAL_KIESKRING),
        RegionCategory::PROVINCIAAL_STEMBUREAU.spec_eml_value() == "PROVINCIAAL_STEMBUREAU"@,
        RegionCategory::spec_from_eml_value("PROVINCIAAL_STEMBUREAU"@) == Some(RegionCategory::PROVINCIAAL_STEMBUREAU),
        RegionCategory::STAAT.spec_eml_value() == "STAAT"@,
        RegionCategory::spec_from_eml_value("STAAT"@) == Some(RegionCategory::STAAT),
        RegionCategory::STEMBUREAU.spec_eml_value() == "STEMBUREAU"@,
        RegionCategory::spec_from_eml_value("STEMBUREAU"@) == Some(RegionCategory::STEMBUREAU),
        RegionCategory::WATERSCHAP.spec_eml_value() == "WATERSCHAP"@,
        RegionCategory::spec_from_eml_value("WATERSCHAP"@) == Some(RegionCategory::WATERSCHAP),
        RegionCategory::WATERSCHAP_KIESKRING.spec_eml_value() == "WATERSCHAP_KIESKRING"@,
        RegionCategory::spec_from_eml_value("WATERSCHAP_KIESKRING"@) == Some(RegionCategory::WATERSCHAP_KIESKRING),
        RegionCategory::WATERSCHAP_GEMEENTE.spec_eml_value() == "WATERSCHAP_GEMEENTE"@,
        RegionCategory::spec_from_eml_value("WATERSCHAP_GEMEENTE"@) == Some(RegionCategory::WATERSCHAP_GEMEENTE),
{
    lemma_region_category_eml_value_bijection(RegionCategory::DEELGEMEENTE, "DEELGEMEENTE"@);
    lemma_region_category_eml_value_bijection(RegionCategory::GEMEENTE, "GEMEENTE"@);
    lemma_region_category_eml_value_bijection(RegionCategory::KIESKRING, "KIESKRING"@);
    lemma_region_category_eml_value_bijection(RegionCategory::PROVINCIE, "PROVINCIE"@);
    lemma_region_category_eml_value_bijection(RegionCategory::PROVINCIAAL_KIESKRING, "PROVINCIAAL_KIESKRING"@);
    lemma_region_category_eml_value_bijection(RegionCategory::PROVINCIAAL_STEMBUREAU, "PROVINCIAAL_STEMBUREAU"@);
    lemma_region_category_eml_value_bijection(RegionCategory::STAAT, "STAAT"@);
    lemma_region_category_eml_value_bijection(RegionCategory::STEMBUREAU, "STEMBUREAU"@);
    lemma_region_category_eml_value_bijection(RegionCategory::WATERSCHAP, "WATERSCHAP"@);
    lemma_region_category_eml_value_bijection(RegionCategory::WATERSCHAP_KIESKRING, "WATERSCHAP_KIESKRING"@);
    lemma_region_category_eml_value_bijection(RegionCategory::WATERSCHAP_GEMEENTE, "WATERSCHAP_GEMEENTE"@);
}

} // verus!
