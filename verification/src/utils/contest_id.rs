use vstd::prelude::*;

use crate::pattern::{regex_compiles, regex_is_match, IdPattern, InvalidPatternError};
use crate::text::str_eq;

verus! {

/// Regular expression for validating ContestId values.
pub const CONTEST_ID_PATTERN: &'static str =
    "^([1-9]\\d*|geen|alle|M{0,4}(CM|CD|D?C{0,3})(XC|XL|L?X{0,3})(IX|IV|V?I{0,3}))$";

/// Whether `s` is accepted as a ContestId: it is not empty, and the pattern
/// compiles and matches it.
pub open spec fn is_valid_contest_id(s: Seq<char>) -> bool {
    s.len() > 0 && regex_compiles(CONTEST_ID_PATTERN@) && regex_is_match(CONTEST_ID_PATTERN@, s)
}

/// Whether `s` can be the value of a ContestId: one that parsing accepts, or
/// one of the two fixed values "geen" and "alle".
pub open spec fn is_contest_id_value(s: Seq<char>) -> bool {
    is_valid_contest_id(s) || s == "geen"@ || s == "alle"@
}

/// A string of type ContestId as defined in the EML_NL specification
#[derive(Debug, PartialEq, Eq)]
pub struct ContestId(String);

/// Error returned when a string could not be parsed as a [`ContestId`]; it
/// holds that string.
#[derive(Debug, Clone)]
pub struct InvalidContestIdError(pub String);

impl View for ContestId {
    type V = Seq<char>;

    closed spec fn view(&self) -> Seq<char> {
        self.0@
    }
}

impl Clone for ContestId {
    fn clone(&self) -> (r: Self)
        ensures
            r@ == self@,
    {
        proof {
            use_type_invariant(self);
        }
        ContestId(self.0.clone())
    }
}

impl ContestId {
    #[verifier::type_invariant]
    closed spec fn inv(self) -> bool {
        is_contest_id_value(self.0@)
    }

    /// The compiled regular expression for ContestId values.
    pub fn regex() -> (r: Result<IdPattern, InvalidPatternError>)
        ensures
            r is Ok <==> regex_compiles(CONTEST_ID_PATTERN@),
            r matches Ok(p) ==> p@ == CONTEST_ID_PATTERN@,
    {
        IdPattern::compile(CONTEST_ID_PATTERN)
    }

    /// Create a new `ContestId` from a string, validating its format
    pub fn new(s: &str) -> (r: Result<Self, InvalidContestIdError>)
        ensures
            r is Ok <==> is_valid_contest_id(s@),
            r matches Ok(v) ==> v@ == s@,
            r matches Err(e) ==> e.0@ == s@,
    {
        ContestId::parse_from_str(s)
    }

    /// Get the raw string value of the `ContestId`
    pub fn value(&self) -> (r: &str)
        ensures
            r@ == self@,
            is_contest_id_value(r@),
    {
        proof {
            use_type_invariant(self);
        }
        self.0.as_str()
    }

    /// Check if the `ContestId` is "geen"
    pub fn is_geen(&self) -> (r: bool)
        ensures
            r == (self@ == "geen"@),
    {
        str_eq(self.0.as_str(), "geen")
    }

    /// Check if the `ContestId` is "alle"
    pub fn is_alle(&self) -> (r: bool)
        ensures
            r == (self@ == "alle"@),
    {
        str_eq(self.0.as_str(), "alle")
    }

    /// Create a `ContestId` representing "geen"
    pub fn geen() -> (r: Self)
        ensures
            r@ == "geen"@,
    {
        ContestId("geen".to_owned())
    }

    /// Create a `ContestId` representing "alle"
    pub fn alle() -> (r: Self)
        ensures
            r@ == "alle"@,
    {
        ContestId("alle".to_owned())
    }

    /// Parse a `ContestId`: a non-empty string that [`CONTEST_ID_PATTERN`] matches.
    pub fn parse_from_str(s: &str) -> (r: Result<Self, InvalidContestIdError>)
        ensures
            r is Ok <==> is_valid_contest_id(s@),
            r matches Ok(v) ==> v@ == s@,
            r matches Err(e) ==> e.0@ == s@,
    {
        let matched = if s.is_empty() {
            false
        } else {
            match ContestId::regex() {
                Ok(re) => re.is_match(s),
                Err(_) => false,
            }
        };
        ContestId::from_match(s, matched)
    }

    /// Build a `ContestId` from `s` and the outcome of checking `s`: `Ok` when
    /// `s` is non-empty and matched [`CONTEST_ID_PATTERN`], else the error.
    pub fn from_match(s: &str, matched: bool) -> (r: Result<Self, InvalidContestIdError>)
        requires
            matched ==> is_valid_contest_id(s@),
        ensures
            r is Ok <==> matched,
            r matches Ok(v) ==> v@ == s@,
            r matches Err(e) ==> e.0@ == s@,
    {
        if matched {
            Ok(ContestId(s.to_owned()))
        } else {
            Err(InvalidContestIdError(s.to_owned()))
        }
    }

    /// The raw string of this `ContestId`.
    pub fn to_raw_value(&self) -> (r: String)
        ensures
            r@ == self@,
            is_contest_id_value(r@),
    {
        proof {
            use_type_invariant(self);
        }
        self.0.clone()
    }
}

/// The two fixed contest ids differ: a `ContestId` that is "geen" (such as
/// the one [`ContestId::geen`] builds) is not "alle", and one that is "alle"
/// is not "geen".
pub proof fn lemma_contest_id_geen_is_not_alle(c: ContestId)
    ensures
        c@ == "geen"@ ==> c@ != "alle"@,
        c@ == "alle"@ ==> c@ != "geen"@,
{
    reveal_strlit("geen");
    reveal_strlit("alle");
    assert("geen"@[0] == 'g');
    assert("alle"@[0] == 'a');
}

/// A ContestId representing a fixed "geen" value
#[derive(Debug, Clone, PartialEq, Eq, Structural)]
pub struct ContestIdGeen;

/// Error returned when a string could not be parsed as a [`ContestIdGeen`];
/// it holds that string.
#[derive(Debug, Clone)]
pub struct InvalidContestIdGeenError(pub String);

impl ContestIdGeen {
    /// The fixed string value for 'geen'
    pub const GEEN: &'static str = "geen";

    /// Create a new `ContestIdGeen`
    pub fn new() -> (r: Self)
        ensures
            r == ContestIdGeen,
    {
        ContestIdGeen
    }

    /// Convert to a regular [`ContestId`]
    pub fn to_contest_id(&self) -> (r: ContestId)
        ensures
            r@ == "geen"@,
    {
        ContestId::geen()
    }

    /// Parse a `ContestIdGeen`: only the string "geen" is accepted.
    pub fn parse_from_str(s: &str) -> (r: Result<Self, InvalidContestIdGeenError>)
        ensures
            r is Ok <==> s@ == "geen"@,
            r matches Err(e) ==> e.0@ == s@,
    {
        if str_eq(s, ContestIdGeen::GEEN) {
            Ok(ContestIdGeen)
        } else {
            Err(InvalidContestIdGeenError(s.to_owned()))
        }
    }

    /// The raw string of a `ContestIdGeen`, which is always "geen".
    pub fn to_raw_value(&self) -> (r: String)
        ensures
            r@ == "geen"@,
    {
        ContestIdGeen::GEEN.to_owned()
    }
}

impl Default for ContestIdGeen {
    fn default() -> (r: Self)
        ensures
            r == ContestIdGeen,
    {
        ContestIdGeen::new()
    }
}

} // verus!
