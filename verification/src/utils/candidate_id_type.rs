use vstd::prelude::*;

use crate::pattern::{regex_compiles, regex_is_match, IdPattern, InvalidPatternError};

verus! {

/// Regular expression for validating CandidateIdType values.
pub const CANDIDATE_ID_PATTERN: &'static str = "^([1-9]\\d*)$";

/// Whether `s` is a valid CandidateIdType: the pattern compiles and matches `s`.
pub open spec fn is_valid_candidate_id(s: Seq<char>) -> bool {
    regex_compiles(CANDIDATE_ID_PATTERN@) && regex_is_match(CANDIDATE_ID_PATTERN@, s)
}

/// A string of type CandidateIdType as defined in the EML_NL specification
#[derive(Debug, PartialEq, Eq)]
pub struct CandidateIdType(String);

/// Error returned when a string could not be parsed as a CandidateIdType; it
/// holds that string.
#[derive(Debug, Clone)]
pub struct InvalidCandidateIdError(pub String);

impl View for CandidateIdType {
    type V = Seq<char>;

    closed spec fn view(&self) -> Seq<char> {
        self.0@
    }
}

impl Clone for CandidateIdType {
    fn clone(&self) -> (r: Self)
        ensures
            r@ == self@,
    {
        proof {
            use_type_invariant(self);
        }
        CandidateIdType(self.0.clone())
    }
}

impl CandidateIdType {
    #[verifier::type_invariant]
    closed spec fn inv(self) -> bool {
        is_valid_candidate_id(self.0@)
    }

    /// The compiled regular expression for CandidateIdType values.
    pub fn regex() -> (r: Result<IdPattern, InvalidPatternError>)
        ensures
            r is Ok <==> regex_compiles(CANDIDATE_ID_PATTERN@),
            r matches Ok(p) ==> p@ == CANDIDATE_ID_PATTERN@,
    {
        IdPattern::compile(CANDIDATE_ID_PATTERN)
    }

    /// Create a new CandidateIdType from a string, validating its format
    pub fn new(s: &str) -> (r: Result<Self, InvalidCandidateIdError>)
        ensures
            r is Ok <==> is_valid_candidate_id(s@),
            r matches Ok(v) ==> v@ == s@,
            r matches Err(e) ==> e.0@ == s@,
    {
        CandidateIdType::parse_from_str(s)
    }

    /// Get the raw string value of the CandidateIdType.
    pub fn value(&self) -> (r: &str)
        ensures
            r@ == self@,
            is_valid_candidate_id(r@),
    {
        proof {
            use_type_invariant(self);
        }
        self.0.as_str()
    }

    /// Parse a CandidateIdType, validating it against [`CANDIDATE_ID_PATTERN`].
    pub fn parse_from_str(s: &str) -> (r: Result<Self, InvalidCandidateIdError>)
        ensures
            r is Ok <==> is_valid_candidate_id(s@),
            r matches Ok(v) ==> v@ == s@,
            r matches Err(e) ==> e.0@ == s@,
    {
        let matched = match CandidateIdType::regex() {
            Ok(re) => re.is_match(s),
            Err(_) => false,
        };
        CandidateIdType::from_match(s, matched)
    }

    /// Build a CandidateIdType from `s` and the outcome of matching `s`
    /// against [`CANDIDATE_ID_PATTERN`]: `Ok` when it matched, else the error.
    pub fn from_match(s: &str, matched: bool) -> (r: Result<Self, InvalidCandidateIdError>)
        requires
            matched ==> is_valid_candidate_id(s@),
        ensures
            r is Ok <==> matched,
            r matches Ok(v) ==> v@ == s@,
            r matches Err(e) ==> e.0@ == s@,
    {
        if matched {
            Ok(CandidateIdType(s.to_owned()))
        } else {
            Err(InvalidCandidateIdError(s.to_owned()))
        }
    }

    /// The raw string of this CandidateIdType.
    pub fn to_raw_value(&self) -> (r: String)
        ensures
            r@ == self@,
            is_valid_candidate_id(r@),
    {
        proof {
            use_type_invariant(self);
        }
        self.0.clone()
    }
}

} // verus!
