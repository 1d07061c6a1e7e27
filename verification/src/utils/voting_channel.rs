use vstd::prelude::*;

use crate::text::str_eq;

verus! {

/// Voting method used in the election.
#[derive(Debug, Clone, Copy, PartialEq, Eq, Structural)]
pub enum VotingChannelType {
    /// A physical polling station
    Polling,
    /// Votes by mail
    Postal,
}

/// Error returned when an unknown voting channel string is encountered; it holds that string.
#[derive(Debug, Clone, PartialEq, Eq)]
pub struct UnknownVotingChannelError(pub String);

impl VotingChannelType {
    /// The EML string of this value.
    pub open spec fn spec_eml_value(self) -> Seq<char> {
        match self {
            VotingChannelType::Polling => "polling"@,
            VotingChannelType::Postal => "postal"@,
        }
    }

    /// The value whose EML string is `s`, if there is one.
    pub open spec fn spec_from_eml_value(s: Seq<char>) -> Option<VotingChannelType> {
        if s == "polling"@ {
            Some(VotingChannelType::Polling)
        } else if s == "postal"@ {
            Some(VotingChannelType::Postal)
        } else {
            None
        }
    }

    /// Create a [`VotingChannelType`] from a `&str`, if possible.
    pub fn from_eml_value(s: &str) -> (r: Result<Self, UnknownVotingChannelError>)
        ensures
            match VotingChannelType::spec_from_eml_value(s@) {
                Some(v) => r == Ok::<VotingChannelType, UnknownVotingChannelError>(v),
                None => r matches Err(e) && e.0@ == s@,
            },
    {
        if str_eq(s, "polling") {
            Ok(VotingChannelType::Polling)
        } else if str_eq(s, "postal") {
            Ok(VotingChannelType::Postal)
        } else {
            Err(UnknownVotingChannelError(s.to_owned()))
        }
    }

    /// Get the `&str` representation of this [`VotingChannelType`].
    pub fn to_eml_value(&self) -> (r: &'static str)
        ensures
            r@ == self.spec_eml_value(),
    {
        match self {
            VotingChannelType::Polling => "polling",
            VotingChannelType::Postal => "postal",
        }
    }

    /// Parse this value from its EML string.
    pub fn parse_from_str(s: &str) -> (r: Result<Self, UnknownVotingChannelError>)
        ensures
            match VotingChannelType::spec_from_eml_value(s@) {
                Some(v) => r == Ok::<VotingChannelType, UnknownVotingChannelError>(v),
                None => r matches Err(e) && e.0@ == s@,
            },
    {
        VotingChannelType::from_eml_value(s)
    }

    /// The EML string of this value, as an owned `String`.
    pub fn to_raw_value(&self) -> (r: String)
        ensures
            r@ == self.spec_eml_value(),
    {
        self.to_eml_value().to_owned()
    }
}

/// Every VotingChannelType has exactly one EML value and every EML value names at most one
/// VotingChannelType: parsing `s` gives `v` exactly when `s` is the EML value of `v`.
pub proof fn lemma_voting_channel_eml_value_bijection(v: VotingChannelType, s: Seq<char>)
    ensures
        VotingChannelType::spec_from_eml_value(s) == Some(v) <==> v.spec_eml_value() == s,
{
    reveal_strlit("polling");
    reveal_strlit("postal");
    assert("polling"@.len() == 7);
    assert("postal"@.len() == 6);
}

/// The EML value of each voting channel, one fixed text per value, as listed
/// below: each text is what the value is written as, and parsing it gives
/// that value.
pub proof fn lemma_voting_channel_codes()
    ensures
        VotingChannelType::Polling.spec_eml_value() == "polling"@,
        VotingChannelType::spec_from_eml_value("polling"@) == Some(VotingChannelType::Polling),
        VotingChannelType::Postal.spec_eml_value() == "postal"@,
        VotingChannelType::spec_from_eml_value("postal"@) == Some(VotingChannelType::Postal),
{
    lemma_voting_channel_eml_value_bijection(VotingChannelType::Polling, "polling"@);
    lemma_voting_channel_eml_value_bijection(VotingChannelType::Postal, "postal"@);
}

} // verus!
