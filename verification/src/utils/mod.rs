//! Enumerated and validated value types of EML_NL.

mod affiliation_type;
mod candidate_id_type;
mod contest_id;
mod gender;
mod gender_type;
mod publication_language_type;
mod voting_channel;

pub use affiliation_type::{
    lemma_affiliation_type_eml_value_bijection, AffiliationType, UnknownAffiliationTypeError,
};
pub use candidate_id_type::{
    is_valid_candidate_id, CandidateIdType, InvalidCandidateIdError, CANDIDATE_ID_PATTERN,
};
pub use contest_id::{
    is_contest_id_value, is_valid_contest_id, lemma_contest_id_geen_is_not_alle, ContestId, ContestIdGeen, InvalidContestIdError,
    InvalidContestIdGeenError, CONTEST_ID_PATTERN,
};
pub use gender::{lemma_gender_eml_value_bijection, Gender, UnknownGenderError};
pub use gender_type::{lemma_gender_type_eml_value_bijection, GenderType, UnknownGenderTypeError};
pub use publication_language_type::{
    lemma_publication_language_eml_value_bijection, PublicationLanguageType,
    UnknownPublicationLanguageType,
};
pub use voting_channel::{
    lemma_voting_channel_eml_value_bijection, UnknownVotingChannelError, VotingChannelType,
};
