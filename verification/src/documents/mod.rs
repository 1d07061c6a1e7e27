//! The EML_NL count (`510a`-`510d`) and result (`520`) documents: their codes,
//! their structures, and the verified steps that read and write them.
//!
//! Both documents have a `CandidateSelection` and an `AffiliationSelection` of
//! their own; those are reached through the two modules.

pub mod election_count;
pub mod election_result;

pub use election_count::{
    is_valid_reporting_unit_identifier_id, lemma_count_type_eml_id_bijection,
    lemma_investigation_reason_eml_code_bijection, lemma_uncounted_votes_reason_eml_code_bijection,
    CountSelectionChild, CountType, ElectionCount, ElectionCountContest, ElectionCountCount,
    ElectionCountElection, ElectionCountElectionIdentifier, ElectionCountSelection,
    ElectionCountSelectionType, InvalidInvestigationReason,
    InvalidReportingUnitVotesIdentifierType, InvalidUncountedVotesReason, Investigation,
    InvestigationReason, ReferendumOptionSelection, ReportingUnitIdentifier,
    ReportingUnitIdentifierIdType, ReportingUnitInvestigations, ReportingUnitVotes, TotalVotes,
    UncountedVotes, UncountedVotesReason, VotesChild, EML_COUNT_CENTRAL_ID,
    EML_COUNT_DISTRICT_ID, EML_COUNT_MUNICIPAL_ID, EML_COUNT_POLLING_STATION_ID,
    REPORTING_UNIT_IDENTIFIER_ID_PATTERN,
};
pub use election_result::{
    lemma_ranking_type_str_bijection, lemma_yes_no_bijection, ElectionResult,
    ElectionResultContest, ElectionResultElection, ElectionResultElectionIdentifier,
    ElectionResultResult, ElectionResultSelection, ElectionResultSelectionType,
    InvalidRankingTypeError, InvalidYesNoTypeError, RankingType, ResultSelectionChild,
    YesNoType, EML_ELECTION_RESULT_ID,
};
