//! Structures shared between EML_NL documents.

mod candidate_identifier;
mod country_name_code;
mod election_domain;
mod election_tree;
mod minimal_qualifying_address;
mod region_category;

pub use candidate_identifier::{lemma_candidate_identifier_events_read_back, CandidateIdentifier};
pub use country_name_code::CountryNameCode;
pub use election_domain::ElectionDomain;
pub use election_tree::{ElectionTree, ElectionTreeRegion};
pub use minimal_qualifying_address::{
    address_choice, address_unexpected, AddressChild, MinimalQualifyingAddress,
    MinimalQualifyingAddressCountry, MinimalQualifyingAddressLocality,
};
pub use region_category::{
    lemma_region_category_eml_value_bijection, RegionCategory, UnknownRegionCategoryError,
};
