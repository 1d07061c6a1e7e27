//! Value types of the EML_NL election markup: the closed code lists used in
//! EML documents, the identifier types that are validated by a regular
//! expression, and the small structures built from them.

pub mod common;
pub mod documents;
pub mod pattern;
pub mod text;
pub mod utils;
pub mod xml;
