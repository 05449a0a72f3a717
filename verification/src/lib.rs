//! Client logic for a drug-name normalization lookup: building the query for
//! the remote identifier endpoint, deciding the single retry, and turning the
//! JSON response into a list of numeric identifiers or an explicit absence.

pub mod document;
pub mod extract;
pub mod ids;
pub mod protocol;
