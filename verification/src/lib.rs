//! Extraction of structured event records from heterogeneous HTML pages.
//!
//! The crate is organised around three stages: an extractor that turns page
//! text into raw [`html_parser::Event`] records (driven by a per-site
//! [`html_parser::SiteConfig`]), a URL resolver that turns relative links
//! into absolute ones, and a normaliser that cleans the raw records into
//! [`data_processing::ProcessedEvent`] values with trimmed text and
//! defaulted dates.

pub mod data_processing;
pub mod dom;
pub mod html_parser;
pub mod json;
pub mod text;
pub mod urls;
