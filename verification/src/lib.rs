//! Core logic of a credential-expiry exporter.
//!
//! The library models the parts of the exporter that make decisions: the
//! cached bearer token and its refresh transitions, the paginated scrape that
//! turns application records into metric samples, and the outcome tracking
//! and response selection of the HTTP surface. The surrounding process (the
//! OAuth2 exchange, the HTTP client and server, configuration loading) hands
//! these functions plain values and carries their results out.

pub mod exporter;
pub mod scrape;
pub mod settings;
pub mod token;
