//! The Credinform service: its data models, request and response handling,
//! and the cache of access tokens.
pub mod api;
pub mod models;
pub mod token_cache;

pub use models::{AccessToken, Address, CredinformData, CredinformFile, SearchCompany, TaxNumber};
