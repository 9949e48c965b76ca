//! Verified core of a command-line client for the Credinform and FNS
//! company-information services: request building, response extraction,
//! file layout, work planning and the access-token cache.
pub mod text;
pub mod credinform;
pub mod json;
pub mod config;
pub mod error;
pub mod urls;
pub mod fns;
pub mod cli;
pub mod completion;
