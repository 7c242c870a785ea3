//! Extraction engine for the community pages of the Tibia website.
//!
//! The library turns raw page text into typed domain records: towns, worlds,
//! world details, guilds, kill statistics, residences and character sheets.
//! Fetching pages and serving the records over HTTP is left to the caller;
//! every function here is pure with respect to the page text it is given.

pub mod aggregate;
pub mod character;
pub mod classify;
pub mod dom;
pub mod error;
pub mod guilds;
pub mod kill_statistics;
pub mod models;
pub mod num;
pub mod residences;
pub mod sanitize;
pub mod text;
pub mod time;
pub mod timeparse;
pub mod towns;
pub mod world_details;
pub mod worlds;

pub use error::ClientError;
pub use error::ClientErrorCode;
pub use error::PublicErrorBody;
pub use error::TibiaError;
