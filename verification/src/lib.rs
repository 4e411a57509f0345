//! Remote Image Viewer: the verified core of an image sharing site that stores
//! links to images hosted elsewhere, tags them and lets users search by tag.
//!
//! The database, the web front end and the configuration file live around this
//! library; everything that decides something lives here, with its contract.

pub mod api;
pub mod text;
pub mod user;
pub mod permission;
pub mod settings;
pub mod account;
pub mod tags;
pub mod words;
pub mod linking;
pub mod editing;
pub mod pages;
