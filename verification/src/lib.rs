//! Identity and access core of a library-lending service: opaque tagged
//! identifiers, password credentials, bearer tokens and permissions,
//! together with the validated values that the lending catalogue is built from.

pub mod auth;
pub mod books;
pub mod client;
pub mod config;
pub mod database;
pub mod error;
pub mod http;
pub mod id;
pub mod lendings;
pub mod libraries;
pub mod state;
pub mod tags;
pub mod text;

pub use error::{Error, ErrorChain};
