//! A client library for the Steam Web API.
//!
//! The catalog side fetches the full list of application IDs and names and
//! searches it by a case-sensitive substring match; the detail side decodes
//! one storefront detail document per application ID, tolerating per-ID
//! lookup failures without giving the whole batch up.

pub mod catalog;
pub mod detail;
pub mod errors;
pub mod json;
pub mod text;
