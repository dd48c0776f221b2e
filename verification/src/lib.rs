//! Typed client library for an add-on catalog HTTP API.
//!
//! The library owns the data model (the typed records an API response is
//! decoded into), the decoding of a JSON document into those records, the
//! construction of the request URLs, and the error taxonomy. The actual
//! network calls live outside the library: a caller hands in the outcome of
//! a request (a parsed JSON document, or a transport failure) and receives
//! a fully decoded record or a tagged error.

pub mod json;
pub mod twitch_app_api;

pub use crate::json::{DecodeError, Json, Num};
pub use crate::twitch_app_api::{
    addon_url, category_section_url, category_url, Addon, Attachment, Author, Category,
    CategorySection, FetchError, File, GameVersionFile, Module, SortableGameVersion,
};
