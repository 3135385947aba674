//! Typed client library for the Foursquare venues API.
//!
//! The library decides everything about a request and a response that does
//! not need the network: which query pairs a request carries, how the final
//! URL is formed, how a response body is split into a payload or a fault, and
//! how JSON documents map onto the typed payloads. Sending the request is left
//! to the caller's HTTP transport.
pub mod client;
pub mod credentials;
pub mod error;
pub mod json;
pub mod options;
pub mod query;
pub mod response;
pub mod venue;

pub use client::{Client, DEFAULT_HOST};
pub use credentials::Credentials;
pub use error::{ClientError, CodecError, ErrorKind, UriError};
pub use options::{
    ExploreOptions, ExploreOptionsBuilder, Feature, HoursOptions, HoursOptionsBuilder, Intent,
    RecommendationsOptions, RecommendationsOptionsBuilder, SearchOptions, SearchOptionsBuilder,
    SuggestOptions, SuggestOptionsBuilder, TipsOptions, TipsOptionsBuilder, VenueDetailsOptions,
    VenueDetailsOptionsBuilder,
};
pub use response::{hours_response, response_document, tips_response, Meta, Response};
