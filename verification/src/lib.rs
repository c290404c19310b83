//! Building blocks for fetching and serving WebFinger (RFC 7033) resources.
//!
//! A WebFinger resource is identified by a string of the form
//! `<prefix>:<user>@<domain>`. [`Resolver`] parses and validates such a
//! string and hands the structured identifier to a caller-supplied lookup,
//! and [`url_for`] builds the well-known query URL a client has to fetch.

use vstd::prelude::*;

mod fetch;
mod jrd;
mod prefix;
mod resolver;
mod text;

pub use crate::fetch::{resolve_target, resolve_target_spec, scheme_text, url_for, url_for_spec};
pub use crate::jrd::{LinkView, WebfingerView, comma_join, json_escape, json_escape_char, json_string, link_jrd, webfinger_jrd};
pub use crate::prefix::{Prefix, PrefixView, lemma_prefix_text_round_trip, lower_of, prefix_from_spec};
pub use crate::resolver::{ParsedResource, ParsedView, Resolver, lemma_parse_resource_of_parts, parse_resource, parse_resource_spec, resolution_outcome, validate_resource};
pub use crate::text::{contains_char, first_index, is_first_at, lemma_contains_char_iff, split_first, str_eq};

verus! {

/// A WebFinger result, the JSON Resource Descriptor served or fetched.
#[derive(Debug, PartialEq, Eq, Clone)]
pub struct Webfinger {
    /// The subject of this WebFinger result, an `acct:`-or-similar URI.
    pub subject: String,
    /// Other names for the same resource.
    pub aliases: Vec<String>,
    /// Links to places with more information about the resource.
    pub links: Vec<Link>,
}

/// One link of a WebFinger result.
#[derive(Debug, PartialEq, Eq, Clone)]
pub struct Link {
    /// What this link represents.
    pub rel: String,
    /// The URL the link points at.
    pub href: Option<String>,
    /// A URL template, possibly standing in for an actual URL.
    pub template: Option<String>,
    /// The mime type of the resource behind the link; serialized as `type`.
    pub mime_type: Option<String>,
}

/// An error that occurred while fetching a WebFinger resource.
#[derive(Debug, PartialEq, Eq, Copy, Clone)]
pub enum WebfingerError {
    /// The HTTP request failed.
    HttpError,
    /// No target domain could be derived from the requested resource.
    ParseError,
    /// The response body did not describe a valid [`Webfinger`] document.
    JsonError,
}

/// An error that occurred while answering an incoming WebFinger request.
#[derive(Debug, PartialEq, Eq, Copy, Clone)]
pub enum ResolverError {
    /// The requested resource was not correctly formatted.
    InvalidResource,
    /// The requested resource belongs to another domain than this instance.
    WrongDomain,
    /// The requested resource was not found.
    NotFound,
}

} // verus!
