//! Building the well-known query URL for fetching a remote WebFinger
//! resource, and choosing prefix and account for a bare identifier.

use vstd::prelude::*;
use vstd::string::StrSliceExecFns;
use vstd::string::StringExecFns;

use crate::WebfingerError;
use crate::prefix::{Prefix, PrefixView, prefix_from_spec};
use crate::text::{contains_char, find_char, split_at_char, split_first};

verus! {

/// The scheme of a WebFinger query URL.
pub open spec fn scheme_text(with_https: bool) -> Seq<char> {
    if with_https {
        "https"@
    } else {
        "http"@
    }
}

/// The well-known WebFinger query URL for a resource:
/// `<scheme>://<domain>/.well-known/webfinger?resource=<prefix>:<acct>`,
/// the domain being everything after the first `@` of `acct`. An account
/// without an `@` has no domain to query and is rejected.
pub open spec fn url_for_spec(prefix: PrefixView, acct: Seq<char>, with_https: bool) -> Result<
    Seq<char>,
    WebfingerError,
> {
    match split_first(acct, '@') {
        None => Err(WebfingerError::ParseError),
        Some(parts) => Ok(
            scheme_text(with_https) + "://"@ + parts.1 + "/.well-known/webfinger?resource="@
                + prefix.text() + ":"@ + acct,
        ),
    }
}

/// Computes the URL to fetch for a given resource.
///
/// `acct` is the identifier of the resource, for instance
/// `someone@example.org`; `with_https` selects between `https` and `http`.
pub fn url_for(prefix: Prefix, acct: &str, with_https: bool) -> (r: Result<String, WebfingerError>)
    ensures
        match url_for_spec(prefix@, acct@, with_https) {
            Ok(u) => r matches Ok(s) && s@ == u,
            Err(e) => r == Err::<String, WebfingerError>(e),
        },
{
    match split_at_char(acct, '@') {
        None => Err(WebfingerError::ParseError),
        Some((_, domain)) => {
            let mut url = if with_https {
                "https".to_owned()
            } else {
                "http".to_owned()
            };
            url.append("://");
            url.append(domain);
            url.append("/.well-known/webfinger?resource=");
            let prefix_text = prefix.text();
            url.append(prefix_text.as_str());
            url.append(":");
            url.append(acct);
            Ok(url)
        },
    }
}

/// The prefix and account that a bare identifier is fetched under: an
/// identifier whose part before the first `:` carries an `@` is a plain
/// `acct:` identifier (the `:` belongs to a port number), one with a `:` and
/// no earlier `@` names its own prefix, and one with neither is tried as an
/// `acct:` identifier as a whole.
pub open spec fn resolve_target_spec(acct: Seq<char>) -> (PrefixView, Seq<char>) {
    match split_first(acct, ':') {
        Some(parts) => if contains_char(parts.0, '@') {
            (PrefixView::Acct, acct)
        } else {
            (prefix_from_spec(parts.0), parts.1)
        },
        None => (PrefixView::Acct, acct),
    }
}

/// Decides what a bare identifier is fetched as: the prefix to use and the
/// account to build the query URL from.
pub fn resolve_target(acct: &str) -> (r: (Prefix, String))
    ensures
        r.0@ == resolve_target_spec(acct@).0,
        r.1@ == resolve_target_spec(acct@).1,
{
    match split_at_char(acct, ':') {
        Some((first, rest)) => {
            match find_char(first, '@') {
                Some(_) => (Prefix::Acct, acct.to_owned()),
                None => (Prefix::from(first), rest.to_owned()),
            }
        },
        None => (Prefix::Acct, acct.to_owned()),
    }
}

} // verus!
