//! Parsing and domain validation of incoming resource identifiers, and the
//! endpoint that serves them from a caller-supplied lookup.

use vstd::prelude::*;
use vstd::string::StrSliceExecFns;

use crate::prefix::{Prefix, PrefixView, prefix_from_spec};
use crate::text::{first_index, is_first_at, split_at_char, split_first, str_eq};
use crate::{ResolverError, Webfinger};

verus! {

/// A resource identifier `<prefix>:<user>@<domain>`, parsed.
#[derive(Debug, PartialEq, Eq, Clone)]
pub struct ParsedResource {
    /// The prefix before the first `:`.
    pub prefix: Prefix,
    /// The local user identifier, between the `:` and the first `@` after it.
    pub user: String,
    /// The domain the resource claims to belong to.
    pub domain: String,
}

/// The mathematical shape of a [`ParsedResource`].
pub struct ParsedView {
    pub prefix: PrefixView,
    pub user: Seq<char>,
    pub domain: Seq<char>,
}

impl View for ParsedResource {
    type V = ParsedView;

    open spec fn view(&self) -> ParsedView {
        ParsedView { prefix: self.prefix@, user: self.user@, domain: self.domain@ }
    }
}

/// What a raw resource string parses to: the token before the first `:` is
/// the prefix, the part between that `:` and the first `@` after it the user,
/// everything after that `@` the domain. `None` when either separator is
/// missing.
pub open spec fn parse_resource_spec(resource: Seq<char>) -> Option<ParsedView> {
    match split_first(resource, ':') {
        None => None,
        Some(parts) => match split_first(parts.1, '@') {
            None => None,
            Some(account) => Some(
                ParsedView {
                    prefix: prefix_from_spec(parts.0),
                    user: account.0,
                    domain: account.1,
                },
            ),
        },
    }
}

/// The part of serving a resource that is decided before the lookup runs:
/// a malformed identifier is rejected as [`ResolverError::InvalidResource`],
/// one whose domain is not the serving instance's own as
/// [`ResolverError::WrongDomain`]; anything else is handed to the lookup.
pub open spec fn resolution_outcome(resource: Seq<char>, instance_domain: Seq<char>) -> Result<
    ParsedView,
    ResolverError,
> {
    match parse_resource_spec(resource) {
        None => Err(ResolverError::InvalidResource),
        Some(p) => if p.domain != instance_domain {
            Err(ResolverError::WrongDomain)
        } else {
            Ok(p)
        },
    }
}

/// Both splits take only the first separator, so an identifier built from a
/// prefix token without `:` and a user without `@` parses back to exactly
/// those parts, however many `:` the user carries and however many `:` or
/// `@` the domain does.
pub proof fn lemma_parse_resource_of_parts(token: Seq<char>, user: Seq<char>, domain: Seq<char>)
    requires
        forall|j: int| 0 <= j < token.len() ==> token[j] != ':',
        forall|j: int| 0 <= j < user.len() ==> user[j] != '@',
    ensures
        parse_resource_spec(token + seq![':'] + user + seq!['@'] + domain) == Some(
            ParsedView { prefix: prefix_from_spec(token), user: user, domain: domain },
        ),
{
    let s = token + seq![':'] + user + seq!['@'] + domain;
    let tl = token.len() as int;
    let rest = user + seq!['@'] + domain;
    assert(s[tl] == ':');
    assert(is_first_at(s, ':', tl)) by {
        assert(forall|j: int| 0 <= j < tl ==> s[j] == token[j]);
    }
    assert(first_index(s, ':') == tl);
    assert(s.subrange(0, tl) =~= token);
    assert(s.subrange(tl + 1, s.len() as int) =~= rest);
    let ul = user.len() as int;
    assert(rest[ul] == '@');
    assert(is_first_at(rest, '@', ul)) by {
        assert(forall|j: int| 0 <= j < ul ==> rest[j] == user[j]);
    }
    assert(first_index(rest, '@') == ul);
    assert(rest.subrange(0, ul) =~= user);
    assert(rest.subrange(ul + 1, rest.len() as int) =~= domain);
}

/// Parses a raw resource string of the form `<prefix>:<user>@<domain>`,
/// splitting on the first `:` and on the first `@` after it.
pub fn parse_resource(resource: &str) -> (r: Result<ParsedResource, ResolverError>)
    ensures
        match parse_resource_spec(resource@) {
            Some(p) => r matches Ok(pr) && pr@ == p,
            None => r == Err::<ParsedResource, ResolverError>(ResolverError::InvalidResource),
        },
{
    match split_at_char(resource, ':') {
        None => Err(ResolverError::InvalidResource),
        Some((token, rest)) => match split_at_char(rest, '@') {
            None => Err(ResolverError::InvalidResource),
            Some((user, domain)) => Ok(
                ParsedResource {
                    prefix: Prefix::from(token),
                    user: user.to_owned(),
                    domain: domain.to_owned(),
                },
            ),
        },
    }
}

/// Parses a raw resource string and checks its domain against the serving
/// instance's own, byte for byte.
pub fn validate_resource(resource: &str, instance_domain: &str) -> (r: Result<
    ParsedResource,
    ResolverError,
>)
    ensures
        match resolution_outcome(resource@, instance_domain@) {
            Ok(p) => r matches Ok(pr) && pr@ == p,
            Err(e) => r == Err::<ParsedResource, ResolverError>(e),
        },
{
    match parse_resource(resource) {
        Err(e) => Err(e),
        Ok(parsed) => {
            if str_eq(parsed.domain.as_str(), instance_domain) {
                Ok(parsed)
            } else {
                Err(ResolverError::WrongDomain)
            }
        },
    }
}

/// A WebFinger endpoint over any resource repository.
///
/// The repository type `R` (a database handle, for instance) is passed
/// through [`Resolver::endpoint`] to the caller-supplied lookup
/// [`Resolver::find`].
pub trait Resolver<R> {
    /// The domain this instance answers for, as a mathematical value. An
    /// implementation verified against [`Resolver::instance_domain`]'s
    /// contract overrides this; an unverified one may leave the default in
    /// place, and what is proved here then promises nothing about it.
    open spec fn domain_spec(&self) -> Seq<char> {
        Seq::empty()
    }

    /// Returns the domain name of the current instance.
    fn instance_domain(&self) -> (r: &str)
        ensures
            r@ == self.domain_spec(),
    ;

    /// Tries to find the resource `acct` in the repository `resource_repo`.
    ///
    /// `acct` is not a complete `acct:` URI; it only carries the identifier
    /// of the requested resource (`test` for `acct:test@example.org`).
    /// When the resource does not exist, returning
    /// [`ResolverError::NotFound`] is the conventional answer.
    fn find(
        &self,
        prefix: Prefix,
        acct: &str,
        rels: &[String],
        resource_repo: R,
    ) -> Result<Webfinger, ResolverError>;

    /// Answers a WebFinger request for `resource`, optionally restricted to
    /// the relation types in `rels`: the resource is parsed, its domain
    /// checked against [`Resolver::instance_domain`], and only then is the
    /// lookup [`Resolver::find`] consulted, whose result is returned
    /// verbatim — on a valid resource of the instance's own domain, the
    /// answer is a possible return of [`Resolver::find`] on exactly the
    /// parsed prefix and user.
    fn endpoint(&self, resource: &str, rels: &[String], resource_repo: R) -> (r: Result<
        Webfinger,
        ResolverError,
    >)
        ensures
            resolution_outcome(resource@, self.domain_spec()) matches Err(e) ==> r == Err::<
                Webfinger,
                ResolverError,
            >(e),
            resolution_outcome(resource@, self.domain_spec()) matches Ok(p) ==> exists|
                pr: Prefix,
                u: &str,
            |
                pr@ == p.prefix && u@ == p.user && #[trigger] call_ensures(
                    Self::find,
                    (self, pr, u, rels, resource_repo),
                    r,
                ),
    {
        match validate_resource(resource, self.instance_domain()) {
            Err(e) => Err(e),
            Ok(parsed) => {
                let ghost parsed_snapshot = parsed;
                let user = parsed.user.as_str();
                let result = self.find(parsed.prefix, user, rels, resource_repo);
                proof {
                    match resolution_outcome(resource@, self.domain_spec()) {
                        Ok(p) => {
                            assert(parsed_snapshot.prefix@ == p.prefix && user@ == p.user
                                && call_ensures(
                                Self::find,
                                (self, parsed_snapshot.prefix, user, rels, resource_repo),
                                result,
                            ));
                        },
                        Err(_) => {},
                    }
                }
                result
            },
        }
    }
}

} // verus!
