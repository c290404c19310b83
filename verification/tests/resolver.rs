use webfinger::{Link, Prefix, Resolver, ResolverError, Webfinger, parse_resource, validate_resource};

pub struct MyResolver;

// Only one user, represented by a string.
impl Resolver<&'static str> for MyResolver {
    fn instance_domain(&self) -> &str {
        "instance.tld"
    }

    fn find(
        &self,
        prefix: Prefix,
        acct: &str,
        _rels: &[String],
        resource_repo: &'static str,
    ) -> Result<Webfinger, ResolverError> {
        if acct == resource_repo && prefix == Prefix::Acct {
            Ok(Webfinger {
                subject: acct.to_owned(),
                aliases: vec![acct.to_owned()],
                links: vec![Link {
                    rel: "http://webfinger.net/rel/profile-page".to_string(),
                    mime_type: None,
                    href: Some(format!("https://instance.tld/@{}/", acct)),
                    template: None,
                }],
            })
        } else {
            Err(ResolverError::NotFound)
        }
    }
}

#[test]
fn test_my_resolver() {
    let resolver = MyResolver;
    let rels = vec!["http://webfinger.net/rel/profile-page".to_string()];

    assert!(resolver
        .endpoint("acct:admin@instance.tld", &Vec::<String>::new(), "admin")
        .is_ok());
    assert_eq!(
        resolver.endpoint("acct:test@instance.tld", &rels, "admin"),
        Err(ResolverError::NotFound)
    );
    assert_eq!(
        resolver.endpoint("acct:admin@oops.ie", &rels, "admin"),
        Err(ResolverError::WrongDomain)
    );
    assert_eq!(
        resolver.endpoint("admin@instance.tld", &rels, "admin"),
        Err(ResolverError::InvalidResource)
    );
    assert_eq!(
        resolver.endpoint("admin", &rels, "admin"),
        Err(ResolverError::InvalidResource)
    );
    assert_eq!(
        resolver.endpoint("acct:admin", &rels, "admin"),
        Err(ResolverError::InvalidResource)
    );
    assert_eq!(
        resolver.endpoint("group:admin@instance.tld", &rels, "admin"),
        Err(ResolverError::NotFound)
    );
}

#[test]
fn test_endpoint_success_subject() {
    let resolver = MyResolver;
    let wf = resolver
        .endpoint("acct:admin@instance.tld", &Vec::<String>::new(), "admin")
        .unwrap();
    assert_eq!(wf.subject, "admin".to_string());
    assert_eq!(wf.aliases, vec!["admin".to_string()]);
    assert_eq!(wf.links.len(), 1);
    assert_eq!(wf.links[0].href, Some("https://instance.tld/@admin/".to_string()));
}

#[test]
fn test_parse_resource_well_formed() {
    let parsed = parse_resource("acct:carol@example.com").unwrap();
    assert_eq!(parsed.prefix, Prefix::Acct);
    assert_eq!(parsed.user, "carol".to_string());
    assert_eq!(parsed.domain, "example.com".to_string());
}

#[test]
fn test_parse_resource_splits_on_first_separator_only() {
    // Later `:` and `@` belong to the user and domain parts.
    let parsed = parse_resource("acct:carol:8080@node@example.com").unwrap();
    assert_eq!(parsed.prefix, Prefix::Acct);
    assert_eq!(parsed.user, "carol:8080".to_string());
    assert_eq!(parsed.domain, "node@example.com".to_string());
}

#[test]
fn test_parse_resource_case_insensitive_prefix() {
    let parsed = parse_resource("GROUP:admins@example.com").unwrap();
    assert_eq!(parsed.prefix, Prefix::Group);
    let parsed = parse_resource("MaGnet:admins@example.com").unwrap();
    assert_eq!(parsed.prefix, Prefix::Custom("magnet".to_string()));
}

#[test]
fn test_parse_resource_no_colon() {
    assert_eq!(parse_resource("admin"), Err(ResolverError::InvalidResource));
    assert_eq!(
        parse_resource("admin@instance.tld"),
        Err(ResolverError::InvalidResource)
    );
}

#[test]
fn test_parse_resource_no_at() {
    assert_eq!(parse_resource("acct:admin"), Err(ResolverError::InvalidResource));
    assert_eq!(parse_resource("acct:"), Err(ResolverError::InvalidResource));
}

#[test]
fn test_validate_resource_domain_check() {
    assert!(validate_resource("acct:admin@instance.tld", "instance.tld").is_ok());
    assert_eq!(
        validate_resource("acct:admin@oops.ie", "instance.tld"),
        Err(ResolverError::WrongDomain)
    );
    assert_eq!(
        validate_resource("nonsense", "instance.tld"),
        Err(ResolverError::InvalidResource)
    );
}
