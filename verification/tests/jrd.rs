use webfinger::{Link, Webfinger};

fn profile_link() -> Link {
    Link {
        rel: "http://webfinger.net/rel/profile-page".to_string(),
        href: Some("https://example.org/@test/".to_string()),
        template: None,
        mime_type: None,
    }
}

#[test]
fn test_to_jrd_omits_absent_link_fields() {
    // A link carrying only `rel` and `href` is emitted without `template`
    // and `type` keys, not with nulls.
    let wf = Webfinger {
        subject: "acct:test@example.org".to_string(),
        aliases: vec!["https://example.org/@test/".to_string()],
        links: vec![profile_link()],
    };
    assert_eq!(
        wf.to_jrd(),
        "{\"subject\":\"acct:test@example.org\",\
\"aliases\":[\"https://example.org/@test/\"],\
\"links\":[{\"rel\":\"http://webfinger.net/rel/profile-page\",\
\"href\":\"https://example.org/@test/\"}]}"
            .to_string()
    );
}

#[test]
fn test_to_jrd_all_link_fields() {
    let wf = Webfinger {
        subject: "acct:test@example.org".to_string(),
        aliases: Vec::new(),
        links: vec![Link {
            rel: "self".to_string(),
            href: Some("https://example.org/@test/".to_string()),
            template: Some("https://example.org/{uri}".to_string()),
            mime_type: Some("application/activity+json".to_string()),
        }],
    };
    assert_eq!(
        wf.to_jrd(),
        "{\"subject\":\"acct:test@example.org\",\"aliases\":[],\
\"links\":[{\"rel\":\"self\",\
\"href\":\"https://example.org/@test/\",\
\"template\":\"https://example.org/{uri}\",\
\"type\":\"application/activity+json\"}]}"
            .to_string()
    );
}

#[test]
fn test_to_jrd_joins_with_commas() {
    let wf = Webfinger {
        subject: "acct:test@example.org".to_string(),
        aliases: vec!["one".to_string(), "two".to_string()],
        links: vec![profile_link(), profile_link()],
    };
    let jrd = wf.to_jrd();
    assert!(jrd.contains("\"aliases\":[\"one\",\"two\"]"));
    assert!(jrd.contains("},{"));
}

#[test]
fn test_to_jrd_escapes_strings() {
    let wf = Webfinger {
        subject: "a\"b\\c\nd".to_string(),
        aliases: Vec::new(),
        links: Vec::new(),
    };
    assert_eq!(
        wf.to_jrd(),
        "{\"subject\":\"a\\\"b\\\\c\\u000ad\",\"aliases\":[],\"links\":[]}".to_string()
    );
}
