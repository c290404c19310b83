use webfinger::{str_eq, Prefix};

#[test]
fn test_prefix_from_known_prefixes() {
    assert_eq!(Prefix::from("acct"), Prefix::Acct);
    assert_eq!(Prefix::from("ACCT"), Prefix::Acct);
    assert_eq!(Prefix::from("AcCt"), Prefix::Acct);
    assert_eq!(Prefix::from("group"), Prefix::Group);
    assert_eq!(Prefix::from("Group"), Prefix::Group);
}

#[test]
fn test_prefix_from_custom_lowercases() {
    assert_eq!(Prefix::from("hey"), Prefix::Custom("hey".to_string()));
    assert_eq!(Prefix::from("HeY"), Prefix::Custom("hey".to_string()));
    assert_eq!(Prefix::from(""), Prefix::Custom(String::new()));
}

#[test]
fn test_prefix_text() {
    assert_eq!(Prefix::Acct.text(), "acct".to_string());
    assert_eq!(Prefix::Group.text(), "group".to_string());
    assert_eq!(
        Prefix::Custom("hey".to_string()).text(),
        "hey".to_string()
    );
}

#[test]
fn test_prefix_round_trip() {
    // Parsing the canonical text of a prefix yields that prefix again.
    for p in [
        Prefix::Acct,
        Prefix::Group,
        Prefix::Custom("hey".to_string()),
    ] {
        assert_eq!(Prefix::from(&p.text()), p);
    }
    // A custom prefix in mixed case comes back lower-cased.
    let mixed = Prefix::Custom("HeY".to_string());
    assert_eq!(
        Prefix::from(&mixed.text()),
        Prefix::Custom("hey".to_string())
    );
}

#[test]
fn test_prefix_from_lowercases_per_unicode() {
    // The folding is str::to_lowercase's, so it reaches beyond ASCII.
    assert_eq!(
        Prefix::from("\u{c9}"),
        Prefix::Custom("\u{e9}".to_string())
    );
    assert_eq!(Prefix::from("AcCt\u{301}"), Prefix::Custom("acct\u{301}".to_string()));
}

#[test]
fn test_str_eq() {
    assert!(str_eq("", ""));
    assert!(str_eq("abc", "abc"));
    assert!(!str_eq("abc", "abd"));
    assert!(!str_eq("abc", "ab"));
}
