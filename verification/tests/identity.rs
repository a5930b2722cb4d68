use interconnect_core::Identity;
use interconnect_core::IdentityParseError;

#[test]
fn parse_local() {
    let id: Identity = "local:alice".parse().unwrap();
    assert_eq!(id.scheme(), "local");
    assert_eq!(id.payload(), "alice");
    assert!(id.is_local());
}

#[test]
fn parse_url() {
    let id: Identity = "url:alice@example.com".parse().unwrap();
    assert_eq!(id.scheme(), "url");
    assert_eq!(id.payload(), "alice@example.com");
    assert!(!id.is_local());
}

#[test]
fn roundtrip() {
    let id = Identity::local("bob");
    let s = id.to_string();
    let id2: Identity = s.parse().unwrap();
    assert_eq!(id, id2);
}

#[test]
fn format_is_scheme_colon_payload() {
    assert_eq!(Identity::local("bob").to_string(), "local:bob");
    assert_eq!(Identity::url("alice@example.com").to_string(), "url:alice@example.com");
    assert_eq!(Identity::new("ed25519", "abcd").to_string(), "ed25519:abcd");
}

#[test]
fn payload_may_hold_colons() {
    let id = Identity::parse("url:alice@example.com:8080").unwrap();
    assert_eq!(id.scheme(), "url");
    assert_eq!(id.payload(), "alice@example.com:8080");
    assert_eq!(id.to_string(), "url:alice@example.com:8080");
}

#[test]
fn payload_may_be_empty() {
    let id = Identity::parse("local:").unwrap();
    assert_eq!(id.scheme(), "local");
    assert_eq!(id.payload(), "");
}

#[test]
fn unknown_scheme_parses() {
    let id = Identity::parse("matrix:@alice:example.org").unwrap();
    assert_eq!(id.scheme(), "matrix");
    assert_eq!(id.payload(), "@alice:example.org");
    assert!(!id.is_local());
}

#[test]
fn no_normalization() {
    let id = Identity::parse(" Local : Alice ").unwrap();
    assert_eq!(id.scheme(), " Local ");
    assert_eq!(id.payload(), " Alice ");
    assert!(!id.is_local());
}

#[test]
fn non_ascii_text_is_split_by_characters() {
    let id = Identity::parse("ключ:zoë:ß").unwrap();
    assert_eq!(id.scheme(), "ключ");
    assert_eq!(id.payload(), "zoë:ß");
    assert_eq!(id.to_string(), "ключ:zoë:ß");
    let again = Identity::parse(&id.to_string()).unwrap();
    assert_eq!(id, again);
}

#[test]
fn parse_empty_is_missing_colon() {
    match Identity::parse("") {
        Err(IdentityParseError::MissingColon(got)) => assert_eq!(got, ""),
        other => panic!("unexpected: {:?}", other),
    }
}

#[test]
fn parse_without_separator_is_missing_colon() {
    match Identity::parse("noseparator") {
        Err(IdentityParseError::MissingColon(got)) => assert_eq!(got, "noseparator"),
        other => panic!("unexpected: {:?}", other),
    }
}

#[test]
fn parse_empty_scheme_is_refused() {
    assert!(matches!(Identity::parse(":payload"), Err(IdentityParseError::EmptyScheme)));
    assert!(matches!(Identity::parse(":"), Err(IdentityParseError::EmptyScheme)));
    assert!(matches!(Identity::parse("::"), Err(IdentityParseError::EmptyScheme)));
}

#[test]
fn error_messages() {
    let missing = Identity::parse("noseparator").unwrap_err();
    assert_eq!(
        missing.to_string(),
        "identity must contain ':' separator, got: noseparator"
    );
    let empty = Identity::parse(":payload").unwrap_err();
    assert_eq!(empty.to_string(), "identity scheme cannot be empty");
}

#[test]
fn is_local_by_scheme() {
    assert!(Identity::parse("local:alice").unwrap().is_local());
    assert!(!Identity::parse("url:alice@x").unwrap().is_local());
    assert!(!Identity::parse("ed25519:abcd").unwrap().is_local());
    assert!(!Identity::parse("loca:l").unwrap().is_local());
    assert!(!Identity::parse("locals:x").unwrap().is_local());
    assert!(!Identity::parse("LOCAL:x").unwrap().is_local());
}

#[test]
fn constructors_set_scheme_and_payload() {
    let a = Identity::new("ed25519", "abcd");
    assert_eq!(a.scheme(), "ed25519");
    assert_eq!(a.payload(), "abcd");
    let b = Identity::local("alice");
    assert_eq!(b.scheme(), "local");
    assert_eq!(b.payload(), "alice");
    let c = Identity::url("alice@example.com");
    assert_eq!(c.scheme(), "url");
    assert_eq!(c.payload(), "alice@example.com");
}

#[test]
fn equality_is_structural() {
    assert_eq!(Identity::local("a"), Identity::new("local", "a"));
    assert_ne!(Identity::local("a"), Identity::local("b"));
    assert_ne!(Identity::local("a"), Identity::url("a"));
    let id = Identity::url("a@b");
    assert_eq!(id.clone(), id);
}

#[test]
fn conversions_through_std_traits() {
    let id = Identity::try_from(String::from("url:a@b")).unwrap();
    assert_eq!(id, Identity::url("a@b"));
    assert!(Identity::try_from(String::from("nothing")).is_err());
    let text: String = id.into();
    assert_eq!(text, "url:a@b");
}
