use lore::ast::{Literal, Name};
use lore::parsetree;
use lore::uri::URI;

fn uri(text: &str) -> URI {
    URI::from_string(text.to_string())
}

#[test]
fn uri_unresolved_is_the_reserved_uri() {
    assert_eq!(URI::unresolved().to_string(), "lore:uri:unresolved");
}

#[test]
fn uri_from_string_keeps_the_text() {
    assert_eq!(uri("a:b/c").to_string(), "a:b/c");
    assert_eq!(uri("").to_string(), "");
}

#[test]
fn uri_join_appends_a_segment() {
    assert_eq!(uri("a:b").join("c"), uri("a:b/c"));
    assert_eq!(uri("a:b/").join(""), uri("a:b//"));
    assert_eq!(uri("dota:ontology:2022").join("Hero").to_string(), "dota:ontology:2022/Hero");
}

#[test]
fn uri_is_prefixed_looks_at_the_first_character() {
    assert!(uri("@a/b").is_prefixed());
    assert!(uri("@").is_prefixed());
    assert!(!uri("a@b").is_prefixed());
    assert!(!uri("").is_prefixed());
    assert!(!uri("é@").is_prefixed());
}

#[test]
fn uri_has_prefix_matches_text() {
    assert!(uri("@a/b").has_prefix("@a"));
    assert!(uri("@a/b").has_prefix(""));
    assert!(uri("@a/b").has_prefix("@a/b"));
    assert!(!uri("@a/b").has_prefix("@a/b/c"));
    assert!(!uri("@a/b").has_prefix("a"));
}

#[test]
fn uri_expand_prefix_replaces_the_start_only() {
    assert_eq!(uri("@a/b").expand_prefix("@a", &uri("x:y")), uri("x:y/b"));
    assert_eq!(uri("@a/@a").expand_prefix("@a", &uri("x:y")), uri("x:y/@a"));
    assert_eq!(uri("b/@a").expand_prefix("@a", &uri("x:y")), uri("b/@a"));
    assert_eq!(uri("@a").expand_prefix("@a", &uri("x:y")), uri("x:y"));
    assert_eq!(uri("@a").expand_prefix("", &uri("x:y")), uri("x:y@a"));
}

#[test]
fn name_of_uri_has_no_alias() {
    let name = Name::of_uri(&uri("a:b"));
    assert_eq!(name.alias, None);
    assert_eq!(name.uri, uri("a:b"));
    assert_eq!(name.to_uri(), uri("a:b"));
    assert_eq!(name.to_string(), "a:b");
}

#[test]
fn name_unresolved_alias_is_pending() {
    let name = Name::unresolved_alias("Hero");
    assert_eq!(name.alias, Some("Hero".to_string()));
    assert_eq!(name.uri, URI::unresolved());
    assert!(name.is_unresolved());
}

#[test]
fn name_is_unresolved_in_two_of_three_states() {
    assert!(Name::unresolved_alias("Hero").is_unresolved());
    assert!(Name::of_uri(&uri("@a/b")).is_unresolved());
    assert!(Name::of_uri(&URI::unresolved()).is_unresolved());
    assert!(!Name::of_uri(&uri("a:b")).is_unresolved());
    assert!(!Name::of_uri(&uri(":b")).is_unresolved());
}

#[test]
fn name_set_uri_keeps_the_alias() {
    let mut name = Name::unresolved_alias("Hero");
    name.set_uri(&uri("a:b/Hero"));
    assert_eq!(name.alias, Some("Hero".to_string()));
    assert_eq!(name.uri, uri("a:b/Hero"));
    assert!(!name.is_unresolved());
}

#[test]
fn literal_to_string() {
    assert_eq!(Literal::Number(0).to_string(), "0");
    assert_eq!(Literal::Number(1234).to_string(), "1234");
    assert_eq!(
        Literal::Number(u64::MAX).to_string(),
        "18446744073709551615"
    );
    assert_eq!(Literal::String("a b".to_string()).to_string(), "a b");
    assert_eq!(Literal::Name(Name::of_uri(&uri("a:b"))).to_string(), "a:b");
}

#[test]
fn parsed_names_lower_to_names() {
    assert_eq!(
        parsetree::Name::URI(uri("a:b")).lower(),
        Name::of_uri(&uri("a:b"))
    );
    assert_eq!(
        parsetree::Name::Alias("Hero".to_string()).lower(),
        Name::unresolved_alias("Hero")
    );
}
