use streaming_iterator::StreamingIterator;
use tree_stump::{build_error, ErrorKind, LanguageRegistry, Parser};

fn json() -> tree_sitter::Language {
    tree_sitter::Language::new(tree_sitter_json::LANGUAGE)
}

fn registry_with_json() -> LanguageRegistry {
    let mut registry = LanguageRegistry::new();
    registry.register("json".to_string(), json()).unwrap();
    registry
}

#[test]
fn unregistered_name_is_absent_and_rejected() {
    let registry = registry_with_json();
    assert!(registry.lookup(&"missing".to_string()).is_none());
    assert!(!registry.contains(&"missing".to_string()));
    let mut parser = Parser::new();
    let err = parser.set_language(&registry, "missing".to_string()).unwrap_err();
    assert_eq!(err.kind, ErrorKind::NotRegistered);
    assert_eq!(err.message, "Language missing is not registered");
    assert_eq!(parser.language_name(), None);
}

#[test]
fn names_are_compared_exactly() {
    let registry = registry_with_json();
    let mut parser = Parser::new();
    for name in ["JSON", "json ", " json", "jso"] {
        let err = parser.set_language(&registry, name.to_string()).unwrap_err();
        assert_eq!(err.kind, ErrorKind::NotRegistered);
    }
    assert_eq!(parser.language_name(), None);
}

#[test]
fn lookup_returns_registered_handle() {
    let registry = registry_with_json();
    let found = registry.lookup(&"json".to_string()).unwrap();
    assert_eq!(found, json());
    assert!(registry.contains(&"json".to_string()));
}

#[test]
fn registering_a_taken_name_is_refused() {
    let mut registry = registry_with_json();
    let err = registry.register("json".to_string(), json()).unwrap_err();
    assert_eq!(err.kind, ErrorKind::AlreadyRegistered);
    assert_eq!(err.message, "Language json is already registered");
    assert!(registry.contains(&"json".to_string()));
}

#[test]
fn select_then_query_succeeds_for_registered_name() {
    let registry = registry_with_json();
    let mut parser = Parser::new();
    assert_eq!(parser.set_language(&registry, "json".to_string()).unwrap(), true);
    assert_eq!(parser.language_name(), Some("json".to_string()));
    let query = parser.build_query(&registry, "(pair)".to_string()).unwrap();
    assert_eq!(query.language_name(), "json");
    assert_eq!(query.raw().pattern_count(), 1);
}

#[test]
fn select_then_query_fails_for_unregistered_name() {
    let registry = registry_with_json();
    let mut parser = Parser::new();
    assert!(parser.set_language(&registry, "yaml".to_string()).is_err());
    let err = parser.build_query(&registry, "(pair)".to_string()).unwrap_err();
    assert_eq!(err.kind, ErrorKind::NoLanguage);
}

#[test]
fn fresh_parser_refuses_every_query() {
    let registry = registry_with_json();
    let parser = Parser::new();
    for pattern in ["(pair)", "", "((((", "(document) @doc"] {
        let err = parser.build_query(&registry, pattern.to_string()).unwrap_err();
        assert_eq!(err.kind, ErrorKind::NoLanguage);
        assert_eq!(err.message, "No language set on parser");
    }
}

#[test]
fn malformed_pattern_is_an_invalid_query() {
    let registry = registry_with_json();
    let mut parser = Parser::new();
    parser.set_language(&registry, "json".to_string()).unwrap();
    let err = parser.build_query(&registry, "(pair".to_string()).unwrap_err();
    assert_eq!(err.kind, ErrorKind::InvalidQuery);
    assert!(err.message.starts_with("Query error"));
    let err = parser.build_query(&registry, "(no_such_node)".to_string()).unwrap_err();
    assert_eq!(err.kind, ErrorKind::InvalidQuery);
}

#[test]
fn selected_name_missing_from_registry_is_reported() {
    let registry = registry_with_json();
    let empty = LanguageRegistry::new();
    let mut parser = Parser::new();
    parser.set_language(&registry, "json".to_string()).unwrap();
    let err = parser.build_query(&empty, "(pair)".to_string()).unwrap_err();
    assert_eq!(err.kind, ErrorKind::NoLongerRegistered);
    assert_eq!(err.message, "Language json is no longer registered");
}

#[test]
fn parse_without_language_fails() {
    let mut parser = Parser::new();
    let err = parser.parse("{}".to_string()).unwrap_err();
    assert_eq!(err.kind, ErrorKind::ParseFailed);
    assert_eq!(err.message, "Failed to parse");
}

#[test]
fn parse_returns_tree_that_outlives_reset_and_reselection() {
    let mut registry = registry_with_json();
    registry.register("json_again".to_string(), json()).unwrap();
    let mut parser = Parser::new();
    parser.set_language(&registry, "json".to_string()).unwrap();
    let tree = parser.parse("[1, 2, 3]".to_string()).unwrap();
    assert_eq!(tree.language_name(), "json");
    parser.reset();
    parser.set_language(&registry, "json_again".to_string()).unwrap();
    let root = tree.raw().root_node();
    assert_eq!(root.kind(), "document");
    assert!(!root.has_error());
    assert_eq!(root.named_child(0).unwrap().kind(), "array");
    assert_eq!(root.named_child(0).unwrap().named_child_count(), 3);
}

#[test]
fn cloned_tree_shares_the_parse() {
    let registry = registry_with_json();
    let mut parser = Parser::new();
    parser.set_language(&registry, "json".to_string()).unwrap();
    let tree = parser.parse("true".to_string()).unwrap();
    let copy = tree.clone();
    drop(tree);
    assert_eq!(copy.raw().root_node().named_child(0).unwrap().kind(), "true");
}

#[test]
fn reset_twice_is_like_reset_once() {
    let registry = registry_with_json();
    let mut parser = Parser::new();
    parser.set_language(&registry, "json".to_string()).unwrap();
    parser.reset();
    parser.reset();
    assert_eq!(parser.language_name(), Some("json".to_string()));
    let tree = parser.parse("null".to_string()).unwrap();
    assert_eq!(tree.raw().root_node().kind(), "document");
}

#[test]
fn json_scenario() {
    let registry = registry_with_json();
    let mut parser = Parser::new();
    assert_eq!(parser.set_language(&registry, "json".to_string()).unwrap(), true);
    let source = "{\"a\":1}";
    let tree = parser.parse(source.to_string()).unwrap();
    let root = tree.raw().root_node();
    assert_eq!(root.kind(), "document");
    assert_eq!(root.named_child(0).unwrap().kind(), "object");

    let query = parser.build_query(&registry, "(pair)".to_string()).unwrap();
    let mut cursor = tree_sitter::QueryCursor::new();
    let matches = cursor.matches(query.raw(), root, source.as_bytes());
    assert_eq!(matches.count(), 1);

    let err = parser.set_language(&registry, "missing".to_string()).unwrap_err();
    assert_eq!(err.message, "Language missing is not registered");
    assert_eq!(parser.language_name(), Some("json".to_string()));
    let query = parser.build_query(&registry, "(pair) @p".to_string()).unwrap();
    assert_eq!(query.language_name(), "json");
}

#[test]
fn query_matches_one_pair_per_top_level_key() {
    let registry = registry_with_json();
    let mut parser = Parser::new();
    parser.set_language(&registry, "json".to_string()).unwrap();
    let source = "{\"a\":1,\"b\":2,\"c\":3}";
    let tree = parser.parse(source.to_string()).unwrap();
    let query = parser.build_query(&registry, "(document (object (pair) @p))".to_string()).unwrap();
    let mut cursor = tree_sitter::QueryCursor::new();
    let matches = cursor.matches(query.raw(), tree.raw().root_node(), source.as_bytes());
    assert_eq!(matches.count(), 3);
}

#[test]
fn build_error_keeps_kind_and_message() {
    let e = build_error(ErrorKind::RegistryUnavailable, "Failed to acquire language lock".to_string());
    assert_eq!(e.kind, ErrorKind::RegistryUnavailable);
    assert_eq!(e.message, "Failed to acquire language lock");
}

#[test]
fn two_parsers_on_one_grammar_agree() {
    let registry = registry_with_json();
    let mut used = Parser::new();
    used.set_language(&registry, "json".to_string()).unwrap();
    used.parse("[true, false]".to_string()).unwrap();
    let mut fresh = Parser::new();
    fresh.set_language(&registry, "json".to_string()).unwrap();
    for text in ["{\"k\": [1, 2]}", "", "not json at all"] {
        let a = used.parse(text.to_string()).unwrap();
        let b = fresh.parse(text.to_string()).unwrap();
        assert_eq!(a.raw().root_node().to_sexp(), b.raw().root_node().to_sexp());
    }
}

#[test]
fn failed_reselection_keeps_parsing_with_previous_grammar() {
    let registry = registry_with_json();
    let mut parser = Parser::new();
    parser.set_language(&registry, "json".to_string()).unwrap();
    assert!(parser.set_language(&registry, "missing".to_string()).is_err());
    let tree = parser.parse("{\"a\":1}".to_string()).unwrap();
    assert_eq!(tree.language_name(), "json");
    assert_eq!(tree.raw().root_node().named_child(0).unwrap().kind(), "object");
}
