use lore::ast::Name;
use lore::codegen::source_set::{Source, SourceSet};
use lore::lexer::Token;
use lore::parser::SyntaxError;
use lore::parsetree::StructureItem;
use lore::prefixes::PrefixMap;
use lore::store::Store;
use lore::target::{emit, TargetLang};
use lore::uri::URI;
use lore::validator::{SemanticError, Validator};

fn uri(text: &str) -> URI {
    URI::from_string(text.to_string())
}

#[test]
fn syntax_error_messages() {
    assert_eq!(
        SyntaxError::ExpectedURI(Some(Token::Kind)).to_string(),
        "Expected a URI."
    );
    assert_eq!(
        SyntaxError::UseExpectsURI.to_string(),
        "The `use` syntax expects a URI."
    );
    assert_eq!(
        SyntaxError::PrefixIsMissingTheAsKeyword.to_string(),
        "The `prefix` syntax should follow the format:\n\tprefix <uri> as @<name>.\n\nDid you forget the 'as'?"
    );
    assert_eq!(
        SyntaxError::PrefixIsMissingTheAliasedName.to_string(),
        "The `prefix` syntax should follow the format:\n\tprefix <uri> as @<name>.\n\nDid you forget to specify a name?"
    );
    assert_eq!(
        SyntaxError::PrefixShouldBeginWithAnAt.to_string(),
        "The `prefix` syntax should follow the format:\n\tprefix <uri> as @<name>.\n\nDid you forget the @ before the prefix name?"
    );
    assert_eq!(SyntaxError::UseExpectsTextPrefix.to_string(), "");
    assert_eq!(
        SyntaxError::KindIsMissingAName.to_string(),
        "The `kind <name>` syntax is missing a name."
    );
    assert_eq!(
        SyntaxError::AttributeIsMissingAName.to_string(),
        "The `attr <name>` syntax is missing a name."
    );
    assert_eq!(
        SyntaxError::NameIsInvalid(None).to_string(),
        "We expected to find a Name (an Alias or a URI) but found something else instead."
    );
    assert_eq!(
        SyntaxError::NameIsMissing.to_string(),
        "We expected to find a Name, did you forget it?"
    );
    let rel = "The `rel` syntax should follow the format:\n\trel <subject> <predicate> <object>.\nAll 3 must be URIs or aliased names.";
    assert_eq!(SyntaxError::RelationExpectedSubjectToBeName.to_string(), rel);
    assert_eq!(
        SyntaxError::RelationExpectedPredicateToBeName.to_string(),
        rel
    );
    assert_eq!(SyntaxError::RelationExpectedObjectToBeName.to_string(), rel);
    assert_eq!(
        SyntaxError::ExpectedTopLevelItem.to_string(),
        "We expected to find an Alias, a Kind, an Attribute, or a Relation."
    );
    assert_eq!(
        SyntaxError::IncompleteFieldBlock.to_string(),
        "Did you forget to close this block with a `}` ? "
    );
    assert_eq!(
        SyntaxError::FieldExpectedURI.to_string(),
        "Every field must have a URI on the left side."
    );
    assert_eq!(
        SyntaxError::FieldExpectedLiteral(None).to_string(),
        "Every field must have a URI, a String, or a Number on the right side."
    );
    assert_eq!(
        SyntaxError::InvalidLiteral(Some(Token::Colon)).to_string(),
        "This literal is wrong I guess"
    );
    assert_eq!(
        SyntaxError::ExpectedAComment.to_string(),
        "Expeceted a comment"
    );
}

#[test]
fn semantic_error_message() {
    let error = SemanticError::UnresolvedNames(vec![
        Name::unresolved_alias("Band"),
        Name::of_uri(&uri("@x/y")),
    ]);
    assert_eq!(
        error.to_string(),
        "The follow names cannot be resolved: \n* Band\n* @x/y\nDid you forget to add a `prefix` alias or a `using` namespace?"
    );
}

#[test]
fn target_names() {
    let targets = [
        (TargetLang::OCaml, "ocaml"),
        (TargetLang::GraphQL, "graphql"),
        (TargetLang::Erlang, "erlang"),
        (TargetLang::Elixir, "elixir"),
    ];
    for (target, name) in targets {
        assert_eq!(target.to_string(), name);
        assert_eq!(TargetLang::from_str(name), Ok(target));
    }
    assert_eq!(
        TargetLang::from_str("rescript"),
        Err(
            "Could not find target: rescript. Try one of: ocaml | elixir | erlang | graphql | rescript"
                .to_string()
        )
    );
    assert_eq!(
        TargetLang::from_str(""),
        Err(
            "Could not find target: . Try one of: ocaml | elixir | erlang | graphql | rescript"
                .to_string()
        )
    );
}

#[test]
fn sources_are_written_for_ocaml_only() {
    let mut store = Store::new();
    store.add_from_string("kind a:Hero").unwrap();
    assert_eq!(
        emit(TargetLang::OCaml, &store).unwrap(),
        SourceSet::from_sources(vec![Source::new(
            "A_hero.mli".to_string(),
            "type t\n".to_string()
        )])
    );
    assert_eq!(emit(TargetLang::Elixir, &store).unwrap(), SourceSet::empty());
    assert_eq!(emit(TargetLang::Erlang, &store).unwrap(), SourceSet::empty());
    assert_eq!(emit(TargetLang::GraphQL, &store).unwrap(), SourceSet::empty());
}

#[test]
fn prefix_map_expands_the_longest_alias() {
    let mut map = PrefixMap::new();
    assert_eq!(map.expand(&uri("@a/b")), None);
    map.insert("@a".to_string(), uri("x:y"));
    map.insert("@a/b".to_string(), uri("z:w"));
    map.insert("@c".to_string(), uri("old"));
    map.insert("@c".to_string(), uri("new"));
    assert_eq!(map.expand(&uri("@a/b/c")), Some(uri("z:w/c")));
    assert_eq!(map.expand(&uri("@a/c")), Some(uri("x:y/c")));
    assert_eq!(map.expand(&uri("@a")), Some(uri("x:y")));
    assert_eq!(map.expand(&uri("@c/d")), Some(uri("new/d")));
    assert_eq!(map.expand(&uri("@b")), None);
    assert_eq!(map.expand(&uri("a:@a")), None);
    assert_eq!(map.clone().expand(&uri("@a/b")), Some(uri("z:w")));
}

#[test]
fn directives_are_collected_from_the_whole_file() {
    let items = vec![
        StructureItem::Namespace { uri: uri("a:b") },
        StructureItem::Alias {
            uri: uri("x:y"),
            prefix: uri("@p"),
        },
        StructureItem::Comment("# c".to_string()),
        StructureItem::Namespace { uri: uri("c:d") },
    ];
    let ctx = Validator::collect(&items);
    assert_eq!(ctx.namespace, Some(uri("c:d")));
    assert_eq!(ctx.prefixes.expand(&uri("@p/q")), Some(uri("x:y/q")));
    let tree = Validator::lower(&items);
    assert!(tree.kinds.is_empty());
    assert!(tree.attributes.is_empty());
    assert!(tree.relations.is_empty());
}
