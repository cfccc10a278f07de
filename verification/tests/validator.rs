use lore::ast;
use lore::parser::Parser;
use lore::prefixes::PrefixMap;
use lore::uri::URI;
use lore::validator::{format_names, SemanticError, ValidationError, Validator};

fn uri(text: &str) -> URI {
    URI::from_string(text.to_string())
}

fn resolved(alias: Option<&str>, text: &str) -> ast::Name {
    ast::Name {
        alias: alias.map(|a| a.to_string()),
        uri: uri(text),
    }
}

fn validate(name: &str, source: &str) -> Result<ast::Structure, ValidationError> {
    let mut parser = Parser::for_string(name, source).unwrap();
    let validator = Validator::new();
    let parsetree = parser.parse().unwrap();
    validator.validate(parsetree)
}

fn unresolved(name: &str, names: Vec<ast::Name>) -> ValidationError {
    ValidationError {
        filename: name.to_string(),
        error: SemanticError::UnresolvedNames(names),
    }
}

#[test]
fn validate_aliasing() {
    assert_eq!(
        validate(
            "f",
            " prefix spotify:artist:2Hkut4rAAyrQxRdof7FVJq as @Rush "
        ),
        Ok(ast::Structure {
            kinds: vec![],
            attributes: vec![],
            relations: vec![],
        })
    );
}

#[test]
fn validate_missing_alias_on_kind() {
    assert_eq!(
        validate("f", "kind Band"),
        Err(unresolved("f", vec![ast::Name::unresolved_alias("Band")]))
    );
}

#[test]
fn validate_missing_alias_on_attr() {
    assert_eq!(
        validate("f", "attr Role"),
        Err(unresolved("f", vec![ast::Name::unresolved_alias("Role")]))
    );
}

#[test]
fn validate_missing_alias_on_rel() {
    let source = r#"
        prefix spotify:kind:artist as @Artist
        prefix spotify:kind:song as @Song
        prefix spotify:rel:hasOne as @hasOne
        prefix spotify:rel:hasMany as @hasMany

        rel @Artist @hasOne @Name
        rel @Artist @isAuthorOf @Song
        rel @Band @hasMany @Song
        "#;
    assert_eq!(
        validate("f", source),
        Err(unresolved(
            "f",
            vec![
                ast::Name::of_uri(&uri("@Name")),
                ast::Name::of_uri(&uri("@isAuthorOf")),
                ast::Name::of_uri(&uri("@Band")),
            ]
        ))
    );
}

#[test]
fn normalize_aliases_on_attr() {
    let source = r#"
        prefix spotify:attr as @spotifyAttributes
        attr @spotifyAttributes/name
        "#;
    assert_eq!(
        validate("f", source),
        Ok(ast::Structure {
            kinds: vec![],
            attributes: vec![ast::Attribute {
                name: resolved(None, "spotify:attr/name"),
                fields: vec![],
            }],
            relations: vec![],
        })
    );
}

#[test]
fn normalize_aliases_on_kind() {
    let source = r#"
        prefix spotify:kind:artist as @Artist
        kind @Artist
        "#;
    assert_eq!(
        validate("f", source),
        Ok(ast::Structure {
            kinds: vec![ast::Kind {
                name: resolved(None, "spotify:kind:artist"),
                fields: vec![],
            }],
            attributes: vec![],
            relations: vec![],
        })
    );
}

#[test]
fn normalize_aliases_on_rels() {
    let source = r#"
        prefix spotify:kind:artist as @Artist
        prefix spotify:attr:Name as @Name
        prefix spotify:rel:hasOne as @hasOne
        rel @Artist @hasOne @Name
        "#;
    assert_eq!(
        validate("f", source),
        Ok(ast::Structure {
            kinds: vec![],
            attributes: vec![],
            relations: vec![ast::Relation {
                subject: resolved(None, "spotify:kind:artist"),
                predicate: resolved(None, "spotify:rel:hasOne"),
                object: resolved(None, "spotify:attr:Name"),
                fields: vec![],
            }],
        })
    );
}

#[test]
fn normalize_aliases_on_meta_attrs() {
    let source = r#"
        using hello:world
        attr name {
            wat :yes
        }
        "#;
    assert_eq!(
        validate("f", source),
        Ok(ast::Structure {
            kinds: vec![],
            attributes: vec![ast::Attribute {
                name: resolved(Some("name"), "hello:world/name"),
                fields: vec![ast::Field {
                    name: resolved(Some("wat"), "hello:world/wat"),
                    value: ast::Literal::Name(resolved(None, ":yes")),
                }],
            }],
            relations: vec![],
        })
    );
}

#[test]
fn end_to_end() {
    let source = "using dota:ontology:2022\nkind Hero\nattr Name\nrel Hero hasOne Name\n";
    let tree = validate("f", source).unwrap();
    assert_eq!(tree.kinds.len(), 1);
    assert_eq!(tree.kinds[0].name.uri, uri("dota:ontology:2022/Hero"));
    assert_eq!(tree.attributes.len(), 1);
    assert_eq!(tree.attributes[0].name.uri, uri("dota:ontology:2022/Name"));
    assert_eq!(tree.relations.len(), 1);
    assert_eq!(tree.relations[0].subject.uri, uri("dota:ontology:2022/Hero"));
    assert_eq!(
        tree.relations[0].predicate.uri,
        uri("dota:ontology:2022/hasOne")
    );
    assert_eq!(tree.relations[0].object.uri, uri("dota:ontology:2022/Name"));
    assert_eq!(
        tree,
        ast::Structure {
            kinds: vec![ast::Kind {
                name: resolved(Some("Hero"), "dota:ontology:2022/Hero"),
                fields: vec![],
            }],
            attributes: vec![ast::Attribute {
                name: resolved(Some("Name"), "dota:ontology:2022/Name"),
                fields: vec![],
            }],
            relations: vec![ast::Relation {
                subject: resolved(Some("Hero"), "dota:ontology:2022/Hero"),
                predicate: resolved(Some("hasOne"), "dota:ontology:2022/hasOne"),
                object: resolved(Some("Name"), "dota:ontology:2022/Name"),
                fields: vec![],
            }],
        }
    );
}

#[test]
fn kind_without_using_fails_with_its_alias() {
    let error = validate("bands.lore", "kind Band").unwrap_err();
    assert_eq!(error.filename, "bands.lore");
    match error.error {
        SemanticError::UnresolvedNames(names) => {
            assert_eq!(names.len(), 1);
            assert_eq!(names[0].alias, Some("Band".to_string()));
            assert_eq!(names[0].uri, URI::unresolved());
        }
    }
}

#[test]
fn using_resolves_aliases_wherever_it_stands() {
    let before = validate("f", "using a:b\nkind Hero\nattr Name").unwrap();
    let between = validate("f", "kind Hero\nusing a:b\nattr Name").unwrap();
    let after = validate("f", "kind Hero\nattr Name\nusing a:b").unwrap();
    assert_eq!(before, between);
    assert_eq!(before, after);
    assert_eq!(before.kinds[0].name.uri, uri("a:b").join("Hero"));
    assert_eq!(before.attributes[0].name.uri, uri("a:b/Name"));
}

#[test]
fn last_using_wins() {
    let tree = validate("f", "using a:b\nkind Hero\nusing c:d").unwrap();
    assert_eq!(tree.kinds[0].name.uri, uri("c:d/Hero"));
}

#[test]
fn last_prefix_wins() {
    let tree = validate("f", "prefix a:b as @x\nkind @x/Hero\nprefix c:d as @x").unwrap();
    assert_eq!(tree.kinds[0].name.uri, uri("c:d/Hero"));
}

#[test]
fn longest_prefix_wins() {
    let source = "prefix a:b as @x\nprefix c:d as @x/y\nkind @x/y/Hero\nkind @x/Hero";
    let tree = validate("f", source).unwrap();
    assert_eq!(tree.kinds[0].name.uri, uri("c:d/Hero"));
    assert_eq!(tree.kinds[1].name.uri, uri("a:b/Hero"));
    let source = "prefix c:d as @x/y\nprefix a:b as @x\nkind @x/y/Hero\nkind @x/Hero";
    let tree = validate("f", source).unwrap();
    assert_eq!(tree.kinds[0].name.uri, uri("c:d/Hero"));
    assert_eq!(tree.kinds[1].name.uri, uri("a:b/Hero"));
}

#[test]
fn prefix_is_substituted_once() {
    let tree = validate("f", "prefix p:q as @X\nkind @X/suffix\nkind @X/@X").unwrap();
    assert_eq!(tree.kinds[0].name.uri, uri("p:q/suffix"));
    assert_eq!(tree.kinds[1].name.uri, uri("p:q/@X"));
}

#[test]
fn unresolved_alias_is_reported_once_for_each_place() {
    let source = "kind A\nattr A\nrel A b A { A A }";
    let error = validate("f", source).unwrap_err();
    let a = ast::Name::unresolved_alias("A");
    let b = ast::Name::unresolved_alias("b");
    assert_eq!(
        error,
        unresolved(
            "f",
            vec![
                a.clone(),
                a.clone(),
                a.clone(),
                b,
                a.clone(),
                a.clone(),
                a.clone(),
            ]
        )
    );
}

#[test]
fn unresolved_names_come_attributes_first() {
    let source = "rel @r a:b c:d\nkind K { @f 1 }\nattr @a { x:y @v }";
    let error = validate("f", source).unwrap_err();
    assert_eq!(
        error,
        unresolved(
            "f",
            vec![
                ast::Name::of_uri(&uri("@a")),
                ast::Name::of_uri(&uri("@v")),
                ast::Name::unresolved_alias("K"),
                ast::Name::of_uri(&uri("@f")),
                ast::Name::of_uri(&uri("@r")),
            ]
        )
    );
}

#[test]
fn absolute_names_pass_through() {
    let tree = validate("f", "kind a:b\nrel a:b c:d e:f { g:h i:j }").unwrap();
    assert_eq!(tree.kinds[0].name, resolved(None, "a:b"));
    assert_eq!(
        tree.relations[0],
        ast::Relation {
            subject: resolved(None, "a:b"),
            predicate: resolved(None, "c:d"),
            object: resolved(None, "e:f"),
            fields: vec![ast::Field {
                name: resolved(None, "g:h"),
                value: ast::Literal::Name(resolved(None, "i:j")),
            }],
        }
    );
}

#[test]
fn second_pass_changes_nothing() {
    let source = "using a:b\nprefix c:d as @p\nkind Hero { @p/doc Name }\nrel Hero @p/has Name";
    let first = validate("f", source).unwrap();
    let ctx = Validator::collect(&vec![]);
    assert_eq!(Validator::resolve(&ctx, &first), Ok(first.clone()));
    let mut parser = Parser::for_string("f", source).unwrap();
    let same = Validator::collect(parser.parse().unwrap().items());
    assert_eq!(Validator::resolve(&same, &first), Ok(first.clone()));
}

#[test]
fn normalize_prefixed_uri_joins_or_expands() {
    let mut aliases = PrefixMap::new();
    aliases.insert("@p".to_string(), uri("c:d"));
    let namespace = Some(uri("a:b"));
    let mut missing = vec![];

    let bare = ast::Name::unresolved_alias("Hero");
    assert_eq!(
        Validator::normalize_prefixed_uri(&bare, &aliases, &namespace, &mut missing),
        Some(uri("a:b/Hero"))
    );
    let prefixed = ast::Name::of_uri(&uri("@p/x"));
    assert_eq!(
        Validator::normalize_prefixed_uri(&prefixed, &aliases, &namespace, &mut missing),
        Some(uri("c:d/x"))
    );
    assert!(missing.is_empty());

    assert_eq!(
        Validator::normalize_prefixed_uri(&bare, &aliases, &None, &mut missing),
        None
    );
    let unknown = ast::Name::of_uri(&uri("@q/x"));
    assert_eq!(
        Validator::normalize_prefixed_uri(&unknown, &aliases, &namespace, &mut missing),
        None
    );
    assert_eq!(missing, vec![bare, unknown]);
}

#[test]
fn format_names_gives_one_line_for_each_name() {
    assert_eq!(format_names(vec![]), "");
    assert_eq!(
        format_names(vec![ast::Name::unresolved_alias("Band")]),
        "* Band"
    );
    assert_eq!(
        format_names(vec![
            ast::Name::unresolved_alias("Band"),
            ast::Name::of_uri(&uri("@x/y")),
        ]),
        "* Band\n* @x/y"
    );
}

#[test]
fn expansion_that_starts_with_the_marker_stays_prefixed() {
    let source = "prefix @b as @a\nkind @a/x";
    let first = validate("f", source).unwrap();
    assert_eq!(first.kinds[0].name, resolved(None, "@b/x"));
    assert!(first.kinds[0].name.is_unresolved());
    let mut parser = Parser::for_string("f", source).unwrap();
    let ctx = Validator::collect(parser.parse().unwrap().items());
    assert_eq!(
        Validator::resolve(&ctx, &first),
        Err(vec![ast::Name::of_uri(&uri("@b/x"))])
    );
}

#[test]
fn longer_alias_is_substituted_where_two_match() {
    let source = "prefix a:b as @X\nprefix c:d as @X/s\nkind @X/suffix";
    let tree = validate("f", source).unwrap();
    assert_eq!(tree.kinds[0].name.uri, uri("c:duffix"));
}
