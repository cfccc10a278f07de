use lore::lexer::Token;
use lore::parser::{parse, ParseError, Parser, Span, SyntaxError};
use lore::parsetree::{Field, Literal, Name, Structure, StructureItem};
use lore::uri::URI;

fn uri(text: &str) -> URI {
    URI::from_string(text.to_string())
}

fn uri_name(text: &str) -> Name {
    Name::URI(uri(text))
}

fn alias(text: &str) -> Name {
    Name::Alias(text.to_string())
}

fn tree(name: &str, items: Vec<StructureItem>) -> Structure {
    Structure::new(items, name.to_string())
}

fn parse_str(name: &str, source: &str) -> Result<Structure, ParseError> {
    let mut parser = Parser::for_string(name, source).unwrap();
    parser.parse()
}

fn failure(name: &str, source: &str, offset: usize, length: usize, error: SyntaxError) -> ParseError {
    ParseError {
        filename: name.to_string(),
        source: source.to_string(),
        span: Span { offset, length },
        error,
    }
}

#[test]
fn parse_comment() {
    let source = " #prefix spotify:artist:2Hkut4rAAyrQxRdof7FVJq as Rush ";
    assert_eq!(
        parse_str("parse_comment", source),
        Ok(tree(
            "parse_comment",
            vec![StructureItem::Comment(
                "#prefix spotify:artist:2Hkut4rAAyrQxRdof7FVJq as Rush ".to_string()
            )]
        ))
    );
}

#[test]
fn parse_comment_keeps_its_line_feed() {
    assert_eq!(
        parse_str("f", "# one\n# two"),
        Ok(tree(
            "f",
            vec![
                StructureItem::Comment("# one\n".to_string()),
                StructureItem::Comment("# two".to_string()),
            ]
        ))
    );
}

#[test]
fn parse_alias() {
    let source = " prefix spotify:artist:2Hkut4rAAyrQxRdof7FVJq as @Rush ";
    assert_eq!(
        parse_str("parse_alias", source),
        Ok(tree(
            "parse_alias",
            vec![StructureItem::Alias {
                uri: uri("spotify:artist:2Hkut4rAAyrQxRdof7FVJq"),
                prefix: uri("@Rush"),
            }]
        ))
    );
}

#[test]
fn parse_alias_with_something_that_isnt_a_uri() {
    let source = " prefix 2Hkut4rAAyrQxRdof7FVJq as @Rush ";
    assert_eq!(
        parse_str("f", source),
        Err(failure("f", source, 8, 1, SyntaxError::UseExpectsURI))
    );
}

#[test]
fn parse_alias_with_a_missing_uri() {
    let source = " prefix as @Rush ";
    assert_eq!(
        parse_str("f", source),
        Err(failure("f", source, 8, 2, SyntaxError::UseExpectsURI))
    );
}

#[test]
fn parse_alias_with_uri_but_missing_keyword_as() {
    let source = " prefix spotify:hello @Rush ";
    assert_eq!(
        parse_str("f", source),
        Err(failure(
            "f",
            source,
            22,
            5,
            SyntaxError::PrefixIsMissingTheAsKeyword
        ))
    );
}

#[test]
fn parse_alias_with_uri_but_missing_the_aliased_name() {
    let source = " prefix spotify:hello as";
    assert_eq!(
        parse_str("f", source),
        Err(failure(
            "f",
            source,
            24,
            0,
            SyntaxError::PrefixIsMissingTheAliasedName
        ))
    );
}

#[test]
fn parse_using() {
    assert_eq!(
        parse_str("f", "using dota:ontology:2022"),
        Ok(tree(
            "f",
            vec![StructureItem::Namespace {
                uri: uri("dota:ontology:2022")
            }]
        ))
    );
}

#[test]
fn parse_using_without_uri() {
    assert_eq!(
        parse_str("f", "using Hero"),
        Err(failure("f", "using Hero", 6, 4, SyntaxError::UseExpectsURI))
    );
}

#[test]
fn parse_kind_with_uri_name() {
    assert_eq!(
        parse_str("f", "kind spotify:kind:artist"),
        Ok(tree(
            "f",
            vec![StructureItem::Kind {
                name: uri_name("spotify:kind:artist"),
                fields: vec![],
            }]
        ))
    );
}

#[test]
fn parse_kind_with_aliased_name() {
    assert_eq!(
        parse_str("f", "kind Hello"),
        Ok(tree(
            "f",
            vec![StructureItem::Kind {
                name: alias("Hello"),
                fields: vec![],
            }]
        ))
    );
}

#[test]
fn parse_kind_with_missing_name() {
    assert_eq!(
        parse_str("f", "kind"),
        Err(failure("f", "kind", 4, 0, SyntaxError::KindIsMissingAName))
    );
}

#[test]
fn parse_kind_with_invalid_name() {
    assert_eq!(
        parse_str("f", "kind {}"),
        Err(failure("f", "kind {}", 5, 1, SyntaxError::KindIsMissingAName))
    );
}

#[test]
fn parse_attr_with_uri_name() {
    assert_eq!(
        parse_str("f", "attr spotify:field:Name"),
        Ok(tree(
            "f",
            vec![StructureItem::Attribute {
                name: uri_name("spotify:field:Name"),
                fields: vec![],
            }]
        ))
    );
}

#[test]
fn parse_attr_with_aliased_name() {
    assert_eq!(
        parse_str("f", "attr Name"),
        Ok(tree(
            "f",
            vec![StructureItem::Attribute {
                name: alias("Name"),
                fields: vec![],
            }]
        ))
    );
}

#[test]
fn parse_attr_with_missing_name() {
    assert_eq!(
        parse_str("f", "attr "),
        Err(failure("f", "attr ", 5, 0, SyntaxError::AttributeIsMissingAName))
    );
}

#[test]
fn parse_rel_with_missing_subject() {
    assert_eq!(
        parse_str("f", "rel"),
        Err(failure(
            "f",
            "rel",
            3,
            0,
            SyntaxError::RelationExpectedSubjectToBeName
        ))
    );
}

#[test]
fn parse_rel_incomplete_with_1_part_aliased() {
    assert_eq!(
        parse_str("f", "rel Artist"),
        Err(failure(
            "f",
            "rel Artist",
            10,
            0,
            SyntaxError::RelationExpectedPredicateToBeName
        ))
    );
}

#[test]
fn parse_rel_incomplete_with_1_part() {
    let source = "rel spotify:kinds/Artist";
    assert_eq!(
        parse_str("f", source),
        Err(failure(
            "f",
            source,
            24,
            0,
            SyntaxError::RelationExpectedPredicateToBeName
        ))
    );
}

#[test]
fn parse_rel_incomplete_with_2_parts_aliased() {
    assert_eq!(
        parse_str("f", "rel Artist has"),
        Err(failure(
            "f",
            "rel Artist has",
            14,
            0,
            SyntaxError::RelationExpectedObjectToBeName
        ))
    );
}

#[test]
fn parse_rel_incomplete_with_2_parts() {
    let source = "rel spotify:kinds/Artist spotify:rels/has";
    assert_eq!(
        parse_str("f", source),
        Err(failure(
            "f",
            source,
            41,
            0,
            SyntaxError::RelationExpectedObjectToBeName
        ))
    );
}

#[test]
fn rel_with_two_names_misses_its_object() {
    let error = parse_str("f", "rel A B").unwrap_err();
    assert_eq!(error.error, SyntaxError::RelationExpectedObjectToBeName);
    assert_ne!(error.error, SyntaxError::RelationExpectedSubjectToBeName);
    assert_ne!(error.error, SyntaxError::RelationExpectedPredicateToBeName);
}

#[test]
fn parse_rel_complete_with_3_parts_aliased() {
    assert_eq!(
        parse_str("f", "rel Artist has Name"),
        Ok(tree(
            "f",
            vec![StructureItem::Relation {
                subject: alias("Artist"),
                predicate: alias("has"),
                object: alias("Name"),
                fields: vec![],
            }]
        ))
    );
}

#[test]
fn parse_rel_complete_with_3_parts() {
    assert_eq!(
        parse_str(
            "f",
            "rel spotify:kinds/Artist spotify:rels/has spotify:attrs/Name"
        ),
        Ok(tree(
            "f",
            vec![StructureItem::Relation {
                subject: uri_name("spotify:kinds/Artist"),
                predicate: uri_name("spotify:rels/has"),
                object: uri_name("spotify:attrs/Name"),
                fields: vec![],
            }]
        ))
    );
}

#[test]
fn parse_rel_with_fields() {
    assert_eq!(
        parse_str("f", "rel A b C { @doc/en \"text\" }"),
        Ok(tree(
            "f",
            vec![StructureItem::Relation {
                subject: alias("A"),
                predicate: alias("b"),
                object: alias("C"),
                fields: vec![Field {
                    name: uri_name("@doc/en"),
                    value: Literal::String("text".to_string()),
                }],
            }]
        ))
    );
}

#[test]
fn parse_multiple_items() {
    let source = r#"
            # this is a prefix
            prefix spotify:kind:artist as @Artist

            kind @Artist

            attr Name

            attr spotify:field:play_count {
                @test/field 1234
            }

            kind spotify:kind:Album

            prefix spotify:kind:song as @Song

            kind Song
       "#;
    assert_eq!(
        parse_str("f", source),
        Ok(tree(
            "f",
            vec![
                StructureItem::Comment("# this is a prefix\n".to_string()),
                StructureItem::Alias {
                    uri: uri("spotify:kind:artist"),
                    prefix: uri("@Artist"),
                },
                StructureItem::Kind {
                    name: uri_name("@Artist"),
                    fields: vec![],
                },
                StructureItem::Attribute {
                    name: alias("Name"),
                    fields: vec![],
                },
                StructureItem::Attribute {
                    name: uri_name("spotify:field:play_count"),
                    fields: vec![Field {
                        name: uri_name("@test/field"),
                        value: Literal::Number(1234),
                    }],
                },
                StructureItem::Kind {
                    name: uri_name("spotify:kind:Album"),
                    fields: vec![],
                },
                StructureItem::Alias {
                    uri: uri("spotify:kind:song"),
                    prefix: uri("@Song"),
                },
                StructureItem::Kind {
                    name: alias("Song"),
                    fields: vec![],
                },
            ]
        ))
    );
}

#[test]
fn parse_sample() {
    let source = r#"

# these are comments for the ontology writers, not
# about the things!
attr Name {
  @doc/en      "A name to call something by."

  @label/en    "Name"
  @label/es    "Nombre"

  @see_also    @lore/attrs/Nickname

  # if a thing has a name, then the name means the thing
  @symmetry    :symmetric

  # a name might be its own name, like "word"
  @reflexivity :reflexive

  # all things may have names!
  @domain      @lore/Thing

  # names are usually primitive strings
  @range       :string
}

        "#;
    let field = |name: &str, value: Literal| Field {
        name: uri_name(name),
        value,
    };
    assert_eq!(
        parse_str("f", source),
        Ok(tree(
            "f",
            vec![
                StructureItem::Comment(
                    "# these are comments for the ontology writers, not\n".to_string()
                ),
                StructureItem::Comment("# about the things!\n".to_string()),
                StructureItem::Attribute {
                    name: alias("Name"),
                    fields: vec![
                        field(
                            "@doc/en",
                            Literal::String("A name to call something by.".to_string())
                        ),
                        field("@label/en", Literal::String("Name".to_string())),
                        field("@label/es", Literal::String("Nombre".to_string())),
                        field("@see_also", Literal::Name(uri_name("@lore/attrs/Nickname"))),
                        field("@symmetry", Literal::Name(uri_name(":symmetric"))),
                        field("@reflexivity", Literal::Name(uri_name(":reflexive"))),
                        field("@domain", Literal::Name(uri_name("@lore/Thing"))),
                        field("@range", Literal::Name(uri_name(":string"))),
                    ],
                },
            ]
        ))
    );
}

#[test]
fn parse_attr_with_fields_incomplete() {
    let source = " attr Name { ";
    assert_eq!(
        parse_str("f", source),
        Err(failure("f", source, 13, 0, SyntaxError::IncompleteFieldBlock))
    );
}

#[test]
fn parse_attr_with_fields_empty() {
    assert_eq!(
        parse_str("f", " attr Name {} "),
        Ok(tree(
            "f",
            vec![StructureItem::Attribute {
                name: alias("Name"),
                fields: vec![],
            }]
        ))
    );
}

#[test]
fn parse_attr_with_fields_one() {
    let source = r#"
                attr Name {
                    @label/en "Name"
                    @label/es "Nombre"
                    @comment/en ""
                    @see-also @other/entity

                    @symmetry       :symmetric
                    @reflexivity    :reflexive
                    @lore/disjoint-with  "oops"

                    @domain      User
                    @range       @lore/string
                    @cardinality 1
                }
 "#;
    let field = |name: &str, value: Literal| Field {
        name: uri_name(name),
        value,
    };
    assert_eq!(
        parse_str("f", source),
        Ok(tree(
            "f",
            vec![StructureItem::Attribute {
                name: alias("Name"),
                fields: vec![
                    field("@label/en", Literal::String("Name".to_string())),
                    field("@label/es", Literal::String("Nombre".to_string())),
                    field("@comment/en", Literal::String("".to_string())),
                    field("@see-also", Literal::Name(uri_name("@other/entity"))),
                    field("@symmetry", Literal::Name(uri_name(":symmetric"))),
                    field("@reflexivity", Literal::Name(uri_name(":reflexive"))),
                    field("@lore/disjoint-with", Literal::String("oops".to_string())),
                    field("@domain", Literal::Name(alias("User"))),
                    field("@range", Literal::Name(uri_name("@lore/string"))),
                    field("@cardinality", Literal::Number(1)),
                ],
            }]
        ))
    );
}

#[test]
fn parse_kind_with_fields_incomplete() {
    let source = " kind Name { ";
    assert_eq!(
        parse_str("f", source),
        Err(failure("f", source, 13, 0, SyntaxError::IncompleteFieldBlock))
    );
}

#[test]
fn parse_kind_with_fields_empty() {
    assert_eq!(
        parse_str("f", " kind Name {} "),
        Ok(tree(
            "f",
            vec![StructureItem::Kind {
                name: alias("Name"),
                fields: vec![],
            }]
        ))
    );
}

#[test]
fn parse_kind_with_fields_one() {
    let source = r#" kind Name {

            fully:qualified:urn/for/name/meta/kind "world"

            @aliased/kind/string "string"
            @aliased/kind/number 1234
            @aliased/kind/uri @aliased/value
            @aliased/kind/uri f:q:uri

        } "#;
    let field = |name: &str, value: Literal| Field {
        name: uri_name(name),
        value,
    };
    assert_eq!(
        parse_str("f", source),
        Ok(tree(
            "f",
            vec![StructureItem::Kind {
                name: alias("Name"),
                fields: vec![
                    field(
                        "fully:qualified:urn/for/name/meta/kind",
                        Literal::String("world".to_string())
                    ),
                    field("@aliased/kind/string", Literal::String("string".to_string())),
                    field("@aliased/kind/number", Literal::Number(1234)),
                    field("@aliased/kind/uri", Literal::Name(uri_name("@aliased/value"))),
                    field("@aliased/kind/uri", Literal::Name(uri_name("f:q:uri"))),
                ],
            }]
        ))
    );
}

#[test]
fn kind_with_empty_block_has_no_fields() {
    assert_eq!(
        parse_str("f", "kind Foo { }"),
        Ok(tree(
            "f",
            vec![StructureItem::Kind {
                name: alias("Foo"),
                fields: vec![],
            }]
        ))
    );
}

#[test]
fn kind_with_open_block_is_incomplete() {
    assert_eq!(
        parse_str("f", "kind Foo {"),
        Err(failure("f", "kind Foo {", 10, 0, SyntaxError::IncompleteFieldBlock))
    );
}

#[test]
fn block_that_ends_after_a_name_is_incomplete() {
    assert_eq!(
        parse_str("f", "kind Foo { a"),
        Err(failure("f", "kind Foo { a", 12, 0, SyntaxError::IncompleteFieldBlock))
    );
}

#[test]
fn block_drops_a_name_that_stands_alone_before_the_brace() {
    assert_eq!(
        parse_str("f", "kind Foo { a 1 b }"),
        Ok(tree(
            "f",
            vec![StructureItem::Kind {
                name: alias("Foo"),
                fields: vec![Field {
                    name: alias("a"),
                    value: Literal::Number(1),
                }],
            }]
        ))
    );
}

#[test]
fn block_with_multi_line_string() {
    let source = "kind Foo { @doc/en \"\"\"two\nlines\"\"\" }";
    assert_eq!(
        parse_str("f", source),
        Ok(tree(
            "f",
            vec![StructureItem::Kind {
                name: alias("Foo"),
                fields: vec![Field {
                    name: uri_name("@doc/en"),
                    value: Literal::String("two\nlines".to_string()),
                }],
            }]
        ))
    );
}

#[test]
fn block_with_invalid_name() {
    let source = "kind Foo { 12 a }";
    assert_eq!(
        parse_str("f", source),
        Err(failure(
            "f",
            source,
            11,
            2,
            SyntaxError::NameIsInvalid(Some(Token::Number(12)))
        ))
    );
}

#[test]
fn block_with_invalid_literal() {
    let source = "kind Foo { a kind }";
    assert_eq!(
        parse_str("f", source),
        Err(failure(
            "f",
            source,
            13,
            4,
            SyntaxError::InvalidLiteral(Some(Token::Kind))
        ))
    );
}

#[test]
fn block_with_two_comments_in_a_row() {
    let source = "kind Foo {\n# one\n# two\na 1 }";
    assert_eq!(
        parse_str("f", source),
        Err(failure(
            "f",
            source,
            17,
            6,
            SyntaxError::NameIsInvalid(Some(Token::Comment(" two\n".to_string())))
        ))
    );
}

#[test]
fn top_level_item_expected() {
    assert_eq!(
        parse_str("f", "kind A 12"),
        Err(failure("f", "kind A 12", 7, 2, SyntaxError::ExpectedTopLevelItem))
    );
    assert_eq!(
        parse_str("f", "Hero"),
        Err(failure("f", "Hero", 0, 4, SyntaxError::ExpectedTopLevelItem))
    );
}

#[test]
fn illegal_character_is_an_unexpected_token() {
    assert_eq!(
        parse_str("f", "kind A\n^"),
        Err(failure("f", "kind A\n^", 7, 1, SyntaxError::ExpectedTopLevelItem))
    );
}

#[test]
fn span_counts_bytes() {
    let source = "# héllo ✓\nkind";
    let error = parse_str("f", source).unwrap_err();
    assert_eq!(error.error, SyntaxError::KindIsMissingAName);
    assert_eq!(error.span, Span { offset: source.len(), length: 0 });
    let source = "kind \"é\" x";
    let error = parse_str("f", source).unwrap_err();
    assert_eq!(error.span, Span { offset: 5, length: 4 });
}

#[test]
fn empty_text_has_no_items() {
    assert_eq!(parse_str("f", ""), Ok(tree("f", vec![])));
    assert_eq!(parse_str("f", " \n\t "), Ok(tree("f", vec![])));
}

#[test]
fn parse_function_is_the_parser() {
    let source = "using a:b kind Hero";
    assert_eq!(parse("f", source), parse_str("f", source));
    assert_eq!(parse("f", "kind"), parse_str("f", "kind"));
}

#[test]
fn structure_accessors() {
    let items = vec![StructureItem::Comment("#x".to_string())];
    let tree = Structure::new(items, "file.lore".to_string());
    assert_eq!(tree.filename(), "file.lore");
    assert_eq!(tree.items(), &vec![StructureItem::Comment("#x".to_string())]);
}
