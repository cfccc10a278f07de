use lore::lexer::{tokenize, Token};

#[test]
fn comment() {
    let mut lex = Token::lexer(r#"# spotify:artist:2Hkut4rAAyrQxRdof7FVJq "#);

    assert_eq!(
        lex.next(),
        Some(Token::Comment(
            " spotify:artist:2Hkut4rAAyrQxRdof7FVJq ".to_string()
        ))
    );
}

#[test]
fn literal_string_single_line() {
    let mut lex = Token::lexer(r#" "spotify:artist:2Hkut4rAAyrQxRdof7FVJq" "#);

    assert_eq!(
        lex.next(),
        Some(Token::LiteralString(
            "spotify:artist:2Hkut4rAAyrQxRdof7FVJq".to_string()
        ))
    );
}
#[test]
fn literal_string_multi_line() {
    let mut lex = Token::lexer(
        r#" """
            spotify:artist:2Hkut4rAAyrQxRdof7FVJq
            more lines
            """ "#,
    );

    assert_eq!(
        lex.next(),
        Some(Token::MultiLineLiteralString("\n            spotify:artist:2Hkut4rAAyrQxRdof7FVJq\n            more lines\n            ".to_string())));
}

#[test]
fn uri() {
    let mut lex = Token::lexer(r#" spotify:artist:2Hkut4rAAyrQxRdof7FVJq "#);

    assert_eq!(
        lex.next(),
        Some(Token::URI(
            "spotify:artist:2Hkut4rAAyrQxRdof7FVJq".to_string()
        ))
    );
}

#[test]
fn using_namespace() {
    let mut lex = Token::lexer(r#" using spotify:schema/2021 "#);

    assert_eq!(lex.next(), Some(Token::Using));
    assert_eq!(
        lex.next(),
        Some(Token::URI("spotify:schema/2021".to_string()))
    );
}

#[test]
fn prefix_uri() {
    let mut lex = Token::lexer(r#" prefix spotify:schema/2021 as @spotify "#);

    assert_eq!(lex.next(), Some(Token::Prefix));
    assert_eq!(
        lex.next(),
        Some(Token::URI("spotify:schema/2021".to_string()))
    );
    assert_eq!(lex.next(), Some(Token::As));
    assert_eq!(lex.next(), Some(Token::URI("@spotify".to_string())));
}

#[test]
fn prefixed_uri() {
    let mut lex = Token::lexer(r#" @spotify/schema/2021 "#);

    assert_eq!(
        lex.next(),
        Some(Token::URI("@spotify/schema/2021".to_string()))
    );
}

#[test]
fn lowercase_kind_name() {
    let mut lex = Token::lexer(r#" kind u "#);

    assert_eq!(lex.next(), Some(Token::Kind));
    assert_eq!(lex.next(), Some(Token::Text("u".to_string())));
}

#[test]
fn lowercase_attr_name() {
    let mut lex = Token::lexer(r#" attr u "#);

    assert_eq!(lex.next(), Some(Token::Attribute));
    assert_eq!(lex.next(), Some(Token::Text("u".to_string())));
}

#[test]
fn empty_kind() {
    let mut lex = Token::lexer(r#" kind User "#);

    assert_eq!(lex.next(), Some(Token::Kind));
    assert_eq!(lex.next(), Some(Token::Text("User".to_string())));
}

#[test]
fn empty_string() {
    let mut lex = Token::lexer(r#" "" "#);
    assert_eq!(lex.next(), Some(Token::LiteralString("".to_string())));
}

#[test]
fn non_empty_string() {
    let mut lex = Token::lexer(r#" "what" "#);
    assert_eq!(lex.next(), Some(Token::LiteralString("what".to_string())));
}

#[test]
fn kind_with_body() {
    let mut lex = Token::lexer(r#"kind User { }"#);

    assert_eq!(lex.next(), Some(Token::Kind));
    assert_eq!(lex.next(), Some(Token::Text("User".to_string())));
    assert_eq!(lex.next(), Some(Token::OpenBrace));
    assert_eq!(lex.next(), Some(Token::ClosedBrace));
}

#[test]
fn empty_attribute() {
    let mut lex = Token::lexer(r#"attr Name in User"#);

    assert_eq!(lex.next(), Some(Token::Attribute));
    assert_eq!(lex.next(), Some(Token::Text("Name".to_string())));
    assert_eq!(lex.next(), Some(Token::In));
    assert_eq!(lex.next(), Some(Token::Text("User".to_string())));
}

#[test]
fn field() {
    let mut lex = Token::lexer(r#"range: integer"#);

    assert_eq!(lex.next(), Some(Token::Text("range".to_string())));
    assert_eq!(lex.next(), Some(Token::Colon));
    assert_eq!(lex.next(), Some(Token::Text("integer".to_string())));
}

#[test]
fn field_block() {
    let mut lex = Token::lexer(r#" { hello world } "#);

    assert_eq!(lex.next(), Some(Token::OpenBrace));
    assert_eq!(lex.next(), Some(Token::Text("hello".to_string())));
    assert_eq!(lex.next(), Some(Token::Text("world".to_string())));
    assert_eq!(lex.next(), Some(Token::ClosedBrace));
}

#[test]
fn attr_with_fields() {
    let mut lex = Token::lexer(
        r#"
                attr Name {
                    @label/en "Name"
                    @label/es "Nombre"
                    @comment/en ""
                    @see-also    @other/entity

                    @symmetry       :symmetric
                    @reflexivity    :reflexive
                    @disjoint-with  :reflexive

                    @domain      User
                    @range       @lore/string
                    @cardinality 1
                }
        "#,
    );

    assert_eq!(lex.next(), Some(Token::Attribute));
    assert_eq!(lex.next(), Some(Token::Text("Name".to_string())));
    assert_eq!(lex.next(), Some(Token::OpenBrace));
    assert_eq!(lex.next(), Some(Token::URI("@label/en".to_string())));
    assert_eq!(lex.next(), Some(Token::LiteralString("Name".to_string())));
    assert_eq!(lex.next(), Some(Token::URI("@label/es".to_string())));
    assert_eq!(lex.next(), Some(Token::LiteralString("Nombre".to_string())));
    assert_eq!(lex.next(), Some(Token::URI("@comment/en".to_string())));
    assert_eq!(lex.next(), Some(Token::LiteralString("".to_string())));
    assert_eq!(lex.next(), Some(Token::URI("@see-also".to_string())));
    assert_eq!(lex.next(), Some(Token::URI("@other/entity".to_string())));
    assert_eq!(lex.next(), Some(Token::URI("@symmetry".to_string())));
    assert_eq!(lex.next(), Some(Token::URI(":symmetric".to_string())));
    assert_eq!(lex.next(), Some(Token::URI("@reflexivity".to_string())));
    assert_eq!(lex.next(), Some(Token::URI(":reflexive".to_string())));
    assert_eq!(lex.next(), Some(Token::URI("@disjoint-with".to_string())));
    assert_eq!(lex.next(), Some(Token::URI(":reflexive".to_string())));
    assert_eq!(lex.next(), Some(Token::URI("@domain".to_string())));
    assert_eq!(lex.next(), Some(Token::Text("User".to_string())));
    assert_eq!(lex.next(), Some(Token::URI("@range".to_string())));
    assert_eq!(lex.next(), Some(Token::URI("@lore/string".to_string())));
    assert_eq!(lex.next(), Some(Token::URI("@cardinality".to_string())));
    assert_eq!(lex.next(), Some(Token::Number(1)));
    assert_eq!(lex.next(), Some(Token::ClosedBrace));
}

#[test]
fn keywords_and_punctuation() {
    let mut lex = Token::lexer("as prefix using kind attr rel in : { } /");
    assert_eq!(lex.next(), Some(Token::As));
    assert_eq!(lex.next(), Some(Token::Prefix));
    assert_eq!(lex.next(), Some(Token::Using));
    assert_eq!(lex.next(), Some(Token::Kind));
    assert_eq!(lex.next(), Some(Token::Attribute));
    assert_eq!(lex.next(), Some(Token::Relation));
    assert_eq!(lex.next(), Some(Token::In));
    assert_eq!(lex.next(), Some(Token::Colon));
    assert_eq!(lex.next(), Some(Token::OpenBrace));
    assert_eq!(lex.next(), Some(Token::ClosedBrace));
    assert_eq!(lex.next(), Some(Token::Slash));
    assert_eq!(lex.next(), None);
    assert_eq!(lex.next(), None);
}

#[test]
fn longer_match_beats_keyword() {
    let mut lex = Token::lexer("kinds as-is in_ relation kind:x as:");
    assert_eq!(lex.next(), Some(Token::Text("kinds".to_string())));
    assert_eq!(lex.next(), Some(Token::Text("as-is".to_string())));
    assert_eq!(lex.next(), Some(Token::Text("in_".to_string())));
    assert_eq!(lex.next(), Some(Token::Text("relation".to_string())));
    assert_eq!(lex.next(), Some(Token::URI("kind:x".to_string())));
    assert_eq!(lex.next(), Some(Token::As));
    assert_eq!(lex.next(), Some(Token::Colon));
    assert_eq!(lex.next(), None);
}

#[test]
fn uri_is_never_split() {
    let mut lex = Token::lexer("dota:ontology:2022 @alias/rest :leading 9x-1:a?b#c");
    assert_eq!(lex.next(), Some(Token::URI("dota:ontology:2022".to_string())));
    assert_eq!(lex.next(), Some(Token::URI("@alias/rest".to_string())));
    assert_eq!(lex.next(), Some(Token::URI(":leading".to_string())));
    assert_eq!(lex.next(), Some(Token::URI("9x-1:a?b#c".to_string())));
    assert_eq!(lex.next(), None);
}

#[test]
fn scheme_is_lower_case() {
    let mut lex = Token::lexer("Abc:def");
    assert_eq!(lex.next(), Some(Token::Text("Abc".to_string())));
    assert_eq!(lex.next(), Some(Token::URI(":def".to_string())));
    assert_eq!(lex.next(), None);
}

#[test]
fn numbers() {
    let mut lex = Token::lexer("0 007 18446744073709551615 18446744073709551616 1a");
    assert_eq!(lex.next(), Some(Token::Number(0)));
    assert_eq!(lex.next(), Some(Token::Number(7)));
    assert_eq!(lex.next(), Some(Token::Number(18446744073709551615)));
    assert_eq!(lex.next(), Some(Token::Error));
    assert_eq!(lex.next(), Some(Token::Number(1)));
    assert_eq!(lex.next(), Some(Token::Text("a".to_string())));
    assert_eq!(lex.next(), None);
}

#[test]
fn strings_with_escapes() {
    let mut lex = Token::lexer(r#" "a\"b" "c\\" "" "#);
    assert_eq!(lex.next(), Some(Token::LiteralString(r#"a\"b"#.to_string())));
    assert_eq!(lex.next(), Some(Token::LiteralString(r#"c\\"#.to_string())));
    assert_eq!(lex.next(), Some(Token::LiteralString("".to_string())));
    assert_eq!(lex.next(), None);
}

#[test]
fn string_without_end_is_an_error_token() {
    let mut lex = Token::lexer("\"abc");
    assert_eq!(lex.next(), Some(Token::Error));
    assert_eq!(lex.next(), Some(Token::Text("abc".to_string())));
    assert_eq!(lex.next(), None);
}

#[test]
fn four_quotes_are_two_empty_strings() {
    let mut lex = Token::lexer("\"\"\"\"");
    assert_eq!(lex.next(), Some(Token::LiteralString("".to_string())));
    assert_eq!(lex.next(), Some(Token::LiteralString("".to_string())));
    assert_eq!(lex.next(), None);
    let mut lex = Token::lexer("\"\"\"\"\"\"");
    assert_eq!(lex.next(), Some(Token::MultiLineLiteralString("".to_string())));
    assert_eq!(lex.next(), None);
}

#[test]
fn illegal_characters_are_error_tokens() {
    let mut lex = Token::lexer("^ \r é kind");
    assert_eq!(lex.next(), Some(Token::Error));
    assert_eq!(lex.next(), Some(Token::Error));
    assert_eq!(lex.next(), Some(Token::Error));
    assert_eq!(lex.next(), Some(Token::Kind));
    assert_eq!(lex.next(), None);
}

#[test]
fn comment_ends_with_its_line() {
    let mut lex = Token::lexer("# one\r\nkind # two");
    assert_eq!(lex.next(), Some(Token::Comment(" one\r\n".to_string())));
    assert_eq!(lex.slice(), "# one\r\n");
    assert_eq!(lex.next(), Some(Token::Kind));
    assert_eq!(lex.span(), (7, 11));
    assert_eq!(lex.next(), Some(Token::Comment(" two".to_string())));
    assert_eq!(lex.next(), None);
    assert_eq!(lex.span(), (17, 17));
}

#[test]
fn tokenize_gives_all_tokens() {
    assert_eq!(tokenize(""), vec![]);
    assert_eq!(tokenize(" \n "), vec![]);
    assert_eq!(
        tokenize("using a:b\nkind Hero { @doc \"x\" 7 } # end"),
        vec![
            Token::Using,
            Token::URI("a:b".to_string()),
            Token::Kind,
            Token::Text("Hero".to_string()),
            Token::OpenBrace,
            Token::URI("@doc".to_string()),
            Token::LiteralString("x".to_string()),
            Token::Number(7),
            Token::ClosedBrace,
            Token::Comment(" end".to_string()),
        ]
    );
    assert_eq!(
        tokenize("scheme:rest"),
        vec![Token::URI("scheme:rest".to_string())]
    );
}
