use lore::ast::{Attribute, Kind, Name, Relation, Structure};
use lore::parser::SyntaxError;
use lore::quads::{Quad, ToQuads};
use lore::store::{prepare_query, Store, StoreError};
use lore::uri::URI;
use lore::validator::SemanticError;

fn uri(text: &str) -> URI {
    URI::from_string(text.to_string())
}

fn name(text: &str) -> Name {
    Name::of_uri(&uri(text))
}

fn quad(subject: &str, predicate: &str, object: &str) -> Quad {
    Quad {
        subject: subject.to_string(),
        predicate: predicate.to_string(),
        object: object.to_string(),
    }
}

const RDF_TYPE: &str = "http://www.w3.org/1999/02/22-rdf-syntax-ns#type";
const LORE_TYPE: &str = "https://lore-lang.org/v1/type";

#[test]
fn kind_to_quads() {
    let kind = Kind {
        name: name("a:Hero"),
        fields: vec![],
    };
    assert_eq!(
        kind.to_quads(),
        vec![
            quad("a:Hero", RDF_TYPE, "http://www.w3.org/2002/07/owl#Class"),
            quad("a:Hero", LORE_TYPE, "https://lore-lang.org/v1/Kind"),
        ]
    );
}

#[test]
fn attribute_to_quads() {
    let attribute = Attribute {
        name: name("a:Name"),
        fields: vec![],
    };
    assert_eq!(
        attribute.to_quads(),
        vec![
            quad(
                "a:Name",
                RDF_TYPE,
                "http://www.w3.org/2002/07/owl#ObjectProperty"
            ),
            quad("a:Name", LORE_TYPE, "https://lore-lang.org/v1/Attribute"),
        ]
    );
}

#[test]
fn relation_to_quads() {
    let relation = Relation {
        subject: name("a:Hero"),
        predicate: name("a:hasOne"),
        object: name("a:Name"),
        fields: vec![],
    };
    assert_eq!(
        relation.to_quads(),
        vec![
            quad(
                "a:hasOne",
                "http://www.w3.org/2000/01/rdf-schema#domain",
                "a:Hero"
            ),
            quad(
                "a:hasOne",
                "http://www.w3.org/2000/01/rdf-schema#range",
                "a:Name"
            ),
        ]
    );
}

fn select(store: &Store, query: &str) -> Vec<Vec<String>> {
    let mut rows = store.query(query).unwrap();
    rows.sort();
    rows
}

fn statements(store: &Store) -> Vec<Vec<String>> {
    select(store, "SELECT ?s ?p ?o WHERE { ?s ?p ?o }")
}

fn row(subject: &str, predicate: &str, object: &str) -> Vec<String> {
    vec![
        format!("?s: <{}>", subject),
        format!("?p: <{}>", predicate),
        format!("?o: <{}>", object),
    ]
}

#[test]
fn new_store_is_empty() {
    let store = Store::new();
    assert!(store.kinds().is_empty());
    assert!(store.attributes().is_empty());
    assert!(statements(&store).is_empty());
    assert_eq!(store.relations_of(&uri("a:b")), None);
}

#[test]
fn store_kind_with_uri_name() {
    let mut store = Store::new();
    store.add_from_string("kind spotify:kind:artist").unwrap();
    assert_eq!(
        store.kinds(),
        vec![&Kind {
            name: name("spotify:kind:artist"),
            fields: vec![],
        }]
    );
    assert!(store.attributes().is_empty());
    assert_eq!(
        statements(&store),
        vec![
            row(
                "spotify:kind:artist",
                RDF_TYPE,
                "http://www.w3.org/2002/07/owl#Class"
            ),
            row(
                "spotify:kind:artist",
                LORE_TYPE,
                "https://lore-lang.org/v1/Kind"
            ),
        ]
    );
}

#[test]
fn store_kind_with_aliased_name() {
    let mut store = Store::new();
    store
        .add_from_string(
            r#"
        prefix dota:ontology:v2021/Hero as @Hero
        kind @Hero
        "#,
        )
        .unwrap();
    assert_eq!(
        store.kinds(),
        vec![&Kind {
            name: name("dota:ontology:v2021/Hero"),
            fields: vec![],
        }]
    );
}

#[test]
fn store_attr_with_aliased_name() {
    let mut store = Store::new();
    store
        .add_from_string(
            r#"
        prefix spotify:field:Name as @Name
        attr @Name
        "#,
        )
        .unwrap();
    assert_eq!(
        store.attributes(),
        vec![&Attribute {
            name: name("spotify:field:Name"),
            fields: vec![],
        }]
    );
}

#[test]
fn store_multiple_items() {
    let mut store = Store::new();
    store
        .add_from_string(
            r#"
            prefix dota:ontology:2022/Hero as @Hero
            prefix dota:ontology:2022/Name as @Name
            prefix lore:rel:v1/hasOne as @hasOne

            kind @Hero

            attr @Name

            rel @Hero @hasOne @Name
        "#,
        )
        .unwrap();
    assert_eq!(store.kinds().len(), 1);
    assert_eq!(store.attributes().len(), 1);
    let relation = Relation {
        subject: name("dota:ontology:2022/Hero"),
        predicate: name("lore:rel:v1/hasOne"),
        object: name("dota:ontology:2022/Name"),
        fields: vec![],
    };
    assert_eq!(
        store.relations_of(&uri("dota:ontology:2022/Hero")),
        Some(&vec![relation])
    );
    assert_eq!(store.relations_of(&uri("dota:ontology:2022/Name")), None);
    let mut expected = vec![
        row(
            "dota:ontology:2022/Name",
            RDF_TYPE,
            "http://www.w3.org/2002/07/owl#ObjectProperty",
        ),
        row(
            "dota:ontology:2022/Name",
            LORE_TYPE,
            "https://lore-lang.org/v1/Attribute",
        ),
        row(
            "dota:ontology:2022/Hero",
            RDF_TYPE,
            "http://www.w3.org/2002/07/owl#Class",
        ),
        row(
            "dota:ontology:2022/Hero",
            LORE_TYPE,
            "https://lore-lang.org/v1/Kind",
        ),
        row(
            "lore:rel:v1/hasOne",
            "http://www.w3.org/2000/01/rdf-schema#domain",
            "dota:ontology:2022/Hero",
        ),
        row(
            "lore:rel:v1/hasOne",
            "http://www.w3.org/2000/01/rdf-schema#range",
            "dota:ontology:2022/Name",
        ),
    ];
    expected.sort();
    assert_eq!(statements(&store), expected);
    assert_eq!(
        select(&store, "SELECT ?k WHERE { ?k lore:type lore:Kind }"),
        vec![vec!["?k: <dota:ontology:2022/Hero>".to_string()]]
    );
    assert_eq!(
        select(
            &store,
            "SELECT ?a ?b WHERE { ?p rdfs:domain ?a . ?p rdfs:range ?b }"
        ),
        vec![vec![
            "?a: <dota:ontology:2022/Hero>".to_string(),
            "?b: <dota:ontology:2022/Name>".to_string(),
        ]]
    );
}

#[test]
fn later_declaration_takes_the_place_of_an_earlier_one() {
    let mut store = Store::new();
    store.add_from_string("kind a:A\nkind a:B").unwrap();
    store
        .add_from_string("kind a:A { a:doc \"new\" }")
        .unwrap();
    let kinds = store.kinds();
    assert_eq!(kinds.len(), 2);
    assert_eq!(kinds[0].name, name("a:A"));
    assert_eq!(kinds[0].fields.len(), 1);
    assert_eq!(kinds[1].name, name("a:B"));
    assert_eq!(statements(&store).len(), 4);
}

#[test]
fn relations_are_grouped_by_subject() {
    let mut store = Store::new();
    store
        .add_from_string("rel a:A a:p a:B\nrel a:C a:q a:D\nrel a:A a:r a:E")
        .unwrap();
    let of_a = store.relations_of(&uri("a:A")).unwrap();
    assert_eq!(of_a.len(), 2);
    assert_eq!(of_a[0].predicate, name("a:p"));
    assert_eq!(of_a[1].predicate, name("a:r"));
    assert_eq!(store.relations_of(&uri("a:C")).unwrap().len(), 1);
    assert_eq!(statements(&store).len(), 6);
}

#[test]
fn add_tree_adds_declarations() {
    let mut store = Store::new();
    let tree = Structure {
        kinds: vec![Kind {
            name: name("a:K"),
            fields: vec![],
        }],
        attributes: vec![Attribute {
            name: name("a:A"),
            fields: vec![],
        }],
        relations: vec![],
    };
    assert!(Store::has_iris(&tree));
    assert!(store.add_tree(tree).is_ok());
    assert_eq!(store.kinds().len(), 1);
    assert_eq!(store.attributes().len(), 1);
    assert_eq!(statements(&store).len(), 4);
}

#[test]
fn name_that_is_no_iri_leaves_the_store() {
    let mut store = Store::new();
    store.add_from_string("kind a:A").unwrap();
    let tree = Structure {
        kinds: vec![Kind {
            name: name("a:B"),
            fields: vec![],
        }],
        attributes: vec![],
        relations: vec![Relation {
            subject: name("a:B"),
            predicate: name("no iri"),
            object: name("a:A"),
            fields: vec![],
        }],
    };
    assert!(!Store::has_iris(&tree));
    match store.try_add_tree(tree) {
        Err(StoreError::Runtime(text)) => assert_eq!(text, "a name is not an IRI"),
        other => panic!("{:?}", other),
    }
    match store.add_from_string("kind :b") {
        Err(StoreError::Runtime(text)) => assert_eq!(text, "a name is not an IRI"),
        other => panic!("{:?}", other),
    }
    assert_eq!(store.kinds().len(), 1);
    assert_eq!(statements(&store).len(), 2);
}

#[test]
fn query_that_does_not_parse_is_an_error() {
    let store = Store::new();
    match store.query("SELECT WHERE") {
        Err(StoreError::QueryError(_)) => {}
        other => panic!("{:?}", other),
    }
}

#[test]
fn query_that_selects_nothing_gives_no_row() {
    let mut store = Store::new();
    store.add_from_string("kind a:A").unwrap();
    assert!(store.query("ASK { ?s ?p ?o }").unwrap().is_empty());
    assert!(select(&store, "SELECT ?a WHERE { ?a lore:type lore:Attribute }").is_empty());
}

#[test]
fn solutions_are_formatted_as_texts() {
    assert!(Store::format_solutions(None).is_empty());
    let rows = vec![
        vec![("?a".to_string(), "<x:y>".to_string())],
        vec![],
        vec![
            ("?a".to_string(), "1".to_string()),
            ("?b".to_string(), "".to_string()),
        ],
    ];
    assert_eq!(
        Store::format_solutions(Some(rows)),
        vec![
            vec!["?a: <x:y>".to_string()],
            vec![],
            vec!["?a: 1".to_string(), "?b: ".to_string()],
        ]
    );
}

#[test]
fn prepare_query_puts_the_prefixes_first() {
    let query = prepare_query("SELECT ?s WHERE { ?s ?p ?o }");
    assert!(query.starts_with("\n\nPREFIX lore: <https://lore-lang.org/v1/>\nPREFIX rdf: <http://www.w3.org/1999/02/22-rdf-syntax-ns#>\n"));
    assert!(query.ends_with("PREFIX xsd: <http://www.w3.org/2001/XMLSchema#>\n\nSELECT ?s WHERE { ?s ?p ?o }\n        "));
}

#[test]
fn text_that_does_not_parse_leaves_the_store() {
    let mut store = Store::new();
    store.add_from_string("kind a:A").unwrap();
    match store.add_from_string("kind") {
        Err(StoreError::ParseError(e)) => {
            assert_eq!(e.error, SyntaxError::KindIsMissingAName);
            assert_eq!(e.filename, "tmp");
        }
        other => panic!("{:?}", other),
    }
    assert_eq!(store.kinds().len(), 1);
}

#[test]
fn text_with_unresolved_names_leaves_the_store() {
    let mut store = Store::new();
    match store.add_from_string("kind a:A\nkind Band") {
        Err(StoreError::ValidationError(e)) => {
            assert_eq!(
                e.error,
                SemanticError::UnresolvedNames(vec![Name::unresolved_alias("Band")])
            );
        }
        other => panic!("{:?}", other),
    }
    assert!(store.kinds().is_empty());
}
