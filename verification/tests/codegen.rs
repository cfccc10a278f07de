use lore::ast::Name;
use lore::codegen::elixir::{ElixirEmitter, ElixirLib, ElixirModule, ElixirType};
use lore::codegen::erlang::{ErlangEmitter, ErlangModule, ErlangType};
use lore::codegen::graphql::{Document, GraphQLEmitter, TypeDefinition};
use lore::codegen::ocaml::ocaml_emitter;
use lore::codegen::ocaml::{CamlModule, CamlName, CamlValue, OCamlEmitter};
use lore::codegen::rescript::{ReScriptEmitter, ReScriptValue};
use lore::codegen::source_set::{Source, SourceSet};
use lore::store::Store;
use lore::uri::URI;

const KINDS: &str = r#"
using spotify:ontology:2022

kind Artist

kind Album

attr Name

rel Album hasOne Name
"#;

fn store_of(source: &str) -> Store {
    let mut store = Store::new();
    store.add_from_string(source).unwrap();
    store
}

fn name(text: &str) -> Name {
    Name::of_uri(&URI::from_string(text.to_string()))
}

fn t() -> String {
    "t".to_string()
}

#[test]
fn source_set_holds_sources() {
    assert!(SourceSet::empty().sources().is_empty());
    let source = Source::new("a.mli".to_string(), "type t\n".to_string());
    assert_eq!(source.name(), "a.mli");
    assert_eq!(source.contents(), "type t\n");
    let set = SourceSet::from_sources(vec![source.clone()]);
    assert_eq!(set.sources(), &vec![source]);
}

#[test]
fn elixir_kind_to_type() {
    let lib = ElixirEmitter::new().translate(&store_of(KINDS)).unwrap();
    assert_eq!(
        lib,
        ElixirLib {
            modules: vec![
                ElixirModule {
                    name: "Spotify_ontology_2022.Artist".to_string(),
                    types: vec![ElixirType { name: t() }],
                },
                ElixirModule {
                    name: "Spotify_ontology_2022.Album".to_string(),
                    types: vec![ElixirType { name: t() }],
                },
            ],
        }
    );
    assert_eq!(
        lib.to_string(),
        "defmodule Spotify_ontology_2022.Artist do\n@type t()\nend\ndefmodule Spotify_ontology_2022.Album do\n@type t()\nend\n"
    );
    assert_eq!(lib.modules[0].types[0].to_string(), "@type t()");
}

#[test]
fn erlang_kind_to_type() {
    let module = ErlangEmitter::new().translate(&store_of(KINDS)).unwrap();
    assert_eq!(
        module,
        ErlangModule {
            name: "Ontology".to_string(),
            types: vec![
                ErlangType {
                    name: "spotify_ontology_2022__Artist".to_string()
                },
                ErlangType {
                    name: "spotify_ontology_2022__Album".to_string()
                },
            ],
        }
    );
    assert_eq!(
        module.to_string(),
        "-module(Ontology).\n-type spotify_ontology_2022__Artist().\n-type spotify_ontology_2022__Album().\n"
    );
}

#[test]
fn rescript_kind_to_type() {
    let value = ReScriptEmitter::new().translate(&store_of(KINDS)).unwrap();
    let module = |name: &str| ReScriptValue::Module {
        name: name.to_string(),
        structure: vec![ReScriptValue::Type { name: t() }],
    };
    assert_eq!(
        value,
        ReScriptValue::Module {
            name: "Ontology".to_string(),
            structure: vec![
                module("Spotify_ontology_2022__Artist"),
                module("Spotify_ontology_2022__Album"),
            ],
        }
    );
    assert_eq!(
        value.to_string(),
        "module Ontology = {\n  module Spotify_ontology_2022__Artist = {\n  type t\n}\n  module Spotify_ontology_2022__Album = {\n  type t\n}\n}"
    );
}

#[test]
fn graphql_kind_to_types() {
    let document = GraphQLEmitter::new().translate(&store_of(KINDS)).unwrap();
    assert_eq!(
        document,
        Document {
            definitions: vec![
                TypeDefinition::Object {
                    name: "spotify_ontology_2022__Artist".to_string()
                },
                TypeDefinition::InputObject {
                    name: "spotify_ontology_2022__Artist__Input".to_string()
                },
                TypeDefinition::Object {
                    name: "spotify_ontology_2022__Album".to_string()
                },
                TypeDefinition::InputObject {
                    name: "spotify_ontology_2022__Album__Input".to_string()
                },
            ],
        }
    );
    assert_eq!(
        document.to_string(),
        "type spotify_ontology_2022__Artist\n\ninput spotify_ontology_2022__Artist__Input\n\ntype spotify_ontology_2022__Album\n\ninput spotify_ontology_2022__Album__Input\n"
    );
    assert_eq!(Document { definitions: vec![] }.to_string(), "");
}

#[test]
fn caml_name_from_kind_name() {
    let caml = CamlName::from_kind_name(&name("Spotify:Ontology:v2022/Artist"));
    assert_eq!(caml.to_filename(), "Spotify_ontology_v2022_artist");
    assert_eq!(caml.to_string(), "Spotify_ontology_v2022_artist");
    assert_eq!(CamlName::from_kind_name(&name("")).to_filename(), "");
    assert_eq!(CamlName::from_kind_name(&name("a:/b")).to_filename(), "A__b");
    assert_eq!(
        CamlName::from_lowercase("x/y:z"),
        CamlName::from_kind_name(&name("X/Y:Z"))
    );
}

#[test]
fn caml_module_into_source() {
    let module = CamlModule {
        name: CamlName::from_kind_name(&name("a:b")),
        structure: vec![
            CamlValue::Type { name: t() },
            CamlValue::Module(CamlModule {
                name: CamlName::from_kind_name(&name("c")),
                structure: vec![CamlValue::Type {
                    name: "u".to_string(),
                }],
            }),
        ],
    };
    assert_eq!(module.to_string(), "type t\ntype u\n\n");
    assert_eq!(
        module.into_source(),
        Source::new("A_b.mli".to_string(), "type t\ntype u\n\n".to_string())
    );
}

#[test]
fn ocaml_kind_to_type() {
    let sources = OCamlEmitter::new().translate(&store_of(KINDS)).unwrap();
    assert_eq!(
        sources,
        SourceSet::from_sources(vec![
            Source::new(
                "Spotify_ontology_2022_artist.mli".to_string(),
                "type t\n".to_string()
            ),
            Source::new(
                "Spotify_ontology_2022_album.mli".to_string(),
                "type t\n".to_string()
            ),
        ])
    );
}

#[test]
fn ocaml_interfaces_of_attributes_and_kinds() {
    let store = store_of(
        r#"

prefix lore:rel:v1 as @lore

using dota:ontology:2022

kind Hero

attr Name

rel Hero @lore/hasOne Name

        "#,
    );
    let sources = ocaml_emitter::OCamlEmitter::new().translate(&store).unwrap();
    assert_eq!(
        sources,
        SourceSet::from_sources(vec![
            Source::new(
                "dota_ontology_2022_name.mli".to_string(),
                "type t\n".to_string()
            ),
            Source::new(
                "dota_ontology_2022_hero.mli".to_string(),
                "type t\nval lore_rel_v1_hasOne : t -> Dota_ontology_2022_name.t\n".to_string()
            ),
        ])
    );
}

#[test]
fn ocaml_interfaces_with_comments_and_records() {
    let store = store_of(
        r#"
using a:b
kind Hero {
    lore:v1/doc/en "first"
    lore:v1/doc/en " A hero. "
}
attr Name
rel Hero has Name {
    lore:v1/doc/en "The name."
    lore:v1/doc/en "ignored"
}
rel Name of Hero
rel Name also Name
        "#,
    );
    let sources = ocaml_emitter::OCamlEmitter::new().translate(&store).unwrap();
    assert_eq!(
        sources,
        SourceSet::from_sources(vec![
            Source::new(
                "a_b_name.mli".to_string(),
                "type t = { a_b_also: A_b_name.t\n; a_b_of: A_b_hero.t } \n\n".to_string()
            ),
            Source::new(
                "a_b_hero.mli".to_string(),
                "(*\n  A hero.\n*)\ntype t\n(*\n  The name.\n*)\nval a_b_has : t -> A_b_name.t\n"
                    .to_string()
            ),
        ])
    );
}
