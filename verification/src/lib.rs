//! A front end for a small language that describes an ontology: kinds,
//! attributes and relations, each named by a URI or by an alias that the
//! directives of the same file resolve.
//!
//! Text is scanned into tokens (`lexer`, by the rules of `rules`), parsed
//! into a parse tree (`parser`, by the grammar of `syntax`), and resolved
//! into declarations whose names are all absolute (`validator`, by the
//! rules of `resolution`). A `store` holds the declarations of many files
//! with the graph of their statements; `codegen` writes them down in other
//! languages.

pub mod ast;
pub mod chars;
pub mod codegen;
pub mod graph;
pub mod lexer;
pub mod parser;
pub mod parsetree;
pub mod prefixes;
pub mod quads;
pub mod resolution;
pub mod rules;
pub mod store;
pub mod syntax;
pub mod target;
pub mod text;
pub mod unresolved;
pub mod uri;
pub mod validator;

pub use parser::parse;
pub use validator::Validator;
