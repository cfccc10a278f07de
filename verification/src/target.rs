use vstd::prelude::*;
use vstd::string::StringExecFns;
use crate::codegen::emitter_error::EmitterError;
use crate::codegen::ocaml::{sources_of, OCamlEmitter};
use crate::codegen::source_set::{SourceSet, SourceView};
use crate::store::{Store, StoreView};
use crate::text::{chars_of, same_chars};

verus! {

/// A language in which sources can be generated.
#[derive(Clone, Copy, Debug, PartialEq, Eq, Structural)]
pub enum TargetLang {
    OCaml,
    GraphQL,
    Erlang,
    Elixir,
}

/// The name by which a target is chosen.
pub open spec fn target_name(target: TargetLang) -> Seq<char> {
    match target {
        TargetLang::OCaml => "ocaml"@,
        TargetLang::GraphQL => "graphql"@,
        TargetLang::Erlang => "erlang"@,
        TargetLang::Elixir => "elixir"@,
    }
}

/// The target that the name `s` chooses.
pub open spec fn target_named(s: Seq<char>) -> Option<TargetLang> {
    if s == "ocaml"@ {
        Some(TargetLang::OCaml)
    } else if s == "erlang"@ {
        Some(TargetLang::Erlang)
    } else if s == "elixir"@ {
        Some(TargetLang::Elixir)
    } else if s == "graphql"@ {
        Some(TargetLang::GraphQL)
    } else {
        None
    }
}

/// What is said of a name that chooses no target.
pub open spec fn unknown_target(s: Seq<char>) -> Seq<char> {
    "Could not find target: "@ + s
        + ". Try one of: ocaml | elixir | erlang | graphql | rescript"@
}

/// Each target is chosen by its own name.
pub proof fn target_is_chosen_by_its_name(target: TargetLang)
    ensures
        target_named(target_name(target)) == Some(target),
{
    reveal_strlit("ocaml");
    reveal_strlit("graphql");
    reveal_strlit("erlang");
    reveal_strlit("elixir");
    assert("ocaml"@.len() == 5);
    assert("graphql"@.len() == 7);
    assert("erlang"@[1] == 'r');
}

fn is_text(s: &[char], wanted: &str) -> (r: bool)
    ensures
        r == (s@ == wanted@),
{
    let other = chars_of(wanted);
    same_chars(s, other.as_slice())
}

impl TargetLang {
    pub fn to_string(&self) -> (r: String)
        ensures
            r@ == target_name(*self),
    {
        String::from_str(
            match self {
                TargetLang::OCaml => "ocaml",
                TargetLang::GraphQL => "graphql",
                TargetLang::Erlang => "erlang",
                TargetLang::Elixir => "elixir",
            },
        )
    }

    pub fn from_str(s: &str) -> (r: Result<TargetLang, String>)
        ensures
            match target_named(s@) {
                Some(target) => r == Ok::<TargetLang, String>(target),
                None => r matches Err(message) && message@ == unknown_target(s@),
            },
    {
        let text = chars_of(s);
        if is_text(text.as_slice(), "ocaml") {
            Ok(TargetLang::OCaml)
        } else if is_text(text.as_slice(), "erlang") {
            Ok(TargetLang::Erlang)
        } else if is_text(text.as_slice(), "elixir") {
            Ok(TargetLang::Elixir)
        } else if is_text(text.as_slice(), "graphql") {
            Ok(TargetLang::GraphQL)
        } else {
            Err(
                String::from_str("Could not find target: ").concat(s).concat(
                    ". Try one of: ocaml | elixir | erlang | graphql | rescript",
                ),
            )
        }
    }
}

/// The files that are written for a target: the interface files of the
/// kinds for OCaml, none for any other target.
pub open spec fn sources_for(target: TargetLang, store: StoreView) -> Seq<SourceView> {
    match target {
        TargetLang::OCaml => sources_of(store.kinds),
        _ => Seq::empty(),
    }
}

/// The files that are written for `target` from the declarations of
/// `store`.
pub fn emit(target: TargetLang, store: &Store) -> (r: Result<SourceSet, EmitterError>)
    ensures
        r matches Ok(sources) && sources@ == sources_for(target, store@),
{
    match target {
        TargetLang::OCaml => {
            let emitter = OCamlEmitter::new();
            emitter.translate(store)
        },
        _ => Ok(SourceSet::empty()),
    }
}

} // verus!
