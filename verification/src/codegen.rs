pub mod elixir;
pub mod emitter_error;
pub mod erlang;
pub mod graphql;
pub mod ocaml;
pub mod rescript;
pub mod source_set;
