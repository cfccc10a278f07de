use vstd::prelude::*;
use oxigraph::model::{NamedNode, Quad};
use oxigraph::sparql::{EvaluationError, QueryResults};
use oxigraph::MemoryStore;

verus! {

/// `oxigraph::MemoryStore`, the graph store that is held in memory. The
/// library sees nothing inside it.
#[verifier::external_type_specification]
#[verifier::external_body]
pub struct ExMemoryStore(oxigraph::MemoryStore);

/// `oxigraph::sparql::EvaluationError`, what a query that fails gives. The
/// library carries it to the caller and sees nothing inside it.
#[verifier::external_type_specification]
#[verifier::external_body]
pub struct ExEvaluationError(oxigraph::sparql::EvaluationError);

/// A statement as the texts of its subject, its predicate and its object.
pub type Triple = (Seq<char>, Seq<char>, Seq<char>);

/// The statements that a graph holds in its default graph.
pub uninterp spec fn graph_quads(graph: MemoryStore) -> Set<(Seq<char>, Seq<char>, Seq<char>)>;

/// Whether `text` is an IRI, as `NamedNode::new` of oxigraph accepts one.
pub uninterp spec fn is_iri(text: Seq<char>) -> bool;

/// `MemoryStore::new` builds a store that holds no statement.
#[verifier::external_body]
pub(crate) fn new_graph() -> (graph: MemoryStore)
    ensures
        graph_quads(graph) == Set::<Triple>::empty(),
{
    MemoryStore::new()
}

/// `NamedNode::new` builds a node where the text is an IRI and fails
/// where it is not; whether it is one depends on the text alone.
#[verifier::external_body]
pub(crate) fn check_iri(text: &str) -> (r: bool)
    ensures
        r == is_iri(text@),
{
    NamedNode::new(text).is_ok()
}

/// `MemoryStore::insert` adds a statement to the store; a store holds a
/// statement once. The statement is put into the default graph, and its
/// three nodes are named by the three texts, which are IRIs.
#[verifier::external_body]
pub(crate) fn insert_statement(
    graph: &mut MemoryStore,
    subject: &str,
    predicate: &str,
    object: &str,
)
    requires
        is_iri(subject@),
        is_iri(predicate@),
        is_iri(object@),
    ensures
        graph_quads(*final(graph)) == graph_quads(*old(graph)).insert(
            (subject@, predicate@, object@),
        ),
{
    graph.insert(
        Quad::new(
            NamedNode::new(subject).unwrap(),
            NamedNode::new(predicate).unwrap(),
            NamedNode::new(object).unwrap(),
            None,
        ),
    );
}

/// `MemoryStore::query` runs a SPARQL query on the store. The solutions
/// of a `SELECT` query come back as rows of pairs, each the text of a
/// variable and the text of the term that is bound to it; any other form
/// of query gives `None`. Nothing is said of which rows come back, nor of
/// their order.
#[verifier::external_body]
pub(crate) fn select(graph: &MemoryStore, query: &str) -> (r: Result<
    Option<Vec<Vec<(String, String)>>>,
    EvaluationError,
>) {
    Ok(
        match graph.query(query)? {
            QueryResults::Solutions(solutions) => Some(
                solutions.map(
                    |s| s.map(|s| s.iter().map(|(v, t)| (v.to_string(), t.to_string())).collect()),
                ).collect::<Result<_, _>>()?,
            ),
            _ => None,
        },
    )
}

} // verus!
