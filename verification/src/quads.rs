use vstd::prelude::*;
use vstd::string::StringExecFns;
use crate::ast::{Attribute, Kind, Relation, RelationView};

verus! {

/// What a `Quad` holds.
pub struct QuadView {
    pub subject: Seq<char>,
    pub predicate: Seq<char>,
    pub object: Seq<char>,
}

impl QuadView {
    /// The three texts of the statement.
    pub open spec fn triple(self) -> (Seq<char>, Seq<char>, Seq<char>) {
        (self.subject, self.predicate, self.object)
    }
}

/// A statement of the graph: three names of nodes, in the default graph.
#[derive(Debug, PartialEq, Eq)]
pub struct Quad {
    pub subject: String,
    pub predicate: String,
    pub object: String,
}

impl View for Quad {
    type V = QuadView;

    open spec fn view(&self) -> QuadView {
        QuadView { subject: self.subject@, predicate: self.predicate@, object: self.object@ }
    }
}

impl DeepView for Quad {
    type V = QuadView;

    open spec fn deep_view(&self) -> QuadView {
        self@
    }
}

impl Clone for Quad {
    fn clone(&self) -> (r: Self)
        ensures
            r@ == self@,
    {
        Quad {
            subject: self.subject.clone(),
            predicate: self.predicate.clone(),
            object: self.object.clone(),
        }
    }
}

/// The two statements that say that `uri` is a kind.
pub open spec fn kind_quads(uri: Seq<char>) -> Seq<QuadView> {
    seq![
        QuadView {
            subject: uri,
            predicate: "http://www.w3.org/1999/02/22-rdf-syntax-ns#type"@,
            object: "http://www.w3.org/2002/07/owl#Class"@,
        },
        QuadView {
            subject: uri,
            predicate: "https://lore-lang.org/v1/type"@,
            object: "https://lore-lang.org/v1/Kind"@,
        },
    ]
}

/// The two statements that say that `uri` is an attribute.
pub open spec fn attribute_quads(uri: Seq<char>) -> Seq<QuadView> {
    seq![
        QuadView {
            subject: uri,
            predicate: "http://www.w3.org/1999/02/22-rdf-syntax-ns#type"@,
            object: "http://www.w3.org/2002/07/owl#ObjectProperty"@,
        },
        QuadView {
            subject: uri,
            predicate: "https://lore-lang.org/v1/type"@,
            object: "https://lore-lang.org/v1/Attribute"@,
        },
    ]
}

/// The two statements of a relation: its predicate has the subject as
/// domain and the object as range.
pub open spec fn relation_quads(relation: RelationView) -> Seq<QuadView> {
    seq![
        QuadView {
            subject: relation.predicate.uri,
            predicate: "http://www.w3.org/2000/01/rdf-schema#domain"@,
            object: relation.subject.uri,
        },
        QuadView {
            subject: relation.predicate.uri,
            predicate: "http://www.w3.org/2000/01/rdf-schema#range"@,
            object: relation.object.uri,
        },
    ]
}

fn pair(first: Quad, second: Quad) -> (r: Vec<Quad>)
    ensures
        r.deep_view() == seq![first@, second@],
{
    let mut out: Vec<Quad> = Vec::new();
    out.push(first);
    out.push(second);
    out
}

/// A declaration as statements of the graph.
pub trait ToQuads {
    /// The statements that the declaration stands for.
    spec fn quads(&self) -> Seq<QuadView>;

    fn to_quads(&self) -> (r: Vec<Quad>)
        ensures
            r.deep_view() == self.quads(),
    ;
}

impl ToQuads for Kind {
    open spec fn quads(&self) -> Seq<QuadView> {
        kind_quads(self@.name.uri)
    }

    fn to_quads(&self) -> (r: Vec<Quad>) {
        let this = self.name.to_string();

        let owl_is_class = Quad {
            subject: this.clone(),
            predicate: String::from_str("http://www.w3.org/1999/02/22-rdf-syntax-ns#type"),
            object: String::from_str("http://www.w3.org/2002/07/owl#Class"),
        };

        let lore_is_kind = Quad {
            subject: this,
            predicate: String::from_str("https://lore-lang.org/v1/type"),
            object: String::from_str("https://lore-lang.org/v1/Kind"),
        };

        pair(owl_is_class, lore_is_kind)
    }
}

impl ToQuads for Attribute {
    open spec fn quads(&self) -> Seq<QuadView> {
        attribute_quads(self@.name.uri)
    }

    fn to_quads(&self) -> (r: Vec<Quad>) {
        let this = self.name.to_string();

        let owl_is_object_property = Quad {
            subject: this.clone(),
            predicate: String::from_str("http://www.w3.org/1999/02/22-rdf-syntax-ns#type"),
            object: String::from_str("http://www.w3.org/2002/07/owl#ObjectProperty"),
        };

        let lore_is_attribute = Quad {
            subject: this,
            predicate: String::from_str("https://lore-lang.org/v1/type"),
            object: String::from_str("https://lore-lang.org/v1/Attribute"),
        };

        pair(owl_is_object_property, lore_is_attribute)
    }
}

impl ToQuads for Relation {
    open spec fn quads(&self) -> Seq<QuadView> {
        relation_quads(self@)
    }

    fn to_quads(&self) -> (r: Vec<Quad>) {
        let this = self.predicate.to_string();

        let rdf_domain = Quad {
            subject: this.clone(),
            predicate: String::from_str("http://www.w3.org/2000/01/rdf-schema#domain"),
            object: self.subject.to_string(),
        };

        let rdf_range = Quad {
            subject: this,
            predicate: String::from_str("http://www.w3.org/2000/01/rdf-schema#range"),
            object: self.object.to_string(),
        };

        pair(rdf_domain, rdf_range)
    }
}

} // verus!
