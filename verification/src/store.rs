use vstd::prelude::*;
use vstd::string::StringExecFns;
use oxigraph::sparql::EvaluationError;
use oxigraph::MemoryStore;
use crate::ast::{Attribute, DeclarationView, Kind, Relation, RelationView, Structure, StructureView};
use crate::graph::{check_iri, graph_quads, insert_statement, is_iri, new_graph, select, Triple};
use crate::parser::{parse_text, ParseError, ParseErrorView, Parser};
use crate::quads::{attribute_quads, kind_quads, relation_quads, Quad, QuadView, ToQuads};
use crate::uri::URI;
use crate::validator::{validated, ValidationError, ValidationErrorView, Validator};

verus! {

/// What went wrong when text was added to a store or a query was run.
#[derive(Debug)]
pub enum StoreError {
    ParseError(ParseError),
    ValidationError(ValidationError),
    QueryError(EvaluationError),
    Runtime(String),
}

/// What a `StoreError` holds.
pub enum StoreErrorView {
    ParseError(ParseErrorView),
    ValidationError(ValidationErrorView),
    QueryError,
    Runtime(Seq<char>),
}

impl View for StoreError {
    type V = StoreErrorView;

    open spec fn view(&self) -> StoreErrorView {
        match self {
            StoreError::ParseError(e) => StoreErrorView::ParseError(e@),
            StoreError::ValidationError(e) => StoreErrorView::ValidationError(e@),
            StoreError::QueryError(_) => StoreErrorView::QueryError,
            StoreError::Runtime(text) => StoreErrorView::Runtime(text@),
        }
    }
}

/// The text that is put in front of each query: the prefixes that a query
/// may use.
pub open spec fn query_head() -> Seq<char> {
    "\n\nPREFIX lore: <https://lore-lang.org/v1/>\nPREFIX rdf: <http://www.w3.org/1999/02/22-rdf-syntax-ns#>\nPREFIX owl: <http://www.w3.org/2002/07/owl#>\nPREFIX rdfs: <http://www.w3.org/2000/01/rdf-schema#>\nPREFIX xsd: <http://www.w3.org/2001/XMLSchema#>\n\n"@
}

/// The text that is put behind each query.
pub open spec fn query_tail() -> Seq<char> {
    "\n        "@
}

/// The query `query` as it is run against the graph: with the prefixes in
/// front of it.
pub fn prepare_query(query: &str) -> (r: String)
    ensures
        r@ == query_head() + query@ + query_tail(),
{
    String::from_str(
        "\n\nPREFIX lore: <https://lore-lang.org/v1/>\nPREFIX rdf: <http://www.w3.org/1999/02/22-rdf-syntax-ns#>\nPREFIX owl: <http://www.w3.org/2002/07/owl#>\nPREFIX rdfs: <http://www.w3.org/2000/01/rdf-schema#>\nPREFIX xsd: <http://www.w3.org/2001/XMLSchema#>\n\n",
    ).concat(query).concat("\n        ")
}

/// What a `RelationGroup` holds.
pub struct GroupView {
    pub subject: Seq<char>,
    pub relations: Seq<RelationView>,
}

/// The relations that share one subject, in the order in which they were
/// added.
#[derive(Debug, PartialEq, Eq)]
pub struct RelationGroup {
    pub subject: URI,
    pub relations: Vec<Relation>,
}

impl View for RelationGroup {
    type V = GroupView;

    open spec fn view(&self) -> GroupView {
        GroupView { subject: self.subject@, relations: self.relations.deep_view() }
    }
}

impl DeepView for RelationGroup {
    type V = GroupView;

    open spec fn deep_view(&self) -> GroupView {
        self@
    }
}

/// What a `Store` holds.
pub struct StoreView {
    pub graph: Set<Triple>,
    pub groups: Seq<GroupView>,
    pub attributes: Seq<DeclarationView>,
    pub kinds: Seq<DeclarationView>,
}

/// Whether `i` is the first place in `items` of a declaration named `uri`.
pub open spec fn declared_at(items: Seq<DeclarationView>, uri: Seq<char>, i: int) -> bool {
    &&& 0 <= i < items.len()
    &&& items[i].name.uri == uri
    &&& forall|k: int| 0 <= k < i ==> (#[trigger] items[k]).name.uri != uri
}

/// Whether some declaration in `items` is named `uri`.
pub open spec fn declares(items: Seq<DeclarationView>, uri: Seq<char>) -> bool {
    exists|i: int| declared_at(items, uri, i)
}

/// `items` with `item` in the place of the declaration of the same name, or
/// at the end where there is none.
pub open spec fn with_declaration(items: Seq<DeclarationView>, item: DeclarationView) -> Seq<
    DeclarationView,
> {
    if declares(items, item.name.uri) {
        items.update(choose|i: int| declared_at(items, item.name.uri, i), item)
    } else {
        items.push(item)
    }
}

/// No two declarations in `items` have the same name.
pub open spec fn distinct_names(items: Seq<DeclarationView>) -> bool {
    forall|i: int, j: int|
        0 <= i < j < items.len() ==> (#[trigger] items[i]).name.uri != (#[trigger] items[j]).name.uri
}

/// Whether `i` is the first place in `groups` of the group of `subject`.
pub open spec fn grouped_at(groups: Seq<GroupView>, subject: Seq<char>, i: int) -> bool {
    &&& 0 <= i < groups.len()
    &&& groups[i].subject == subject
    &&& forall|k: int| 0 <= k < i ==> (#[trigger] groups[k]).subject != subject
}

/// Whether `groups` holds a group of `subject`.
pub open spec fn groups_subject(groups: Seq<GroupView>, subject: Seq<char>) -> bool {
    exists|i: int| grouped_at(groups, subject, i)
}

/// The relations of `subject` in `groups`; none where it has no group.
pub open spec fn relations_of_subject(groups: Seq<GroupView>, subject: Seq<char>) -> Seq<
    RelationView,
> {
    if groups_subject(groups, subject) {
        groups[choose|i: int| grouped_at(groups, subject, i)].relations
    } else {
        Seq::empty()
    }
}

/// `groups` with `relation` at the end of the group of its subject, or with
/// a new group at the end where its subject has none.
pub open spec fn with_relation(groups: Seq<GroupView>, relation: RelationView) -> Seq<GroupView> {
    let subject = relation.subject.uri;
    if groups_subject(groups, subject) {
        let i = choose|i: int| grouped_at(groups, subject, i);
        groups.update(i, GroupView { subject, relations: groups[i].relations.push(relation) })
    } else {
        groups.push(GroupView { subject, relations: seq![relation] })
    }
}

/// No two groups have the same subject.
pub open spec fn distinct_subjects(groups: Seq<GroupView>) -> bool {
    forall|i: int, j: int|
        0 <= i < j < groups.len() ==> (#[trigger] groups[i]).subject != (#[trigger] groups[j]).subject
}

/// The graph with the statements `quads`.
pub open spec fn with_quads(graph: Set<Triple>, quads: Seq<QuadView>) -> Set<Triple>
    decreases quads.len(),
{
    if quads.len() == 0 {
        graph
    } else {
        with_quads(graph, quads.drop_last()).insert(quads.last().triple())
    }
}

/// Whether the three texts of each of `quads` are IRIs.
pub open spec fn all_iris(quads: Seq<QuadView>) -> bool {
    forall|i: int|
        0 <= i < quads.len() ==> is_iri((#[trigger] quads[i]).subject) && is_iri(
            quads[i].predicate,
        ) && is_iri(quads[i].object)
}

/// Whether every name of `tree` that names a node of the graph is an
/// IRI, and with it the names of the vocabulary that the statements use.
pub open spec fn tree_has_iris(tree: StructureView) -> bool {
    &&& forall|i: int|
        0 <= i < tree.attributes.len() ==> all_iris(
            attribute_quads((#[trigger] tree.attributes[i]).name.uri),
        )
    &&& forall|i: int|
        0 <= i < tree.kinds.len() ==> all_iris(kind_quads((#[trigger] tree.kinds[i]).name.uri))
    &&& forall|i: int|
        0 <= i < tree.relations.len() ==> all_iris(relation_quads(#[trigger] tree.relations[i]))
}

/// What is said where a name that should name a node is no IRI.
pub open spec fn not_an_iri() -> Seq<char> {
    "a name is not an IRI"@
}

/// A row of a solution as texts: for each variable its name, a colon and
/// the term that is bound to it.
pub open spec fn row_texts(row: Seq<(Seq<char>, Seq<char>)>) -> Seq<Seq<char>> {
    row.map_values(|pair: (Seq<char>, Seq<char>)| pair.0 + ": "@ + pair.1)
}

/// What a row of a solution holds.
pub open spec fn row_view(row: Vec<(String, String)>) -> Seq<(Seq<char>, Seq<char>)> {
    row@.map_values(|pair: (String, String)| (pair.0@, pair.1@))
}

/// Whether `rows` are the solutions `found` as texts: one row of texts for
/// each row that was found, in order, and no row where the query was none
/// that selects.
pub open spec fn are_solution_texts(
    found: Option<Vec<Vec<(String, String)>>>,
    rows: Vec<Vec<String>>,
) -> bool {
    match found {
        Some(given) => rows.len() == given.len() && forall|i: int|
            0 <= i < given.len() ==> (#[trigger] rows@[i]).deep_view() == row_texts(
                row_view(given@[i]),
            ),
        None => rows.len() == 0,
    }
}

/// Whether `rows` are some solutions as texts.
pub open spec fn holds_solution_texts(rows: Vec<Vec<String>>) -> bool {
    exists|found: Option<Vec<Vec<(String, String)>>>| #[trigger] are_solution_texts(found, rows)
}

impl StoreView {
    /// The store with the attribute `item` and its statements.
    pub open spec fn add_attribute(self, item: DeclarationView) -> StoreView {
        StoreView {
            attributes: with_declaration(self.attributes, item),
            graph: with_quads(self.graph, attribute_quads(item.name.uri)),
            ..self
        }
    }

    /// The store with the kind `item` and its statements.
    pub open spec fn add_kind(self, item: DeclarationView) -> StoreView {
        StoreView {
            kinds: with_declaration(self.kinds, item),
            graph: with_quads(self.graph, kind_quads(item.name.uri)),
            ..self
        }
    }

    /// The store with the relation `item` in the group of its subject, and
    /// with its statements.
    pub open spec fn add_relation(self, item: RelationView) -> StoreView {
        StoreView {
            groups: with_relation(self.groups, item),
            graph: with_quads(self.graph, relation_quads(item)),
            ..self
        }
    }

    /// The store with the attributes `items`, added in order.
    pub open spec fn add_attributes(self, items: Seq<DeclarationView>) -> StoreView
        decreases items.len(),
    {
        if items.len() == 0 {
            self
        } else {
            self.add_attributes(items.drop_last()).add_attribute(items.last())
        }
    }

    /// The store with the kinds `items`, added in order.
    pub open spec fn add_kinds(self, items: Seq<DeclarationView>) -> StoreView
        decreases items.len(),
    {
        if items.len() == 0 {
            self
        } else {
            self.add_kinds(items.drop_last()).add_kind(items.last())
        }
    }

    /// The store with the relations `items`, added in order.
    pub open spec fn add_relations(self, items: Seq<RelationView>) -> StoreView
        decreases items.len(),
    {
        if items.len() == 0 {
            self
        } else {
            self.add_relations(items.drop_last()).add_relation(items.last())
        }
    }

    /// The store with the declarations of `tree`: the attributes first, then
    /// the kinds, then the relations, each in order.
    pub open spec fn add_tree(self, tree: StructureView) -> StoreView {
        self.add_attributes(tree.attributes).add_kinds(tree.kinds).add_relations(tree.relations)
    }

    /// No name is declared twice, and no subject has two groups.
    pub open spec fn wf(self) -> bool {
        &&& distinct_names(self.attributes)
        &&& distinct_names(self.kinds)
        &&& distinct_subjects(self.groups)
    }
}

/// The declarations of any number of files, each found by its URI, and the
/// graph of the statements that they stand for.
pub struct Store {
    graph: MemoryStore,
    relations_by_subject: Vec<RelationGroup>,
    attributes: Vec<Attribute>,
    kinds: Vec<Kind>,
}

impl View for Store {
    type V = StoreView;

    closed spec fn view(&self) -> StoreView {
        StoreView {
            graph: graph_quads(self.graph),
            groups: self.relations_by_subject.deep_view(),
            attributes: self.attributes.deep_view(),
            kinds: self.kinds.deep_view(),
        }
    }
}

fn insert_quads(graph: &mut MemoryStore, quads: Vec<Quad>)
    requires
        all_iris(quads.deep_view()),
    ensures
        graph_quads(*final(graph)) == with_quads(graph_quads(*old(graph)), quads.deep_view()),
{
    let ghost before = graph_quads(*graph);
    let mut i: usize = 0;
    while i < quads.len()
        invariant
            i <= quads.len(),
            all_iris(quads.deep_view()),
            graph_quads(*graph) == with_quads(before, quads.deep_view().take(i as int)),
        decreases quads.len() - i,
    {
        proof {
            let part = quads.deep_view().take(i + 1);
            assert(part.drop_last() =~= quads.deep_view().take(i as int));
            assert(part.last() == quads@[i as int]@);
        }
        let quad = &quads[i];
        insert_statement(
            graph,
            quad.subject.as_str(),
            quad.predicate.as_str(),
            quad.object.as_str(),
        );
        i += 1;
    }
    proof {
        assert(quads.deep_view().take(i as int) =~= quads.deep_view());
    }
}

fn are_iris(quads: &Vec<Quad>) -> (r: bool)
    ensures
        r == all_iris(quads.deep_view()),
{
    let mut i: usize = 0;
    while i < quads.len()
        invariant
            i <= quads.len(),
            all_iris(quads.deep_view().take(i as int)),
        decreases quads.len() - i,
    {
        let quad = &quads[i];
        proof {
            assert(quads.deep_view()[i as int] == quad@);
        }
        if !(check_iri(quad.subject.as_str()) && check_iri(quad.predicate.as_str()) && check_iri(
            quad.object.as_str(),
        )) {
            return false;
        }
        proof {
            let part = quads.deep_view().take(i + 1);
            assert forall|k: int| 0 <= k < part.len() implies is_iri((#[trigger] part[k]).subject)
                && is_iri(part[k].predicate) && is_iri(part[k].object) by {}
        }
        i += 1;
    }
    proof {
        assert(quads.deep_view().take(i as int) =~= quads.deep_view());
    }
    true
}

fn find_attribute(items: &Vec<Attribute>, uri: &URI) -> (r: Option<usize>)
    ensures
        match r {
            Some(i) => declared_at(items.deep_view(), uri@, i as int),
            None => !declares(items.deep_view(), uri@),
        },
{
    let mut i: usize = 0;
    while i < items.len()
        invariant
            i <= items.len(),
            forall|k: int| 0 <= k < i ==> (#[trigger] items.deep_view()[k]).name.uri != uri@,
        decreases items.len() - i,
    {
        if items[i].name.uri.same_as(uri) {
            return Some(i);
        }
        i += 1;
    }
    None
}

fn find_kind(items: &Vec<Kind>, uri: &URI) -> (r: Option<usize>)
    ensures
        match r {
            Some(i) => declared_at(items.deep_view(), uri@, i as int),
            None => !declares(items.deep_view(), uri@),
        },
{
    let mut i: usize = 0;
    while i < items.len()
        invariant
            i <= items.len(),
            forall|k: int| 0 <= k < i ==> (#[trigger] items.deep_view()[k]).name.uri != uri@,
        decreases items.len() - i,
    {
        if items[i].name.uri.same_as(uri) {
            return Some(i);
        }
        i += 1;
    }
    None
}

fn find_group(groups: &Vec<RelationGroup>, subject: &URI) -> (r: Option<usize>)
    ensures
        match r {
            Some(i) => grouped_at(groups.deep_view(), subject@, i as int),
            None => !groups_subject(groups.deep_view(), subject@) && forall|k: int|
                0 <= k < groups.len() ==> (#[trigger] groups.deep_view()[k]).subject != subject@,
        },
{
    let mut i: usize = 0;
    while i < groups.len()
        invariant
            i <= groups.len(),
            forall|k: int| 0 <= k < i ==> (#[trigger] groups.deep_view()[k]).subject != subject@,
        decreases groups.len() - i,
    {
        if groups[i].subject.same_as(subject) {
            return Some(i);
        }
        i += 1;
    }
    None
}

/// The first place of a name is the only first place.
pub proof fn declared_at_once(items: Seq<DeclarationView>, uri: Seq<char>, i: int)
    requires
        declared_at(items, uri, i),
    ensures
        declares(items, uri),
        (choose|k: int| declared_at(items, uri, k)) == i,
{
}

/// The first place of a subject is the only first place.
pub proof fn grouped_at_once(groups: Seq<GroupView>, subject: Seq<char>, i: int)
    requires
        grouped_at(groups, subject, i),
    ensures
        groups_subject(groups, subject),
        (choose|k: int| grouped_at(groups, subject, k)) == i,
{
}

/// A name that stands somewhere in `items` has a first place there.
pub proof fn declared_somewhere(items: Seq<DeclarationView>, uri: Seq<char>, k: int)
    requires
        0 <= k < items.len(),
        items[k].name.uri == uri,
    ensures
        declares(items, uri),
    decreases k,
{
    if exists|j: int| 0 <= j < k && (#[trigger] items[j]).name.uri == uri {
        let j = choose|j: int| 0 <= j < k && (#[trigger] items[j]).name.uri == uri;
        declared_somewhere(items, uri, j);
    } else {
        assert(declared_at(items, uri, k));
    }
}

/// A subject that stands somewhere in `groups` has a first place there.
pub proof fn grouped_somewhere(groups: Seq<GroupView>, subject: Seq<char>, k: int)
    requires
        0 <= k < groups.len(),
        groups[k].subject == subject,
    ensures
        groups_subject(groups, subject),
    decreases k,
{
    if exists|j: int| 0 <= j < k && (#[trigger] groups[j]).subject == subject {
        let j = choose|j: int| 0 <= j < k && (#[trigger] groups[j]).subject == subject;
        grouped_somewhere(groups, subject, j);
    } else {
        assert(grouped_at(groups, subject, k));
    }
}

/// Adding a declaration leaves no name declared twice.
pub proof fn with_declaration_distinct(items: Seq<DeclarationView>, item: DeclarationView)
    requires
        distinct_names(items),
    ensures
        distinct_names(with_declaration(items, item)),
{
    let after = with_declaration(items, item);
    if declares(items, item.name.uri) {
        assert forall|i: int, j: int| 0 <= i < j < after.len() implies (#[trigger] after[i]).name.uri
            != (#[trigger] after[j]).name.uri by {}
    } else {
        assert forall|i: int, j: int| 0 <= i < j < after.len() implies (#[trigger] after[i]).name.uri
            != (#[trigger] after[j]).name.uri by {
            if j == items.len() {
                if items[i].name.uri == item.name.uri {
                    declared_somewhere(items, item.name.uri, i);
                }
            }
        }
    }
}

/// Adding a relation leaves no subject with two groups.
pub proof fn with_relation_distinct(groups: Seq<GroupView>, relation: RelationView)
    requires
        distinct_subjects(groups),
    ensures
        distinct_subjects(with_relation(groups, relation)),
{
    let after = with_relation(groups, relation);
    let subject = relation.subject.uri;
    if groups_subject(groups, subject) {
        assert forall|i: int, j: int| 0 <= i < j < after.len() implies (#[trigger] after[i]).subject
            != (#[trigger] after[j]).subject by {}
    } else {
        assert forall|i: int, j: int| 0 <= i < j < after.len() implies (#[trigger] after[i]).subject
            != (#[trigger] after[j]).subject by {
            if j == groups.len() {
                if groups[i].subject == subject {
                    grouped_somewhere(groups, subject, i);
                }
            }
        }
    }
}

/// Adding declarations keeps the store well formed: each name is still
/// declared once, and each subject has one group.
pub proof fn add_tree_keeps_wf(store: StoreView, tree: StructureView)
    requires
        store.wf(),
    ensures
        store.add_tree(tree).wf(),
{
    add_attributes_keeps_wf(store, tree.attributes);
    let with_attributes = store.add_attributes(tree.attributes);
    add_kinds_keeps_wf(with_attributes, tree.kinds);
    add_relations_keeps_wf(with_attributes.add_kinds(tree.kinds), tree.relations);
}

/// Adding attributes keeps the store well formed.
pub proof fn add_attributes_keeps_wf(store: StoreView, items: Seq<DeclarationView>)
    requires
        store.wf(),
    ensures
        store.add_attributes(items).wf(),
    decreases items.len(),
{
    if items.len() > 0 {
        add_attributes_keeps_wf(store, items.drop_last());
        let earlier = store.add_attributes(items.drop_last());
        with_declaration_distinct(earlier.attributes, items.last());
    }
}

/// Adding kinds keeps the store well formed.
pub proof fn add_kinds_keeps_wf(store: StoreView, items: Seq<DeclarationView>)
    requires
        store.wf(),
    ensures
        store.add_kinds(items).wf(),
    decreases items.len(),
{
    if items.len() > 0 {
        add_kinds_keeps_wf(store, items.drop_last());
        let earlier = store.add_kinds(items.drop_last());
        with_declaration_distinct(earlier.kinds, items.last());
    }
}

/// Adding relations keeps the store well formed.
pub proof fn add_relations_keeps_wf(store: StoreView, items: Seq<RelationView>)
    requires
        store.wf(),
    ensures
        store.add_relations(items).wf(),
    decreases items.len(),
{
    if items.len() > 0 {
        add_relations_keeps_wf(store, items.drop_last());
        let earlier = store.add_relations(items.drop_last());
        with_relation_distinct(earlier.groups, items.last());
    }
}

impl Default for Store {
    fn default() -> (r: Self)
        ensures
            r@ == (StoreView {
                graph: Set::empty(),
                groups: Seq::empty(),
                attributes: Seq::empty(),
                kinds: Seq::empty(),
            }),
            r@.wf(),
    {
        Store::new()
    }
}

impl Store {
    /// The store that holds nothing.
    pub fn new() -> (r: Store)
        ensures
            r@ == (StoreView {
                graph: Set::empty(),
                groups: Seq::empty(),
                attributes: Seq::empty(),
                kinds: Seq::empty(),
            }),
            r@.wf(),
    {
        let r = Store {
            graph: new_graph(),
            relations_by_subject: Vec::new(),
            attributes: Vec::new(),
            kinds: Vec::new(),
        };
        proof {
            assert(r.relations_by_subject.deep_view() =~= Seq::empty());
            assert(r.attributes.deep_view() =~= Seq::empty());
            assert(r.kinds.deep_view() =~= Seq::empty());
        }
        r
    }

    /// The kinds of the store, in the order in which their names were first
    /// added.
    pub fn kinds(&self) -> (r: Vec<&Kind>)
        ensures
            r.deep_view() == self@.kinds,
    {
        let mut out: Vec<&Kind> = Vec::new();
        let mut i: usize = 0;
        while i < self.kinds.len()
            invariant
                i <= self.kinds.len(),
                out.len() == i,
                forall|k: int| 0 <= k < i ==> out@[k]@ == self.kinds@[k]@,
            decreases self.kinds.len() - i,
        {
            out.push(&self.kinds[i]);
            i += 1;
        }
        out
    }

    /// The attributes of the store, in the order in which their names were
    /// first added.
    pub fn attributes(&self) -> (r: Vec<&Attribute>)
        ensures
            r.deep_view() == self@.attributes,
    {
        let mut out: Vec<&Attribute> = Vec::new();
        let mut i: usize = 0;
        while i < self.attributes.len()
            invariant
                i <= self.attributes.len(),
                out.len() == i,
                forall|k: int| 0 <= k < i ==> out@[k]@ == self.attributes@[k]@,
            decreases self.attributes.len() - i,
        {
            out.push(&self.attributes[i]);
            i += 1;
        }
        out
    }

    /// The groups of relations, one for each subject, in the order in which
    /// the subjects were first added.
    pub fn groups(&self) -> (r: &Vec<RelationGroup>)
        ensures
            r.deep_view() == self@.groups,
    {
        &self.relations_by_subject
    }

    /// The relations whose subject is `subject`, in the order in which they
    /// were added; `None` where there is none.
    pub fn relations_of(&self, subject: &URI) -> (r: Option<&Vec<Relation>>)
        ensures
            match r {
                Some(relations) => groups_subject(self@.groups, subject@)
                    && relations.deep_view() == relations_of_subject(self@.groups, subject@),
                None => !groups_subject(self@.groups, subject@),
            },
    {
        match find_group(&self.relations_by_subject, subject) {
            Some(i) => {
                proof {
                    grouped_at_once(self@.groups, subject@, i as int);
                }
                Some(&self.relations_by_subject[i].relations)
            },
            None => None,
        }
    }

    fn add_attribute(&mut self, attribute: &Attribute)
        requires
            all_iris(attribute_quads(attribute@.name.uri)),
        ensures
            final(self)@ == old(self)@.add_attribute(attribute@),
    {
        let ghost before = self.attributes.deep_view();
        let uri = attribute.name.to_uri();
        match find_attribute(&self.attributes, &uri) {
            Some(i) => {
                proof {
                    declared_at_once(before, uri@, i as int);
                }
                self.attributes.set(i, attribute.clone());
                proof {
                    assert(self.attributes.deep_view() =~= before.update(i as int, attribute@));
                }
            },
            None => {
                self.attributes.push(attribute.clone());
                proof {
                    assert(self.attributes.deep_view() =~= before.push(attribute@));
                }
            },
        }
        insert_quads(&mut self.graph, attribute.to_quads());
    }

    fn add_kind(&mut self, kind: &Kind)
        requires
            all_iris(kind_quads(kind@.name.uri)),
        ensures
            final(self)@ == old(self)@.add_kind(kind@),
    {
        let ghost before = self.kinds.deep_view();
        let uri = kind.name.to_uri();
        match find_kind(&self.kinds, &uri) {
            Some(i) => {
                proof {
                    declared_at_once(before, uri@, i as int);
                }
                self.kinds.set(i, kind.clone());
                proof {
                    assert(self.kinds.deep_view() =~= before.update(i as int, kind@));
                }
            },
            None => {
                self.kinds.push(kind.clone());
                proof {
                    assert(self.kinds.deep_view() =~= before.push(kind@));
                }
            },
        }
        insert_quads(&mut self.graph, kind.to_quads());
    }

    fn add_relation(&mut self, relation: &Relation)
        requires
            all_iris(relation_quads(relation@)),
        ensures
            final(self)@ == old(self)@.add_relation(relation@),
    {
        let ghost before = self.relations_by_subject.deep_view();
        let subject = relation.subject.to_uri();
        match find_group(&self.relations_by_subject, &subject) {
            Some(i) => {
                proof {
                    grouped_at_once(before, subject@, i as int);
                }
                let mut relations = crate::ast::clone_relations(
                    &self.relations_by_subject[i].relations,
                );
                let ghost earlier = relations.deep_view();
                relations.push(relation.clone());
                proof {
                    assert(relations.deep_view() =~= earlier.push(relation@));
                }
                self.relations_by_subject.set(i, RelationGroup { subject, relations });
                proof {
                    assert(self.relations_by_subject.deep_view() =~= with_relation(
                        before,
                        relation@,
                    ));
                }
            },
            None => {
                let mut relations: Vec<Relation> = Vec::new();
                relations.push(relation.clone());
                proof {
                    assert(relations.deep_view() =~= seq![relation@]);
                }
                self.relations_by_subject.push(RelationGroup { subject, relations });
                proof {
                    assert(self.relations_by_subject.deep_view() =~= with_relation(
                        before,
                        relation@,
                    ));
                }
            },
        };
        insert_quads(&mut self.graph, relation.to_quads());
    }

    /// Adds the declarations of `ast` to the store: a declaration takes the
    /// place of an earlier one of the same name, and the statements of each
    /// declaration are added to the graph.
    pub fn add_tree(&mut self, ast: Structure) -> (r: Result<(), StoreError>)
        requires
            tree_has_iris(ast@),
        ensures
            r is Ok,
            final(self)@ == old(self)@.add_tree(ast@),
            old(self)@.wf() ==> final(self)@.wf(),
    {
        proof {
            if self@.wf() {
                add_tree_keeps_wf(self@, ast@);
            }
        }
        let mut i: usize = 0;
        while i < ast.attributes.len()
            invariant
                i <= ast.attributes.len(),
                tree_has_iris(ast@),
                self@ == old(self)@.add_attributes(ast.attributes.deep_view().take(i as int)),
            decreases ast.attributes.len() - i,
        {
            proof {
                let part = ast.attributes.deep_view().take(i + 1);
                assert(part.drop_last() =~= ast.attributes.deep_view().take(i as int));
                assert(part.last() == ast.attributes@[i as int]@);
            }
            self.add_attribute(&ast.attributes[i]);
            i += 1;
        }
        proof {
            assert(ast.attributes.deep_view().take(i as int) =~= ast.attributes.deep_view());
        }
        let ghost with_attributes = self@;
        let mut i: usize = 0;
        while i < ast.kinds.len()
            invariant
                i <= ast.kinds.len(),
                tree_has_iris(ast@),
                self@ == with_attributes.add_kinds(ast.kinds.deep_view().take(i as int)),
            decreases ast.kinds.len() - i,
        {
            proof {
                let part = ast.kinds.deep_view().take(i + 1);
                assert(part.drop_last() =~= ast.kinds.deep_view().take(i as int));
                assert(part.last() == ast.kinds@[i as int]@);
            }
            self.add_kind(&ast.kinds[i]);
            i += 1;
        }
        proof {
            assert(ast.kinds.deep_view().take(i as int) =~= ast.kinds.deep_view());
        }
        let ghost with_kinds = self@;
        let mut i: usize = 0;
        while i < ast.relations.len()
            invariant
                i <= ast.relations.len(),
                tree_has_iris(ast@),
                self@ == with_kinds.add_relations(ast.relations.deep_view().take(i as int)),
            decreases ast.relations.len() - i,
        {
            proof {
                let part = ast.relations.deep_view().take(i + 1);
                assert(part.drop_last() =~= ast.relations.deep_view().take(i as int));
                assert(ast@.relations[i as int] == ast.relations@[i as int]@);
            }
            self.add_relation(&ast.relations[i]);
            i += 1;
        }
        proof {
            assert(ast.relations.deep_view().take(i as int) =~= ast.relations.deep_view());
        }
        Ok(())
    }

    /// Whether every name of `ast` that names a node of the graph is an
    /// IRI.
    pub fn has_iris(ast: &Structure) -> (r: bool)
        ensures
            r == tree_has_iris(ast@),
    {
        let mut i: usize = 0;
        while i < ast.attributes.len()
            invariant
                i <= ast.attributes.len(),
                forall|k: int|
                    0 <= k < i ==> all_iris(
                        attribute_quads((#[trigger] ast@.attributes[k]).name.uri),
                    ),
            decreases ast.attributes.len() - i,
        {
            proof {
                assert(ast@.attributes[i as int] == ast.attributes@[i as int]@);
            }
            if !are_iris(&ast.attributes[i].to_quads()) {
                return false;
            }
            i += 1;
        }
        let mut i: usize = 0;
        while i < ast.kinds.len()
            invariant
                i <= ast.kinds.len(),
                forall|k: int|
                    0 <= k < ast@.attributes.len() ==> all_iris(
                        attribute_quads((#[trigger] ast@.attributes[k]).name.uri),
                    ),
                forall|k: int|
                    0 <= k < i ==> all_iris(kind_quads((#[trigger] ast@.kinds[k]).name.uri)),
            decreases ast.kinds.len() - i,
        {
            proof {
                assert(ast@.kinds[i as int] == ast.kinds@[i as int]@);
            }
            if !are_iris(&ast.kinds[i].to_quads()) {
                return false;
            }
            i += 1;
        }
        let mut i: usize = 0;
        while i < ast.relations.len()
            invariant
                i <= ast.relations.len(),
                forall|k: int|
                    0 <= k < ast@.attributes.len() ==> all_iris(
                        attribute_quads((#[trigger] ast@.attributes[k]).name.uri),
                    ),
                forall|k: int|
                    0 <= k < ast@.kinds.len() ==> all_iris(
                        kind_quads((#[trigger] ast@.kinds[k]).name.uri),
                    ),
                forall|k: int|
                    0 <= k < i ==> all_iris(relation_quads(#[trigger] ast@.relations[k])),
            decreases ast.relations.len() - i,
        {
            proof {
                assert(ast@.relations[i as int] == ast.relations@[i as int]@);
            }
            if !are_iris(&ast.relations[i].to_quads()) {
                return false;
            }
            i += 1;
        }
        true
    }

    /// Adds the declarations of `ast` to the store where every name that
    /// names a node of the graph is an IRI. Where one is not, the store
    /// stays as it was.
    pub fn try_add_tree(&mut self, ast: Structure) -> (r: Result<(), StoreError>)
        ensures
            if tree_has_iris(ast@) {
                r is Ok && final(self)@ == old(self)@.add_tree(ast@)
            } else {
                r matches Err(e) && e@ == StoreErrorView::Runtime(not_an_iri()) && final(self)@
                    == old(self)@
            },
            old(self)@.wf() ==> final(self)@.wf(),
    {
        if Store::has_iris(&ast) {
            self.add_tree(ast)
        } else {
            Err(StoreError::Runtime(String::from_str("a name is not an IRI")))
        }
    }

    /// Parses and validates the text `src` and adds its declarations to the
    /// store. Where the text does not parse, a name cannot be resolved, or
    /// a name that names a node of the graph is no IRI, the store stays as
    /// it was.
    pub fn add_from_string(&mut self, src: &str) -> (r: Result<(), StoreError>)
        ensures
            match parse_text("tmp"@, src@) {
                Err(error) => r matches Err(e) && e@ == StoreErrorView::ParseError(error)
                    && final(self)@ == old(self)@,
                Ok(tree) => match validated(tree) {
                    Err(error) => r matches Err(e) && e@ == StoreErrorView::ValidationError(error)
                        && final(self)@ == old(self)@,
                    Ok(declarations) => if tree_has_iris(declarations) {
                        r is Ok && final(self)@ == old(self)@.add_tree(declarations)
                    } else {
                        r matches Err(e) && e@ == StoreErrorView::Runtime(not_an_iri())
                            && final(self)@ == old(self)@
                    },
                },
            },
            old(self)@.wf() ==> final(self)@.wf(),
    {
        let mut parser = match Parser::for_string("tmp", src) {
            Ok(parser) => parser,
            Err(e) => {
                return Err(StoreError::ParseError(e));
            },
        };
        let parsetree = match parser.parse() {
            Ok(tree) => tree,
            Err(e) => {
                return Err(StoreError::ParseError(e));
            },
        };
        let validator = Validator::new();
        let ast = match validator.validate(parsetree) {
            Ok(ast) => ast,
            Err(e) => {
                return Err(StoreError::ValidationError(e));
            },
        };
        self.try_add_tree(ast)
    }

    /// The rows that a query selects, each as texts.
    pub fn format_solutions(found: Option<Vec<Vec<(String, String)>>>) -> (r: Vec<Vec<String>>)
        ensures
            are_solution_texts(found, r),
    {
        let mut results: Vec<Vec<String>> = Vec::new();
        if let Some(rows) = found {
            let mut i: usize = 0;
            while i < rows.len()
                invariant
                    i <= rows.len(),
                    results.len() == i,
                    forall|k: int|
                        0 <= k < i ==> (#[trigger] results@[k]).deep_view() == row_texts(
                            row_view(rows@[k]),
                        ),
                decreases rows.len() - i,
            {
                let row = &rows[i];
                let mut vars: Vec<String> = Vec::new();
                let mut j: usize = 0;
                while j < row.len()
                    invariant
                        j <= row.len(),
                        vars.len() == j,
                        forall|k: int|
                            0 <= k < j ==> (#[trigger] vars@[k])@ == row@[k].0@ + ": "@
                                + row@[k].1@,
                    decreases row.len() - j,
                {
                    let pair = &row[j];
                    vars.push(pair.0.clone().concat(": ").concat(pair.1.as_str()));
                    j += 1;
                }
                results.push(vars);
                i += 1;
            }
        }
        results
    }

    /// Runs the query `query` against the graph, with the prefixes of the
    /// vocabulary in front of it. The rows of a `SELECT` query come back as
    /// texts, one for each variable; any other form of query gives no row.
    /// Which solutions the graph store finds is its own matter: whatever it
    /// finds, the rows are those solutions as texts, and where it fails, the
    /// error is that of the query.
    pub fn query(&self, query: &str) -> (r: Result<Vec<Vec<String>>, StoreError>)
        ensures
            match r {
                Ok(rows) => holds_solution_texts(rows),
                Err(e) => e@ == StoreErrorView::QueryError,
            },
    {
        let query = prepare_query(query);
        match select(&self.graph, query.as_str()) {
            Ok(found) => {
                let ghost given = found;
                let rows = Store::format_solutions(found);
                proof {
                    assert(are_solution_texts(given, rows));
                }
                Ok(rows)
            },
            Err(e) => Err(StoreError::QueryError(e)),
        }
    }
}

} // verus!
