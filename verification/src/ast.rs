use vstd::prelude::*;
use vstd::string::StringExecFns;
use crate::text::{clone_optional, decimal_string, decimal_text, optional_text};
use crate::uri::{is_prefixed_text, unresolved_text, URI};

verus! {

/// What a `Name` holds: the bare alias it was written as, if any, and the
/// text of its URI.
pub struct NameView {
    pub alias: Option<Seq<char>>,
    pub uri: Seq<char>,
}

impl NameView {
    /// The name was written as a bare alias and has no URI yet.
    pub open spec fn is_pending(self) -> bool {
        self.uri == unresolved_text()
    }

    /// The name has a URI that starts with `@` and awaits the substitution
    /// of a prefix.
    pub open spec fn is_prefixed(self) -> bool {
        is_prefixed_text(self.uri)
    }

    /// The name carries its final URI.
    pub open spec fn is_absolute(self) -> bool {
        !self.is_pending() && !self.is_prefixed()
    }

    /// The name is pending or prefixed.
    pub open spec fn is_unresolved(self) -> bool {
        self.is_pending() || self.is_prefixed()
    }
}

/// A name is in exactly one of its three states.
pub proof fn name_has_one_state(name: NameView)
    ensures
        name.is_absolute() || name.is_pending() || name.is_prefixed(),
        !(name.is_absolute() && name.is_pending()),
        !(name.is_absolute() && name.is_prefixed()),
        !(name.is_pending() && name.is_prefixed()),
        name.is_unresolved() <==> !name.is_absolute(),
{
    reveal_strlit("lore:uri:unresolved");
}

/// A reference to a declared entity.
#[derive(Debug, PartialEq, Eq, PartialOrd, Ord)]
pub struct Name {
    pub alias: Option<String>,
    pub uri: URI,
}

impl View for Name {
    type V = NameView;

    open spec fn view(&self) -> NameView {
        NameView { alias: optional_text(self.alias), uri: self.uri@ }
    }
}

impl DeepView for Name {
    type V = NameView;

    open spec fn deep_view(&self) -> NameView {
        self@
    }
}

impl Clone for Name {
    fn clone(&self) -> (r: Self)
        ensures
            r@ == self@,
    {
        Name { alias: clone_optional(&self.alias), uri: self.uri.clone() }
    }
}

impl Default for Name {
    fn default() -> (r: Self)
        ensures
            r@ == (NameView { alias: None, uri: Seq::<char>::empty() }),
    {
        Name { alias: None, uri: URI::default() }
    }
}

impl Name {
    /// The name that carries `uri` and no alias.
    pub fn of_uri(uri: &URI) -> (r: Name)
        ensures
            r@ == (NameView { alias: None, uri: uri@ }),
    {
        Name { uri: uri.clone(), alias: None }
    }

    pub fn to_uri(&self) -> (r: URI)
        ensures
            r@ == self@.uri,
    {
        self.uri.clone()
    }

    /// Gives the name the URI `uri`; the alias it was written as stays.
    pub fn set_uri(&mut self, uri: &URI)
        ensures
            final(self)@ == (NameView { alias: old(self)@.alias, uri: uri@ }),
    {
        self.uri = uri.clone();
    }

    /// Whether the name is pending or prefixed, that is, not absolute.
    pub fn is_unresolved(&self) -> (r: bool)
        ensures
            r == self@.is_unresolved(),
    {
        let pending = self.uri.same_as(&URI::unresolved());
        pending || self.uri.is_prefixed()
    }

    /// The pending name written as the bare alias `alias`.
    pub fn unresolved_alias(alias: &str) -> (r: Name)
        ensures
            r@ == (NameView { alias: Some(alias@), uri: unresolved_text() }),
    {
        Name { uri: URI::unresolved(), alias: Some(String::from_str(alias)) }
    }

    /// The text of the name's URI.
    pub fn to_string(&self) -> (r: String)
        ensures
            r@ == self@.uri,
    {
        self.uri.to_string()
    }
}

/// A copy of a list of names.
pub fn clone_names(names: &Vec<Name>) -> (r: Vec<Name>)
    ensures
        r.deep_view() == names.deep_view(),
{
    let mut out: Vec<Name> = Vec::new();
    let mut i: usize = 0;
    while i < names.len()
        invariant
            i <= names.len(),
            out.len() == i,
            forall|k: int| 0 <= k < i ==> out@[k]@ == names@[k]@,
        decreases names.len() - i,
    {
        out.push(names[i].clone());
        i += 1;
    }
    out
}

/// What a `Literal` holds.
pub enum LiteralView {
    Number(u64),
    String(Seq<char>),
    Name(NameView),
}

impl LiteralView {
    /// The literal as text: the decimal numeral, the string itself, or the
    /// URI of the name.
    pub open spec fn text(self) -> Seq<char> {
        match self {
            LiteralView::Number(n) => decimal_text(n as nat),
            LiteralView::String(s) => s,
            LiteralView::Name(n) => n.uri,
        }
    }
}

/// The value of a field.
#[derive(Debug, PartialEq, Eq, PartialOrd, Ord)]
pub enum Literal {
    Number(u64),
    String(String),
    Name(Name),
}

impl View for Literal {
    type V = LiteralView;

    open spec fn view(&self) -> LiteralView {
        match self {
            Literal::Number(n) => LiteralView::Number(*n),
            Literal::String(s) => LiteralView::String(s@),
            Literal::Name(n) => LiteralView::Name(n@),
        }
    }
}

impl DeepView for Literal {
    type V = LiteralView;

    open spec fn deep_view(&self) -> LiteralView {
        self@
    }
}

impl Clone for Literal {
    fn clone(&self) -> (r: Self)
        ensures
            r@ == self@,
    {
        match self {
            Literal::Number(n) => Literal::Number(*n),
            Literal::String(s) => Literal::String(s.clone()),
            Literal::Name(n) => Literal::Name(n.clone()),
        }
    }
}

impl Literal {
    pub fn to_string(&self) -> (r: String)
        ensures
            r@ == self@.text(),
    {
        match self {
            Literal::Number(n) => decimal_string(*n),
            Literal::String(s) => s.clone(),
            Literal::Name(n) => n.to_string(),
        }
    }
}

/// What a `Field` holds.
pub struct FieldView {
    pub name: NameView,
    pub value: LiteralView,
}

/// A piece of metadata attached to a declaration.
#[derive(Debug, PartialEq, Eq, PartialOrd, Ord)]
pub struct Field {
    pub name: Name,
    pub value: Literal,
}

impl View for Field {
    type V = FieldView;

    open spec fn view(&self) -> FieldView {
        FieldView { name: self.name@, value: self.value@ }
    }
}

impl DeepView for Field {
    type V = FieldView;

    open spec fn deep_view(&self) -> FieldView {
        self@
    }
}

impl Clone for Field {
    fn clone(&self) -> (r: Self)
        ensures
            r@ == self@,
    {
        Field { name: self.name.clone(), value: self.value.clone() }
    }
}

/// A copy of a list of fields.
pub fn clone_fields(fields: &Vec<Field>) -> (r: Vec<Field>)
    ensures
        r.deep_view() == fields.deep_view(),
{
    let mut out: Vec<Field> = Vec::new();
    let mut i: usize = 0;
    while i < fields.len()
        invariant
            i <= fields.len(),
            out.len() == i,
            forall|k: int| 0 <= k < i ==> out@[k]@ == fields@[k]@,
        decreases fields.len() - i,
    {
        out.push(fields[i].clone());
        i += 1;
    }
    out
}

/// What an `Attribute` or a `Kind` holds.
pub struct DeclarationView {
    pub name: NameView,
    pub fields: Seq<FieldView>,
}

/// A declared property.
#[derive(Debug, PartialEq, Eq, PartialOrd, Ord)]
pub struct Attribute {
    pub name: Name,
    pub fields: Vec<Field>,
}

impl View for Attribute {
    type V = DeclarationView;

    open spec fn view(&self) -> DeclarationView {
        DeclarationView { name: self.name@, fields: self.fields.deep_view() }
    }
}

impl DeepView for Attribute {
    type V = DeclarationView;

    open spec fn deep_view(&self) -> DeclarationView {
        self@
    }
}

impl Clone for Attribute {
    fn clone(&self) -> (r: Self)
        ensures
            r@ == self@,
    {
        Attribute { name: self.name.clone(), fields: clone_fields(&self.fields) }
    }
}

/// A declared class.
#[derive(Debug, PartialEq, Eq, PartialOrd, Ord)]
pub struct Kind {
    pub name: Name,
    pub fields: Vec<Field>,
}

impl View for Kind {
    type V = DeclarationView;

    open spec fn view(&self) -> DeclarationView {
        DeclarationView { name: self.name@, fields: self.fields.deep_view() }
    }
}

impl DeepView for Kind {
    type V = DeclarationView;

    open spec fn deep_view(&self) -> DeclarationView {
        self@
    }
}

impl Clone for Kind {
    fn clone(&self) -> (r: Self)
        ensures
            r@ == self@,
    {
        Kind { name: self.name.clone(), fields: clone_fields(&self.fields) }
    }
}

/// What a `Relation` holds.
pub struct RelationView {
    pub subject: NameView,
    pub predicate: NameView,
    pub object: NameView,
    pub fields: Seq<FieldView>,
}

/// A statement template that connects two declarations.
#[derive(Debug, PartialEq, Eq, PartialOrd, Ord)]
pub struct Relation {
    pub subject: Name,
    pub predicate: Name,
    pub object: Name,
    pub fields: Vec<Field>,
}

impl View for Relation {
    type V = RelationView;

    open spec fn view(&self) -> RelationView {
        RelationView {
            subject: self.subject@,
            predicate: self.predicate@,
            object: self.object@,
            fields: self.fields.deep_view(),
        }
    }
}

impl DeepView for Relation {
    type V = RelationView;

    open spec fn deep_view(&self) -> RelationView {
        self@
    }
}

impl Clone for Relation {
    fn clone(&self) -> (r: Self)
        ensures
            r@ == self@,
    {
        Relation {
            subject: self.subject.clone(),
            predicate: self.predicate.clone(),
            object: self.object.clone(),
            fields: clone_fields(&self.fields),
        }
    }
}

/// What a resolved `Structure` holds.
pub struct StructureView {
    pub kinds: Seq<DeclarationView>,
    pub attributes: Seq<DeclarationView>,
    pub relations: Seq<RelationView>,
}

/// The declarations of one file.
#[derive(Debug, PartialEq, Eq)]
pub struct Structure {
    pub kinds: Vec<Kind>,
    pub attributes: Vec<Attribute>,
    pub relations: Vec<Relation>,
}

impl View for Structure {
    type V = StructureView;

    open spec fn view(&self) -> StructureView {
        StructureView {
            kinds: self.kinds.deep_view(),
            attributes: self.attributes.deep_view(),
            relations: self.relations.deep_view(),
        }
    }
}

/// A copy of a list of kinds.
pub fn clone_kinds(items: &Vec<Kind>) -> (r: Vec<Kind>)
    ensures
        r.deep_view() == items.deep_view(),
{
    let mut out: Vec<Kind> = Vec::new();
    let mut i: usize = 0;
    while i < items.len()
        invariant
            i <= items.len(),
            out.len() == i,
            forall|k: int| 0 <= k < i ==> out@[k]@ == items@[k]@,
        decreases items.len() - i,
    {
        out.push(items[i].clone());
        i += 1;
    }
    out
}

/// A copy of a list of attributes.
pub fn clone_attributes(items: &Vec<Attribute>) -> (r: Vec<Attribute>)
    ensures
        r.deep_view() == items.deep_view(),
{
    let mut out: Vec<Attribute> = Vec::new();
    let mut i: usize = 0;
    while i < items.len()
        invariant
            i <= items.len(),
            out.len() == i,
            forall|k: int| 0 <= k < i ==> out@[k]@ == items@[k]@,
        decreases items.len() - i,
    {
        out.push(items[i].clone());
        i += 1;
    }
    out
}

/// A copy of a list of relations.
pub fn clone_relations(items: &Vec<Relation>) -> (r: Vec<Relation>)
    ensures
        r.deep_view() == items.deep_view(),
{
    let mut out: Vec<Relation> = Vec::new();
    let mut i: usize = 0;
    while i < items.len()
        invariant
            i <= items.len(),
            out.len() == i,
            forall|k: int| 0 <= k < i ==> out@[k]@ == items@[k]@,
        decreases items.len() - i,
    {
        out.push(items[i].clone());
        i += 1;
    }
    out
}

impl Clone for Structure {
    fn clone(&self) -> (r: Self)
        ensures
            r@ == self@,
    {
        Structure {
            kinds: clone_kinds(&self.kinds),
            attributes: clone_attributes(&self.attributes),
            relations: clone_relations(&self.relations),
        }
    }
}

impl Default for Structure {
    fn default() -> (r: Self)
        ensures
            r@ == (StructureView {
                kinds: Seq::empty(),
                attributes: Seq::empty(),
                relations: Seq::empty(),
            }),
    {
        let r = Structure { kinds: Vec::new(), attributes: Vec::new(), relations: Vec::new() };
        proof {
            assert(r.kinds.deep_view() =~= Seq::empty());
            assert(r.attributes.deep_view() =~= Seq::empty());
            assert(r.relations.deep_view() =~= Seq::empty());
        }
        r
    }
}

} // verus!
