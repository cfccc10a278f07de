use vstd::prelude::*;
use crate::ast;
use crate::uri::{unresolved_text, URI};

verus! {

/// A place in a source file.
#[derive(Debug, PartialEq, Eq)]
pub struct Pos {
    pub file: String,
    pub line: u32,
    pub col: u32,
}

impl Clone for Pos {
    fn clone(&self) -> (r: Self)
        ensures
            r.file@ == self.file@,
            r.line == self.line,
            r.col == self.col,
    {
        Pos { file: self.file.clone(), line: self.line, col: self.col }
    }
}

/// What a parsed `Name` holds.
pub enum NameView {
    URI(Seq<char>),
    Alias(Seq<char>),
}

impl NameView {
    /// The name as the resolver first sees it: a URI as it was written,
    /// without an alias; a bare alias as a pending name.
    pub open spec fn lowered(self) -> ast::NameView {
        match self {
            NameView::URI(uri) => ast::NameView { alias: None, uri },
            NameView::Alias(alias) => ast::NameView { alias: Some(alias), uri: unresolved_text() },
        }
    }
}

/// A name as it was written: a URI or a bare alias.
#[derive(Debug, PartialEq, Eq)]
pub enum Name {
    URI(URI),
    Alias(String),
}

impl View for Name {
    type V = NameView;

    open spec fn view(&self) -> NameView {
        match self {
            Name::URI(uri) => NameView::URI(uri@),
            Name::Alias(alias) => NameView::Alias(alias@),
        }
    }
}

impl DeepView for Name {
    type V = NameView;

    open spec fn deep_view(&self) -> NameView {
        self@
    }
}

impl Clone for Name {
    fn clone(&self) -> (r: Self)
        ensures
            r@ == self@,
    {
        match self {
            Name::URI(uri) => Name::URI(uri.clone()),
            Name::Alias(alias) => Name::Alias(alias.clone()),
        }
    }
}

impl Name {
    /// The name as the resolver first sees it.
    pub fn lower(&self) -> (r: ast::Name)
        ensures
            r@ == self@.lowered(),
    {
        match self {
            Name::URI(uri) => ast::Name::of_uri(uri),
            Name::Alias(alias) => ast::Name::unresolved_alias(alias.as_str()),
        }
    }
}

/// What a parsed `Literal` holds.
pub enum LiteralView {
    Number(u64),
    String(Seq<char>),
    Name(NameView),
}

impl LiteralView {
    /// The literal as the resolver first sees it.
    pub open spec fn lowered(self) -> ast::LiteralView {
        match self {
            LiteralView::Number(n) => ast::LiteralView::Number(n),
            LiteralView::String(s) => ast::LiteralView::String(s),
            LiteralView::Name(n) => ast::LiteralView::Name(n.lowered()),
        }
    }
}

/// The value of a field as it was written.
#[derive(Debug, PartialEq)]
pub enum Literal {
    Number(u64),
    String(String),
    Name(Name),
}

impl View for Literal {
    type V = LiteralView;

    open spec fn view(&self) -> LiteralView {
        match self {
            Literal::Number(n) => LiteralView::Number(*n),
            Literal::String(s) => LiteralView::String(s@),
            Literal::Name(n) => LiteralView::Name(n@),
        }
    }
}

impl DeepView for Literal {
    type V = LiteralView;

    open spec fn deep_view(&self) -> LiteralView {
        self@
    }
}

impl Clone for Literal {
    fn clone(&self) -> (r: Self)
        ensures
            r@ == self@,
    {
        match self {
            Literal::Number(n) => Literal::Number(*n),
            Literal::String(s) => Literal::String(s.clone()),
            Literal::Name(n) => Literal::Name(n.clone()),
        }
    }
}

impl Literal {
    /// The literal as the resolver first sees it.
    pub fn lower(&self) -> (r: ast::Literal)
        ensures
            r@ == self@.lowered(),
    {
        match self {
            Literal::Number(n) => ast::Literal::Number(*n),
            Literal::String(s) => ast::Literal::String(s.clone()),
            Literal::Name(n) => ast::Literal::Name(n.lower()),
        }
    }
}

/// What a parsed `Field` holds.
pub struct FieldView {
    pub name: NameView,
    pub value: LiteralView,
}

impl FieldView {
    /// The field as the resolver first sees it.
    pub open spec fn lowered(self) -> ast::FieldView {
        ast::FieldView { name: self.name.lowered(), value: self.value.lowered() }
    }
}

/// A field as it was written.
#[derive(Debug, PartialEq)]
pub struct Field {
    pub name: Name,
    pub value: Literal,
}

impl View for Field {
    type V = FieldView;

    open spec fn view(&self) -> FieldView {
        FieldView { name: self.name@, value: self.value@ }
    }
}

impl DeepView for Field {
    type V = FieldView;

    open spec fn deep_view(&self) -> FieldView {
        self@
    }
}

impl Clone for Field {
    fn clone(&self) -> (r: Self)
        ensures
            r@ == self@,
    {
        Field { name: self.name.clone(), value: self.value.clone() }
    }
}

impl Field {
    /// The field as the resolver first sees it.
    pub fn lower(&self) -> (r: ast::Field)
        ensures
            r@ == self@.lowered(),
    {
        ast::Field { name: self.name.lower(), value: self.value.lower() }
    }
}

/// The fields as the resolver first sees them.
pub open spec fn lowered_fields(fields: Seq<FieldView>) -> Seq<ast::FieldView> {
    fields.map_values(|f: FieldView| f.lowered())
}

/// The fields as the resolver first sees them.
pub fn lower_fields(fields: &Vec<Field>) -> (r: Vec<ast::Field>)
    ensures
        r.deep_view() == lowered_fields(fields.deep_view()),
{
    let mut out: Vec<ast::Field> = Vec::new();
    let mut i: usize = 0;
    while i < fields.len()
        invariant
            i <= fields.len(),
            out.len() == i,
            forall|k: int| 0 <= k < i ==> out@[k]@ == fields@[k]@.lowered(),
        decreases fields.len() - i,
    {
        out.push(fields[i].lower());
        i += 1;
    }
    out
}

/// A copy of a list of fields.
pub fn clone_fields(fields: &Vec<Field>) -> (r: Vec<Field>)
    ensures
        r.deep_view() == fields.deep_view(),
{
    let mut out: Vec<Field> = Vec::new();
    let mut i: usize = 0;
    while i < fields.len()
        invariant
            i <= fields.len(),
            out.len() == i,
            forall|k: int| 0 <= k < i ==> out@[k]@ == fields@[k]@,
        decreases fields.len() - i,
    {
        out.push(fields[i].clone());
        i += 1;
    }
    out
}

/// What a parsed item holds.
pub enum ItemView {
    Namespace { uri: Seq<char> },
    Comment(Seq<char>),
    Alias { uri: Seq<char>, prefix: Seq<char> },
    Kind { name: NameView, fields: Seq<FieldView> },
    Attribute { name: NameView, fields: Seq<FieldView> },
    Relation { subject: NameView, predicate: NameView, object: NameView, fields: Seq<FieldView> },
}

/// A top-level item of a file.
#[derive(Debug, PartialEq)]
pub enum StructureItem {
    Namespace { uri: URI },
    Comment(String),
    Alias { uri: URI, prefix: URI },
    Kind { name: Name, fields: Vec<Field> },
    Attribute { name: Name, fields: Vec<Field> },
    Relation { subject: Name, predicate: Name, object: Name, fields: Vec<Field> },
}

impl View for StructureItem {
    type V = ItemView;

    open spec fn view(&self) -> ItemView {
        match self {
            StructureItem::Namespace { uri } => ItemView::Namespace { uri: uri@ },
            StructureItem::Comment(text) => ItemView::Comment(text@),
            StructureItem::Alias { uri, prefix } => ItemView::Alias { uri: uri@, prefix: prefix@ },
            StructureItem::Kind { name, fields } => ItemView::Kind {
                name: name@,
                fields: fields.deep_view(),
            },
            StructureItem::Attribute { name, fields } => ItemView::Attribute {
                name: name@,
                fields: fields.deep_view(),
            },
            StructureItem::Relation { subject, predicate, object, fields } => ItemView::Relation {
                subject: subject@,
                predicate: predicate@,
                object: object@,
                fields: fields.deep_view(),
            },
        }
    }
}

impl DeepView for StructureItem {
    type V = ItemView;

    open spec fn deep_view(&self) -> ItemView {
        self@
    }
}

impl Clone for StructureItem {
    fn clone(&self) -> (r: Self)
        ensures
            r@ == self@,
    {
        match self {
            StructureItem::Namespace { uri } => StructureItem::Namespace { uri: uri.clone() },
            StructureItem::Comment(text) => StructureItem::Comment(text.clone()),
            StructureItem::Alias { uri, prefix } => StructureItem::Alias {
                uri: uri.clone(),
                prefix: prefix.clone(),
            },
            StructureItem::Kind { name, fields } => StructureItem::Kind {
                name: name.clone(),
                fields: clone_fields(fields),
            },
            StructureItem::Attribute { name, fields } => StructureItem::Attribute {
                name: name.clone(),
                fields: clone_fields(fields),
            },
            StructureItem::Relation { subject, predicate, object, fields } => {
                StructureItem::Relation {
                    subject: subject.clone(),
                    predicate: predicate.clone(),
                    object: object.clone(),
                    fields: clone_fields(fields),
                }
            },
        }
    }
}

/// What a parse tree holds.
pub struct StructureView {
    pub filename: Seq<char>,
    pub items: Seq<ItemView>,
}

/// The parse tree of one file: its items in the order in which they were
/// written, and the name of the file.
#[derive(Debug, PartialEq)]
pub struct Structure {
    filename: String,
    items: Vec<StructureItem>,
}

impl View for Structure {
    type V = StructureView;

    closed spec fn view(&self) -> StructureView {
        StructureView { filename: self.filename@, items: self.items.deep_view() }
    }
}

impl Clone for Structure {
    fn clone(&self) -> (r: Self)
        ensures
            r@ == self@,
    {
        let mut items: Vec<StructureItem> = Vec::new();
        let mut i: usize = 0;
        while i < self.items.len()
            invariant
                i <= self.items.len(),
                items.len() == i,
                forall|k: int| 0 <= k < i ==> items@[k]@ == self.items@[k]@,
            decreases self.items.len() - i,
        {
            items.push(self.items[i].clone());
            i += 1;
        }
        proof {
            assert(items.deep_view() =~= self.items.deep_view());
        }
        Structure { filename: self.filename.clone(), items }
    }
}

impl Default for Structure {
    fn default() -> (r: Self)
        ensures
            r@ == (StructureView { filename: Seq::empty(), items: Seq::empty() }),
    {
        let r = Structure { filename: String::new(), items: Vec::new() };
        proof {
            assert(r.items.deep_view() =~= Seq::empty());
        }
        r
    }
}

impl Structure {
    pub fn new(items: Vec<StructureItem>, filename: String) -> (r: Structure)
        ensures
            r@ == (StructureView { filename: filename@, items: items.deep_view() }),
    {
        Structure { items, filename }
    }

    pub fn items(&self) -> (r: &Vec<StructureItem>)
        ensures
            r.deep_view() == self@.items,
    {
        &self.items
    }

    pub fn filename(&self) -> (r: &String)
        ensures
            r@ == self@.filename,
    {
        &self.filename
    }
}

} // verus!
