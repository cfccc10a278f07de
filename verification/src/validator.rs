use vstd::prelude::*;
use vstd::string::StringExecFns;
use crate::ast;
use crate::ast::NameView;
use crate::parsetree::{lower_fields, Structure, StructureItem};
use crate::prefixes::PrefixMap;
use crate::resolution::{
    context_of, lowered, lowered_attributes, lowered_kinds, lowered_relations, missing,
    missing_in_declaration, missing_in_declarations, missing_in_field, missing_in_fields,
    missing_in_literal, missing_in_name, missing_in_relation, missing_in_relations, namespace_of,
    prefixes_of, resolved, resolved_uri, settled_declaration, settled_declarations,
    settled_field, settled_fields, settled_name, settled_relation, settled_relations,
    ContextView,
};
use crate::uri::URI;

verus! {

/// The text of an optional URI.
pub open spec fn optional_uri(uri: Option<URI>) -> Option<Seq<char>> {
    match uri {
        Some(uri) => Some(uri@),
        None => None,
    }
}

/// What the directives of a file say.
#[derive(Debug)]
pub struct Context {
    pub namespace: Option<URI>,
    pub prefixes: PrefixMap,
}

impl View for Context {
    type V = ContextView;

    open spec fn view(&self) -> ContextView {
        ContextView { namespace: optional_uri(self.namespace), prefixes: self.prefixes@ }
    }
}

/// The line that stands for one name in a list of names: its alias where
/// it has one, else its URI.
pub open spec fn name_line(name: NameView) -> Seq<char> {
    seq!['*', ' '] + match name.alias {
        Some(alias) => alias,
        None => name.uri,
    }
}

/// One line for each name, with a line feed between two lines.
pub open spec fn formatted_names(names: Seq<NameView>) -> Seq<char>
    decreases names.len(),
{
    if names.len() == 0 {
        Seq::empty()
    } else if names.len() == 1 {
        name_line(names[0])
    } else {
        formatted_names(names.drop_last()) + seq!['\n'] + name_line(names.last())
    }
}

/// A list of names as text, one to a line.
pub fn format_names(names: Vec<ast::Name>) -> (r: String)
    ensures
        r@ == formatted_names(names.deep_view()),
{
    let mut out = String::new();
    let mut i: usize = 0;
    proof {
        reveal_strlit("* ");
        reveal_strlit("\n");
    }
    while i < names.len()
        invariant
            i <= names.len(),
            "* "@ == seq!['*', ' '],
            "\n"@ == seq!['\n'],
            out@ == formatted_names(names.deep_view().take(i as int)),
        decreases names.len() - i,
    {
        let ghost part = names.deep_view().take(i + 1);
        proof {
            assert(part.drop_last() =~= names.deep_view().take(i as int));
        }
        if i > 0 {
            out.append("\n");
        }
        out.append("* ");
        let name = &names[i];
        match &name.alias {
            Some(alias) => out.append(alias.as_str()),
            None => out.append(name.to_string().as_str()),
        }
        i += 1;
    }
    proof {
        assert(names.deep_view().take(i as int) =~= names.deep_view());
    }
    out
}

/// What resolution found wrong.
#[derive(Debug, PartialEq, Eq)]
pub enum SemanticError {
    /// The names that cannot be resolved, once for each place where one
    /// stands.
    UnresolvedNames(Vec<ast::Name>),
}

/// What the error says of the names `names`.
pub open spec fn unresolved_message(names: Seq<NameView>) -> Seq<char> {
    "The follow names cannot be resolved: \n"@ + formatted_names(names)
        + "\nDid you forget to add a `prefix` alias or a `using` namespace?"@
}

impl SemanticError {
    /// The names that the error holds.
    pub open spec fn names(&self) -> Seq<NameView> {
        match self {
            SemanticError::UnresolvedNames(names) => names.deep_view(),
        }
    }

    /// What the error says to the writer of the file.
    pub fn to_string(&self) -> (r: String)
        ensures
            r@ == unresolved_message(self.names()),
    {
        match self {
            SemanticError::UnresolvedNames(names) => {
                let list = format_names(ast::clone_names(names));
                String::from_str("The follow names cannot be resolved: \n").concat(
                    list.as_str(),
                ).concat("\nDid you forget to add a `prefix` alias or a `using` namespace?")
            },
        }
    }
}

/// What a `ValidationError` holds.
pub struct ValidationErrorView {
    pub filename: Seq<char>,
    pub names: Seq<NameView>,
}

/// The names of a file that cannot be resolved, with the name of the file.
#[derive(Debug, PartialEq, Eq)]
pub struct ValidationError {
    pub filename: String,
    pub error: SemanticError,
}

impl View for ValidationError {
    type V = ValidationErrorView;

    open spec fn view(&self) -> ValidationErrorView {
        ValidationErrorView { filename: self.filename@, names: self.error.names() }
    }
}

/// What validating a parse tree gives: the declarations of the file with
/// every name resolved by the directives of the same file, or every name
/// that cannot be resolved.
pub open spec fn validated(tree: crate::parsetree::StructureView) -> Result<
    ast::StructureView,
    ValidationErrorView,
> {
    match resolved(context_of(tree.items), lowered(tree.items)) {
        Ok(declarations) => Ok(declarations),
        Err(names) => Err(ValidationErrorView { filename: tree.filename, names }),
    }
}

/// The resolver of names.
#[derive(Clone, Copy, Debug, Default, PartialEq, Eq)]
pub struct Validator {}

impl Validator {
    pub fn new() -> (r: Validator) {
        Validator {  }
    }

    /// Resolves every name of the parse tree by the directives of the tree.
    pub fn validate(&self, parsetree: Structure) -> (r: Result<ast::Structure, ValidationError>)
        ensures
            match validated(parsetree@) {
                Ok(declarations) => r matches Ok(found) && found@ == declarations,
                Err(error) => r matches Err(found) && found@ == error,
            },
    {
        let ctx = Validator::collect(parsetree.items());
        let tree = Validator::lower(parsetree.items());
        match Validator::resolve(&ctx, &tree) {
            Ok(declarations) => Ok(declarations),
            Err(names) => Err(
                ValidationError {
                    filename: parsetree.filename().clone(),
                    error: SemanticError::UnresolvedNames(names),
                },
            ),
        }
    }

    /// The first pass: what the directives of the file say.
    pub fn collect(items: &Vec<StructureItem>) -> (ctx: Context)
        ensures
            ctx@ == context_of(items.deep_view()),
    {
        let mut namespace: Option<URI> = None;
        let mut prefixes = PrefixMap::new();
        let mut i: usize = 0;
        while i < items.len()
            invariant
                i <= items.len(),
                optional_uri(namespace) == namespace_of(items.deep_view().take(i as int)),
                prefixes@ == prefixes_of(items.deep_view().take(i as int)),
            decreases items.len() - i,
        {
            proof {
                let part = items.deep_view().take(i + 1);
                assert(part.drop_last() =~= items.deep_view().take(i as int));
            }
            match &items[i] {
                StructureItem::Namespace { uri } => {
                    namespace = Some(uri.clone());
                },
                StructureItem::Alias { uri, prefix } => {
                    prefixes.insert(prefix.to_string(), uri.clone());
                },
                _ => {},
            }
            i += 1;
        }
        proof {
            assert(items.deep_view().take(i as int) =~= items.deep_view());
        }
        Context { namespace, prefixes }
    }

    /// The declarations of the file before any name is resolved.
    pub fn lower(items: &Vec<StructureItem>) -> (tree: ast::Structure)
        ensures
            tree@ == lowered(items.deep_view()),
    {
        let mut relations: Vec<ast::Relation> = Vec::new();
        let mut kinds: Vec<ast::Kind> = Vec::new();
        let mut attributes: Vec<ast::Attribute> = Vec::new();
        let mut i: usize = 0;
        while i < items.len()
            invariant
                i <= items.len(),
                kinds.deep_view() == lowered_kinds(items.deep_view().take(i as int)),
                attributes.deep_view() == lowered_attributes(items.deep_view().take(i as int)),
                relations.deep_view() == lowered_relations(items.deep_view().take(i as int)),
            decreases items.len() - i,
        {
            proof {
                let part = items.deep_view().take(i + 1);
                assert(part.drop_last() =~= items.deep_view().take(i as int));
            }
            match &items[i] {
                StructureItem::Kind { name, fields } => {
                    let kind = ast::Kind { name: name.lower(), fields: lower_fields(fields) };
                    kinds.push(kind);
                },
                StructureItem::Attribute { name, fields } => {
                    let attribute = ast::Attribute {
                        name: name.lower(),
                        fields: lower_fields(fields),
                    };
                    attributes.push(attribute);
                },
                StructureItem::Relation { subject, predicate, object, fields } => {
                    let relation = ast::Relation {
                        subject: subject.lower(),
                        predicate: predicate.lower(),
                        object: object.lower(),
                        fields: lower_fields(fields),
                    };
                    relations.push(relation);
                },
                _ => {},
            }
            i += 1;
        }
        proof {
            assert(items.deep_view().take(i as int) =~= items.deep_view());
        }
        ast::Structure { kinds, attributes, relations }
    }

    /// The second pass: every name of the declarations resolved by `ctx`,
    /// or every name that `ctx` cannot resolve.
    pub fn resolve(ctx: &Context, tree: &ast::Structure) -> (r: Result<
        ast::Structure,
        Vec<ast::Name>,
    >)
        ensures
            match resolved(ctx@, tree@) {
                Ok(declarations) => r matches Ok(found) && found@ == declarations,
                Err(names) => r matches Err(found) && found.deep_view() == names,
            },
    {
        let mut unaliased_names: Vec<ast::Name> = Vec::new();
        let attributes = Validator::resolve_attributes(&tree.attributes, ctx, &mut unaliased_names);
        let kinds = Validator::resolve_kinds(&tree.kinds, ctx, &mut unaliased_names);
        let relations = Validator::resolve_relations(&tree.relations, ctx, &mut unaliased_names);
        if unaliased_names.is_empty() {
            Ok(ast::Structure { kinds, attributes, relations })
        } else {
            Err(unaliased_names)
        }
    }

    /// The URI that the directives give to `name`. Where they give none,
    /// `name` is added to `unaliased_names`.
    pub fn normalize_prefixed_uri(
        name: &ast::Name,
        aliases: &PrefixMap,
        local_namespace: &Option<URI>,
        unaliased_names: &mut Vec<ast::Name>,
    ) -> (r: Option<URI>)
        ensures
            match resolved_uri(
                ContextView { namespace: optional_uri(*local_namespace), prefixes: aliases@ },
                name@,
            ) {
                Some(uri) => r matches Some(found) && found@ == uri
                    && final(unaliased_names).deep_view() == old(unaliased_names).deep_view(),
                None => r is None
                    && final(unaliased_names).deep_view() == old(unaliased_names).deep_view().push(name@),
            },
    {
        if let Some(alias) = &name.alias {
            if let Some(uri) = local_namespace {
                Some(uri.join(alias.as_str()))
            } else {
                unaliased_names.push(name.clone());
                None
            }
        } else {
            match aliases.expand(&name.uri) {
                Some(uri) => Some(uri),
                None => {
                    unaliased_names.push(name.clone());
                    None
                },
            }
        }
    }

    fn resolve_name(name: ast::Name, ctx: &Context, unaliased_names: &mut Vec<ast::Name>) -> (r:
        ast::Name)
        ensures
            r@ == settled_name(ctx@, name@),
            final(unaliased_names).deep_view() == old(unaliased_names).deep_view()
                + missing_in_name(ctx@, name@),
    {
        let mut name = name;
        if name.is_unresolved() {
            if let Some(uri) = Validator::normalize_prefixed_uri(
                &name,
                &ctx.prefixes,
                &ctx.namespace,
                unaliased_names,
            ) {
                name.set_uri(&uri);
            }
        }
        name
    }

    fn resolve_field(field: &ast::Field, ctx: &Context, unaliased_names: &mut Vec<ast::Name>) -> (r:
        ast::Field)
        ensures
            r@ == settled_field(ctx@, field@),
            final(unaliased_names).deep_view() == old(unaliased_names).deep_view()
                + missing_in_field(ctx@, field@),
    {
        let ghost before = unaliased_names.deep_view();
        let name = Validator::resolve_name(field.name.clone(), ctx, unaliased_names);
        let value = match &field.value {
            ast::Literal::Name(n) => ast::Literal::Name(
                Validator::resolve_name(n.clone(), ctx, unaliased_names),
            ),
            other => {
                other.clone()
            },
        };
        proof {
            assert(before + missing_in_name(ctx@, field@.name) + missing_in_literal(
                ctx@,
                field@.value,
            ) =~= before + missing_in_field(ctx@, field@));
        }
        ast::Field { name, value }
    }

    fn resolve_fields(
        fields: &Vec<ast::Field>,
        ctx: &Context,
        unaliased_names: &mut Vec<ast::Name>,
    ) -> (r: Vec<ast::Field>)
        ensures
            r.deep_view() == settled_fields(ctx@, fields.deep_view()),
            final(unaliased_names).deep_view() == old(unaliased_names).deep_view()
                + missing_in_fields(ctx@, fields.deep_view()),
    {
        let ghost before = unaliased_names.deep_view();
        let mut out: Vec<ast::Field> = Vec::new();
        let mut i: usize = 0;
        while i < fields.len()
            invariant
                i <= fields.len(),
                out.len() == i,
                forall|k: int| 0 <= k < i ==> out@[k]@ == settled_field(ctx@, fields@[k]@),
                unaliased_names.deep_view() == before + missing_in_fields(
                    ctx@,
                    fields.deep_view().take(i as int),
                ),
            decreases fields.len() - i,
        {
            let ghost so_far = missing_in_fields(ctx@, fields.deep_view().take(i as int));
            proof {
                let part = fields.deep_view().take(i + 1);
                assert(part.drop_last() =~= fields.deep_view().take(i as int));
            }
            let field = Validator::resolve_field(&fields[i], ctx, unaliased_names);
            out.push(field);
            proof {
                assert(before + so_far + missing_in_field(ctx@, fields@[i as int]@) =~= before + (
                so_far + missing_in_field(ctx@, fields@[i as int]@)));
            }
            i += 1;
        }
        proof {
            assert(fields.deep_view().take(i as int) =~= fields.deep_view());
        }
        out
    }

    fn resolve_attributes(
        items: &Vec<ast::Attribute>,
        ctx: &Context,
        unaliased_names: &mut Vec<ast::Name>,
    ) -> (r: Vec<ast::Attribute>)
        ensures
            r.deep_view() == settled_declarations(ctx@, items.deep_view()),
            final(unaliased_names).deep_view() == old(unaliased_names).deep_view()
                + missing_in_declarations(ctx@, items.deep_view()),
    {
        let ghost before = unaliased_names.deep_view();
        let mut out: Vec<ast::Attribute> = Vec::new();
        let mut i: usize = 0;
        while i < items.len()
            invariant
                i <= items.len(),
                out.len() == i,
                forall|k: int| 0 <= k < i ==> out@[k]@ == settled_declaration(ctx@, items@[k]@),
                unaliased_names.deep_view() == before + missing_in_declarations(
                    ctx@,
                    items.deep_view().take(i as int),
                ),
            decreases items.len() - i,
        {
            let ghost so_far = missing_in_declarations(ctx@, items.deep_view().take(i as int));
            proof {
                let part = items.deep_view().take(i + 1);
                assert(part.drop_last() =~= items.deep_view().take(i as int));
            }
            let item = &items[i];
            let name = Validator::resolve_name(item.name.clone(), ctx, unaliased_names);
            let fields = Validator::resolve_fields(&item.fields, ctx, unaliased_names);
            out.push(ast::Attribute { name, fields });
            proof {
                assert(before + so_far + missing_in_name(ctx@, item@.name) + missing_in_fields(
                    ctx@,
                    item@.fields,
                ) =~= before + (so_far + missing_in_declaration(ctx@, item@)));
            }
            i += 1;
        }
        proof {
            assert(items.deep_view().take(i as int) =~= items.deep_view());
        }
        out
    }

    fn resolve_kinds(
        items: &Vec<ast::Kind>,
        ctx: &Context,
        unaliased_names: &mut Vec<ast::Name>,
    ) -> (r: Vec<ast::Kind>)
        ensures
            r.deep_view() == settled_declarations(ctx@, items.deep_view()),
            final(unaliased_names).deep_view() == old(unaliased_names).deep_view()
                + missing_in_declarations(ctx@, items.deep_view()),
    {
        let ghost before = unaliased_names.deep_view();
        let mut out: Vec<ast::Kind> = Vec::new();
        let mut i: usize = 0;
        while i < items.len()
            invariant
                i <= items.len(),
                out.len() == i,
                forall|k: int| 0 <= k < i ==> out@[k]@ == settled_declaration(ctx@, items@[k]@),
                unaliased_names.deep_view() == before + missing_in_declarations(
                    ctx@,
                    items.deep_view().take(i as int),
                ),
            decreases items.len() - i,
        {
            let ghost so_far = missing_in_declarations(ctx@, items.deep_view().take(i as int));
            proof {
                let part = items.deep_view().take(i + 1);
                assert(part.drop_last() =~= items.deep_view().take(i as int));
            }
            let item = &items[i];
            let name = Validator::resolve_name(item.name.clone(), ctx, unaliased_names);
            let fields = Validator::resolve_fields(&item.fields, ctx, unaliased_names);
            out.push(ast::Kind { name, fields });
            proof {
                assert(before + so_far + missing_in_name(ctx@, item@.name) + missing_in_fields(
                    ctx@,
                    item@.fields,
                ) =~= before + (so_far + missing_in_declaration(ctx@, item@)));
            }
            i += 1;
        }
        proof {
            assert(items.deep_view().take(i as int) =~= items.deep_view());
        }
        out
    }

    fn resolve_relations(
        items: &Vec<ast::Relation>,
        ctx: &Context,
        unaliased_names: &mut Vec<ast::Name>,
    ) -> (r: Vec<ast::Relation>)
        ensures
            r.deep_view() == settled_relations(ctx@, items.deep_view()),
            final(unaliased_names).deep_view() == old(unaliased_names).deep_view()
                + missing_in_relations(ctx@, items.deep_view()),
    {
        let ghost before = unaliased_names.deep_view();
        let mut out: Vec<ast::Relation> = Vec::new();
        let mut i: usize = 0;
        while i < items.len()
            invariant
                i <= items.len(),
                out.len() == i,
                forall|k: int| 0 <= k < i ==> out@[k]@ == settled_relation(ctx@, items@[k]@),
                unaliased_names.deep_view() == before + missing_in_relations(
                    ctx@,
                    items.deep_view().take(i as int),
                ),
            decreases items.len() - i,
        {
            let ghost so_far = missing_in_relations(ctx@, items.deep_view().take(i as int));
            proof {
                let part = items.deep_view().take(i + 1);
                assert(part.drop_last() =~= items.deep_view().take(i as int));
            }
            let item = &items[i];
            let subject = Validator::resolve_name(item.subject.clone(), ctx, unaliased_names);
            let predicate = Validator::resolve_name(item.predicate.clone(), ctx, unaliased_names);
            let object = Validator::resolve_name(item.object.clone(), ctx, unaliased_names);
            let fields = Validator::resolve_fields(&item.fields, ctx, unaliased_names);
            out.push(ast::Relation { subject, predicate, object, fields });
            proof {
                assert(before + so_far + missing_in_name(ctx@, item@.subject) + missing_in_name(
                    ctx@,
                    item@.predicate,
                ) + missing_in_name(ctx@, item@.object) + missing_in_fields(ctx@, item@.fields)
                    =~= before + (so_far + missing_in_relation(ctx@, item@)));
            }
            i += 1;
        }
        proof {
            assert(items.deep_view().take(i as int) =~= items.deep_view());
        }
        out
    }
}

} // verus!
