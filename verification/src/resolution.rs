use vstd::prelude::*;
use crate::ast::{DeclarationView, FieldView, LiteralView, NameView, RelationView, StructureView};
use crate::parsetree;
use crate::parsetree::ItemView;
use crate::prefixes::expand_longest_alias;
use crate::unresolved::{missing_name_counted, names_of, occurrences};
use crate::uri::{is_prefixed_text, join_text, unresolved_text};

verus! {

/// What the directives of a file say: the local namespace, if one was
/// declared, and what each alias stands for.
pub struct ContextView {
    pub namespace: Option<Seq<char>>,
    pub prefixes: Map<Seq<char>, Seq<char>>,
}

/// The local namespace of a file: the URI of its last `using` directive.
pub open spec fn namespace_of(items: Seq<ItemView>) -> Option<Seq<char>>
    decreases items.len(),
{
    if items.len() == 0 {
        None
    } else {
        match items.last() {
            ItemView::Namespace { uri } => Some(uri),
            _ => namespace_of(items.drop_last()),
        }
    }
}

/// The aliases of a file: for each alias the URI of the last `prefix`
/// directive that declares it.
pub open spec fn prefixes_of(items: Seq<ItemView>) -> Map<Seq<char>, Seq<char>>
    decreases items.len(),
{
    if items.len() == 0 {
        Map::empty()
    } else {
        let earlier = prefixes_of(items.drop_last());
        match items.last() {
            ItemView::Alias { uri, prefix } => earlier.insert(prefix, uri),
            _ => earlier,
        }
    }
}

/// What the directives of a file say, wherever in the file they stand.
pub open spec fn context_of(items: Seq<ItemView>) -> ContextView {
    ContextView { namespace: namespace_of(items), prefixes: prefixes_of(items) }
}

/// The kinds of a file in the order in which they were written, as the
/// resolver first sees them.
pub open spec fn lowered_kinds(items: Seq<ItemView>) -> Seq<DeclarationView>
    decreases items.len(),
{
    if items.len() == 0 {
        Seq::empty()
    } else {
        let earlier = lowered_kinds(items.drop_last());
        match items.last() {
            ItemView::Kind { name, fields } => earlier.push(
                DeclarationView { name: name.lowered(), fields: parsetree::lowered_fields(fields) },
            ),
            _ => earlier,
        }
    }
}

/// The attributes of a file in the order in which they were written.
pub open spec fn lowered_attributes(items: Seq<ItemView>) -> Seq<DeclarationView>
    decreases items.len(),
{
    if items.len() == 0 {
        Seq::empty()
    } else {
        let earlier = lowered_attributes(items.drop_last());
        match items.last() {
            ItemView::Attribute { name, fields } => earlier.push(
                DeclarationView { name: name.lowered(), fields: parsetree::lowered_fields(fields) },
            ),
            _ => earlier,
        }
    }
}

/// The relations of a file in the order in which they were written.
pub open spec fn lowered_relations(items: Seq<ItemView>) -> Seq<RelationView>
    decreases items.len(),
{
    if items.len() == 0 {
        Seq::empty()
    } else {
        let earlier = lowered_relations(items.drop_last());
        match items.last() {
            ItemView::Relation { subject, predicate, object, fields } => earlier.push(
                RelationView {
                    subject: subject.lowered(),
                    predicate: predicate.lowered(),
                    object: object.lowered(),
                    fields: parsetree::lowered_fields(fields),
                },
            ),
            _ => earlier,
        }
    }
}

/// The declarations of a file before any name is resolved. Directives and
/// comments are left out.
pub open spec fn lowered(items: Seq<ItemView>) -> StructureView {
    StructureView {
        kinds: lowered_kinds(items),
        attributes: lowered_attributes(items),
        relations: lowered_relations(items),
    }
}

/// The URI that the directives give to a name that is not absolute: a name
/// written as a bare alias is joined to the local namespace; any other has
/// the longest alias at its start replaced. `None` where the directives
/// give it none.
pub open spec fn resolved_uri(ctx: ContextView, name: NameView) -> Option<Seq<char>> {
    match name.alias {
        Some(alias) => match ctx.namespace {
            Some(namespace) => Some(join_text(namespace, alias)),
            None => None,
        },
        None => expand_longest_alias(ctx.prefixes, name.uri),
    }
}

/// Whether the name is not absolute and the directives give it no URI.
pub open spec fn is_missing(ctx: ContextView, name: NameView) -> bool {
    name.is_unresolved() && resolved_uri(ctx, name) is None
}

/// The name after resolution: an absolute name as it is, any other with
/// the URI that the directives give it, or as it is where they give none.
pub open spec fn settled_name(ctx: ContextView, name: NameView) -> NameView {
    if name.is_unresolved() {
        match resolved_uri(ctx, name) {
            Some(uri) => NameView { alias: name.alias, uri },
            None => name,
        }
    } else {
        name
    }
}

/// The name itself where it cannot be resolved, else nothing.
pub open spec fn missing_in_name(ctx: ContextView, name: NameView) -> Seq<NameView> {
    if is_missing(ctx, name) {
        seq![name]
    } else {
        Seq::empty()
    }
}

/// The value after resolution: a name is resolved, any other value stays.
pub open spec fn settled_literal(ctx: ContextView, value: LiteralView) -> LiteralView {
    match value {
        LiteralView::Name(name) => LiteralView::Name(settled_name(ctx, name)),
        other => other,
    }
}

/// The value itself where it is a name that cannot be resolved.
pub open spec fn missing_in_literal(ctx: ContextView, value: LiteralView) -> Seq<NameView> {
    match value {
        LiteralView::Name(name) => missing_in_name(ctx, name),
        _ => Seq::empty(),
    }
}

/// The field after resolution: its name, and its value where that is a
/// name.
pub open spec fn settled_field(ctx: ContextView, field: FieldView) -> FieldView {
    FieldView { name: settled_name(ctx, field.name), value: settled_literal(ctx, field.value) }
}

/// The names of a field that cannot be resolved: its own name first, then
/// its value where that is a name.
pub open spec fn missing_in_field(ctx: ContextView, field: FieldView) -> Seq<NameView> {
    missing_in_name(ctx, field.name) + missing_in_literal(ctx, field.value)
}

/// The fields after resolution, in order.
pub open spec fn settled_fields(ctx: ContextView, fields: Seq<FieldView>) -> Seq<FieldView> {
    fields.map_values(|field: FieldView| settled_field(ctx, field))
}

/// The names of the fields that cannot be resolved, field by field.
pub open spec fn missing_in_fields(ctx: ContextView, fields: Seq<FieldView>) -> Seq<NameView>
    decreases fields.len(),
{
    if fields.len() == 0 {
        Seq::empty()
    } else {
        missing_in_fields(ctx, fields.drop_last()) + missing_in_field(ctx, fields.last())
    }
}

/// The declaration after resolution: its name and its fields.
pub open spec fn settled_declaration(ctx: ContextView, item: DeclarationView) -> DeclarationView {
    DeclarationView {
        name: settled_name(ctx, item.name),
        fields: settled_fields(ctx, item.fields),
    }
}

/// The names of a declaration that cannot be resolved: its own name first,
/// then those of its fields.
pub open spec fn missing_in_declaration(ctx: ContextView, item: DeclarationView) -> Seq<NameView> {
    missing_in_name(ctx, item.name) + missing_in_fields(ctx, item.fields)
}

/// The declarations after resolution, in order.
pub open spec fn settled_declarations(ctx: ContextView, items: Seq<DeclarationView>) -> Seq<
    DeclarationView,
> {
    items.map_values(|item: DeclarationView| settled_declaration(ctx, item))
}

/// The names of the declarations that cannot be resolved, declaration by
/// declaration.
pub open spec fn missing_in_declarations(ctx: ContextView, items: Seq<DeclarationView>) -> Seq<
    NameView,
>
    decreases items.len(),
{
    if items.len() == 0 {
        Seq::empty()
    } else {
        missing_in_declarations(ctx, items.drop_last()) + missing_in_declaration(ctx, items.last())
    }
}

/// The relation after resolution: its three names and its fields.
pub open spec fn settled_relation(ctx: ContextView, item: RelationView) -> RelationView {
    RelationView {
        subject: settled_name(ctx, item.subject),
        predicate: settled_name(ctx, item.predicate),
        object: settled_name(ctx, item.object),
        fields: settled_fields(ctx, item.fields),
    }
}

/// The names of a relation that cannot be resolved: subject, predicate
/// and object in this order, then those of its fields.
pub open spec fn missing_in_relation(ctx: ContextView, item: RelationView) -> Seq<NameView> {
    missing_in_name(ctx, item.subject) + missing_in_name(ctx, item.predicate) + missing_in_name(
        ctx,
        item.object,
    ) + missing_in_fields(ctx, item.fields)
}

/// The relations after resolution, in order.
pub open spec fn settled_relations(ctx: ContextView, items: Seq<RelationView>) -> Seq<RelationView> {
    items.map_values(|item: RelationView| settled_relation(ctx, item))
}

/// The names of the relations that cannot be resolved, relation by
/// relation.
pub open spec fn missing_in_relations(ctx: ContextView, items: Seq<RelationView>) -> Seq<NameView>
    decreases items.len(),
{
    if items.len() == 0 {
        Seq::empty()
    } else {
        missing_in_relations(ctx, items.drop_last()) + missing_in_relation(ctx, items.last())
    }
}

/// The declarations after resolution.
pub open spec fn settled(ctx: ContextView, tree: StructureView) -> StructureView {
    StructureView {
        kinds: settled_declarations(ctx, tree.kinds),
        attributes: settled_declarations(ctx, tree.attributes),
        relations: settled_relations(ctx, tree.relations),
    }
}

/// Every name of the declarations that cannot be resolved, once for each
/// place where it stands: those of the attributes first, then those of the
/// kinds, then those of the relations.
pub open spec fn missing(ctx: ContextView, tree: StructureView) -> Seq<NameView> {
    missing_in_declarations(ctx, tree.attributes) + missing_in_declarations(ctx, tree.kinds)
        + missing_in_relations(ctx, tree.relations)
}

/// What resolution gives: the declarations with every name resolved, or,
/// where some name cannot be resolved, all such names.
pub open spec fn resolved(ctx: ContextView, tree: StructureView) -> Result<
    StructureView,
    Seq<NameView>,
> {
    if missing(ctx, tree).len() == 0 {
        Ok(settled(ctx, tree))
    } else {
        Err(missing(ctx, tree))
    }
}

/// Resolution fails exactly where some name cannot be resolved, and then
/// gives all such names.
pub proof fn fails_with_missing_names(ctx: ContextView, tree: StructureView)
    ensures
        resolved(ctx, tree) is Err <==> missing(ctx, tree).len() > 0,
        resolved(ctx, tree) is Err ==> resolved(ctx, tree)->Err_0 == missing(ctx, tree),
        resolved(ctx, tree) is Ok ==> resolved(ctx, tree)->Ok_0 == settled(ctx, tree),
{
}

/// Whether the name of the field, and its value where that is a name, are
/// absolute.
pub open spec fn absolute_field(field: FieldView) -> bool {
    &&& field.name.is_absolute()
    &&& (field.value matches LiteralView::Name(name) ==> name.is_absolute())
}

/// Whether every name of the fields is absolute.
pub open spec fn absolute_fields(fields: Seq<FieldView>) -> bool {
    forall|i: int| 0 <= i < fields.len() ==> absolute_field(#[trigger] fields[i])
}

/// Whether the name of the declaration and every name of its fields are
/// absolute.
pub open spec fn absolute_declaration(item: DeclarationView) -> bool {
    item.name.is_absolute() && absolute_fields(item.fields)
}

/// Whether the three names of the relation and every name of its fields
/// are absolute.
pub open spec fn absolute_relation(item: RelationView) -> bool {
    &&& item.subject.is_absolute()
    &&& item.predicate.is_absolute()
    &&& item.object.is_absolute()
    &&& absolute_fields(item.fields)
}

/// Whether every name of the declarations is absolute.
pub open spec fn all_absolute(tree: StructureView) -> bool {
    &&& forall|i: int| 0 <= i < tree.kinds.len() ==> absolute_declaration(#[trigger] tree.kinds[i])
    &&& forall|i: int|
        0 <= i < tree.attributes.len() ==> absolute_declaration(#[trigger] tree.attributes[i])
    &&& forall|i: int|
        0 <= i < tree.relations.len() ==> absolute_relation(#[trigger] tree.relations[i])
}

proof fn absolute_fields_stay(ctx: ContextView, fields: Seq<FieldView>)
    requires
        absolute_fields(fields),
    ensures
        settled_fields(ctx, fields) == fields,
        missing_in_fields(ctx, fields) == Seq::<NameView>::empty(),
    decreases fields.len(),
{
    assert forall|i: int| 0 <= i < fields.len() implies settled_field(ctx, fields[i])
        == fields[i] by {}
    if fields.len() > 0 {
        assert(absolute_fields(fields.drop_last())) by {
            assert forall|i: int| 0 <= i < fields.drop_last().len() implies absolute_field(
                #[trigger] fields.drop_last()[i],
            ) by {}
        }
        absolute_fields_stay(ctx, fields.drop_last());
    }
}

proof fn absolute_declarations_stay(ctx: ContextView, items: Seq<DeclarationView>)
    requires
        forall|i: int| 0 <= i < items.len() ==> absolute_declaration(#[trigger] items[i]),
    ensures
        settled_declarations(ctx, items) == items,
        missing_in_declarations(ctx, items) == Seq::<NameView>::empty(),
    decreases items.len(),
{
    assert forall|i: int| 0 <= i < items.len() implies settled_declaration(ctx, items[i])
        == items[i] by {
        absolute_fields_stay(ctx, items[i].fields);
    }
    if items.len() > 0 {
        assert forall|i: int| 0 <= i < items.drop_last().len() implies absolute_declaration(
            #[trigger] items.drop_last()[i],
        ) by {}
        absolute_declarations_stay(ctx, items.drop_last());
        absolute_fields_stay(ctx, items.last().fields);
    }
}

proof fn absolute_relations_stay(ctx: ContextView, items: Seq<RelationView>)
    requires
        forall|i: int| 0 <= i < items.len() ==> absolute_relation(#[trigger] items[i]),
    ensures
        settled_relations(ctx, items) == items,
        missing_in_relations(ctx, items) == Seq::<NameView>::empty(),
    decreases items.len(),
{
    assert forall|i: int| 0 <= i < items.len() implies settled_relation(ctx, items[i])
        == items[i] by {
        absolute_fields_stay(ctx, items[i].fields);
    }
    if items.len() > 0 {
        assert forall|i: int| 0 <= i < items.drop_last().len() implies absolute_relation(
            #[trigger] items.drop_last()[i],
        ) by {}
        absolute_relations_stay(ctx, items.drop_last());
        absolute_fields_stay(ctx, items.last().fields);
    }
}

/// Resolution changes no absolute name: declarations whose names are all
/// absolute resolve to themselves, whatever the directives say.
pub proof fn absolute_names_stay(ctx: ContextView, tree: StructureView)
    requires
        all_absolute(tree),
    ensures
        resolved(ctx, tree) == Ok::<StructureView, Seq<NameView>>(tree),
{
    absolute_declarations_stay(ctx, tree.kinds);
    absolute_declarations_stay(ctx, tree.attributes);
    absolute_relations_stay(ctx, tree.relations);
}

/// Whether the directives give absolute URIs only: the local namespace
/// does not start with `@`, and what an alias stands for neither starts
/// with `@` nor is the start of the reserved URI of unresolved names.
pub open spec fn gives_absolute(ctx: ContextView) -> bool {
    &&& (ctx.namespace matches Some(namespace) ==> !is_prefixed_text(namespace))
    &&& forall|alias: Seq<char>| #[trigger]
        ctx.prefixes.contains_key(alias) ==> !is_prefixed_text(ctx.prefixes[alias])
            && !ctx.prefixes[alias].is_prefix_of(unresolved_text())
}

/// A name that such directives resolve is absolute afterwards.
pub proof fn settled_name_is_absolute(ctx: ContextView, name: NameView)
    requires
        gives_absolute(ctx),
        !is_missing(ctx, name),
    ensures
        settled_name(ctx, name).is_absolute(),
{
    reveal_strlit("lore:uri:unresolved");
    if name.is_unresolved() {
        let uri = resolved_uri(ctx, name)->0;
        match name.alias {
            Some(alias) => {
                let namespace = ctx.namespace->0;
                assert(uri[namespace.len() as int] == '/');
            },
            None => {
                crate::prefixes::longest_alias_is_longest(ctx.prefixes, name.uri, name.uri.len());
                let n = crate::prefixes::longest_alias(ctx.prefixes, name.uri, name.uri.len())->0;
                let alias = name.uri.take(n as int);
                assert(alias.is_prefix_of(name.uri));
            },
        }
    }
}

proof fn settled_fields_are_absolute(ctx: ContextView, fields: Seq<FieldView>)
    requires
        gives_absolute(ctx),
        missing_in_fields(ctx, fields).len() == 0,
    ensures
        absolute_fields(settled_fields(ctx, fields)),
    decreases fields.len(),
{
    if fields.len() > 0 {
        settled_fields_are_absolute(ctx, fields.drop_last());
        let last = fields.last();
        settled_name_is_absolute(ctx, last.name);
        match last.value {
            LiteralView::Name(name) => {
                settled_name_is_absolute(ctx, name);
            },
            _ => {},
        }
        assert forall|i: int| 0 <= i < fields.len() implies absolute_field(
            #[trigger] settled_fields(ctx, fields)[i],
        ) by {
            if i < fields.len() - 1 {
                assert(settled_fields(ctx, fields.drop_last())[i] == settled_fields(
                    ctx,
                    fields,
                )[i]);
            }
        }
    }
}

proof fn settled_declarations_are_absolute(ctx: ContextView, items: Seq<DeclarationView>)
    requires
        gives_absolute(ctx),
        missing_in_declarations(ctx, items).len() == 0,
    ensures
        forall|i: int|
            0 <= i < items.len() ==> absolute_declaration(
                #[trigger] settled_declarations(ctx, items)[i],
            ),
    decreases items.len(),
{
    if items.len() > 0 {
        settled_declarations_are_absolute(ctx, items.drop_last());
        let last = items.last();
        settled_name_is_absolute(ctx, last.name);
        settled_fields_are_absolute(ctx, last.fields);
        assert forall|i: int| 0 <= i < items.len() implies absolute_declaration(
            #[trigger] settled_declarations(ctx, items)[i],
        ) by {
            if i < items.len() - 1 {
                assert(settled_declarations(ctx, items.drop_last())[i] == settled_declarations(
                    ctx,
                    items,
                )[i]);
            }
        }
    }
}

proof fn settled_relations_are_absolute(ctx: ContextView, items: Seq<RelationView>)
    requires
        gives_absolute(ctx),
        missing_in_relations(ctx, items).len() == 0,
    ensures
        forall|i: int|
            0 <= i < items.len() ==> absolute_relation(#[trigger] settled_relations(ctx, items)[i]),
    decreases items.len(),
{
    if items.len() > 0 {
        settled_relations_are_absolute(ctx, items.drop_last());
        let last = items.last();
        settled_name_is_absolute(ctx, last.subject);
        settled_name_is_absolute(ctx, last.predicate);
        settled_name_is_absolute(ctx, last.object);
        settled_fields_are_absolute(ctx, last.fields);
        assert forall|i: int| 0 <= i < items.len() implies absolute_relation(
            #[trigger] settled_relations(ctx, items)[i],
        ) by {
            if i < items.len() - 1 {
                assert(settled_relations(ctx, items.drop_last())[i] == settled_relations(
                    ctx,
                    items,
                )[i]);
            }
        }
    }
}

/// Where directives that give absolute URIs only resolve every name, every
/// name of the result is absolute.
pub proof fn resolved_names_are_absolute(ctx: ContextView, tree: StructureView)
    requires
        gives_absolute(ctx),
        resolved(ctx, tree) is Ok,
    ensures
        all_absolute(resolved(ctx, tree)->Ok_0),
{
    settled_declarations_are_absolute(ctx, tree.kinds);
    settled_declarations_are_absolute(ctx, tree.attributes);
    settled_relations_are_absolute(ctx, tree.relations);
}

/// Resolution is idempotent: what directives that give absolute URIs only
/// have resolved, a second pass leaves as it is, whatever directives the
/// second pass goes by.
pub proof fn resolution_is_idempotent(ctx: ContextView, again: ContextView, tree: StructureView)
    requires
        gives_absolute(ctx),
        resolved(ctx, tree) is Ok,
    ensures
        resolved(again, resolved(ctx, tree)->Ok_0) == resolved(ctx, tree),
{
    resolved_names_are_absolute(ctx, tree);
    absolute_names_stay(again, resolved(ctx, tree)->Ok_0);
}

/// The last `using` directive of a file gives the local namespace,
/// wherever in the file it stands.
pub proof fn last_using_wins(items: Seq<ItemView>, k: int, namespace: Seq<char>)
    requires
        0 <= k < items.len(),
        items[k] == (ItemView::Namespace { uri: namespace }),
        forall|j: int| k < j < items.len() ==> !((#[trigger] items[j]) is Namespace),
    ensures
        namespace_of(items) == Some(namespace),
    decreases items.len(),
{
    if k < items.len() - 1 {
        assert forall|j: int| k < j < items.drop_last().len() implies !((
        #[trigger] items.drop_last()[j]) is Namespace) by {}
        last_using_wins(items.drop_last(), k, namespace);
    }
}

/// In a file whose last `using` directive declares `namespace`, a name
/// written as the bare alias `alias` resolves to `namespace` joined with
/// `alias`, wherever the directive and the name stand. Each name of the
/// file is resolved in this way, so this holds of each place where the
/// alias stands.
pub proof fn bare_alias_joins_namespace(
    items: Seq<ItemView>,
    k: int,
    namespace: Seq<char>,
    alias: Seq<char>,
)
    requires
        0 <= k < items.len(),
        items[k] == (ItemView::Namespace { uri: namespace }),
        forall|j: int| k < j < items.len() ==> !((#[trigger] items[j]) is Namespace),
    ensures
        !is_missing(context_of(items), parsetree::NameView::Alias(alias).lowered()),
        settled_name(context_of(items), parsetree::NameView::Alias(alias).lowered()) == (NameView {
            alias: Some(alias),
            uri: join_text(namespace, alias),
        }),
{
    last_using_wins(items, k, namespace);
}

/// In a file whose last `using` directive declares `namespace`, each
/// declaration that was named by a bare alias is named by `namespace`
/// joined with that alias after resolution, and so are the subject, the
/// predicate and the object of each relation, wherever in the file the
/// directive stands.
pub proof fn bare_aliases_join_namespace_everywhere(
    items: Seq<ItemView>,
    k: int,
    namespace: Seq<char>,
)
    requires
        0 <= k < items.len(),
        items[k] == (ItemView::Namespace { uri: namespace }),
        forall|j: int| k < j < items.len() ==> !((#[trigger] items[j]) is Namespace),
    ensures
        forall|name: NameView|
            name.alias is Some && name.is_unresolved() ==> (#[trigger] settled_name(
                context_of(items),
                name,
            )).uri == join_text(namespace, name.alias->0),
        forall|i: int|
            0 <= i < lowered(items).kinds.len() ==> (#[trigger] settled(
                context_of(items),
                lowered(items),
            ).kinds[i]).name == settled_name(context_of(items), lowered(items).kinds[i].name),
        forall|i: int|
            0 <= i < lowered(items).attributes.len() ==> (#[trigger] settled(
                context_of(items),
                lowered(items),
            ).attributes[i]).name == settled_name(
                context_of(items),
                lowered(items).attributes[i].name,
            ),
        forall|i: int|
            0 <= i < lowered(items).relations.len() ==> {
                let before = lowered(items).relations[i];
                let after = #[trigger] settled(context_of(items), lowered(items)).relations[i];
                &&& after.subject == settled_name(context_of(items), before.subject)
                &&& after.predicate == settled_name(context_of(items), before.predicate)
                &&& after.object == settled_name(context_of(items), before.object)
            },
{
    last_using_wins(items, k, namespace);
}

/// A name that cannot be resolved is reported once for each place where
/// it stands in the declarations: no place is left out and none is counted
/// twice. Where it stands at all, resolution fails with the names that
/// cannot be resolved.
pub proof fn missing_name_reported_at_each_place(
    ctx: ContextView,
    tree: StructureView,
    name: NameView,
)
    requires
        is_missing(ctx, name),
    ensures
        occurrences(missing(ctx, tree), name) == occurrences(names_of(tree), name),
        occurrences(names_of(tree), name) > 0 ==> resolved(ctx, tree) is Err,
        resolved(ctx, tree) is Err ==> resolved(ctx, tree)->Err_0 == missing(ctx, tree),
{
    missing_name_counted(ctx, tree, name);
    fails_with_missing_names(ctx, tree);
}

/// In a file without a `using` directive, a name written as a bare alias
/// cannot be resolved, and resolution reports it once for each place where
/// it stands: no place is left out and none is counted twice. Where it
/// stands at all, resolution fails.
pub proof fn bare_alias_reported_at_each_place(items: Seq<ItemView>, alias: Seq<char>)
    requires
        namespace_of(items) is None,
    ensures
        is_missing(context_of(items), parsetree::NameView::Alias(alias).lowered()),
        occurrences(
            missing(context_of(items), lowered(items)),
            parsetree::NameView::Alias(alias).lowered(),
        ) == occurrences(names_of(lowered(items)), parsetree::NameView::Alias(alias).lowered()),
        occurrences(names_of(lowered(items)), parsetree::NameView::Alias(alias).lowered()) > 0
            ==> resolved(context_of(items), lowered(items)) is Err,
        resolved(context_of(items), lowered(items)) is Err ==> resolved(
            context_of(items),
            lowered(items),
        )->Err_0 == missing(context_of(items), lowered(items)),
{
    missing_name_reported_at_each_place(
        context_of(items),
        lowered(items),
        parsetree::NameView::Alias(alias).lowered(),
    );
}

/// Where `alias` stands for `expansion`, a name written as `alias`, a
/// slash and `suffix` resolves to `expansion`, a slash and `suffix`: the
/// alias at the start is replaced, once, and nothing else changes. This is
/// stated of an alias that starts with `@` and is the longest alias at the
/// start of the name.
pub proof fn prefix_is_substituted_once(
    ctx: ContextView,
    alias: Seq<char>,
    expansion: Seq<char>,
    suffix: Seq<char>,
)
    requires
        is_prefixed_text(alias),
        ctx.prefixes.contains_key(alias),
        ctx.prefixes[alias] == expansion,
        forall|other: Seq<char>| #[trigger]
            ctx.prefixes.contains_key(other) && other.is_prefix_of(join_text(alias, suffix))
                ==> other.len() <= alias.len(),
    ensures
        settled_name(ctx, NameView { alias: None, uri: join_text(alias, suffix) }) == (NameView {
            alias: None,
            uri: join_text(expansion, suffix),
        }),
{
    let raw = join_text(alias, suffix);
    crate::prefixes::longest_alias_found(ctx.prefixes, raw, alias);
    assert(raw.skip(alias.len() as int) =~= seq!['/'] + suffix);
    assert(expansion + (seq!['/'] + suffix) =~= join_text(expansion, suffix));
}

} // verus!
