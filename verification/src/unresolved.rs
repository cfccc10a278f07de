use vstd::prelude::*;
use crate::ast::{DeclarationView, FieldView, LiteralView, NameView, RelationView, StructureView};
use crate::resolution::{
    is_missing, missing, missing_in_declaration, missing_in_declarations,
    missing_in_field, missing_in_fields, missing_in_name, missing_in_relation,
    missing_in_relations, ContextView,
};

verus! {

/// The names of a field: its own name, then its value where that is a
/// name.
pub open spec fn names_of_field(field: FieldView) -> Seq<NameView> {
    match field.value {
        LiteralView::Name(name) => seq![field.name, name],
        _ => seq![field.name],
    }
}

/// The names of the fields, field by field.
pub open spec fn names_of_fields(fields: Seq<FieldView>) -> Seq<NameView>
    decreases fields.len(),
{
    if fields.len() == 0 {
        Seq::empty()
    } else {
        names_of_fields(fields.drop_last()) + names_of_field(fields.last())
    }
}

/// The names of a declaration: its own name, then those of its fields.
pub open spec fn names_of_declaration(item: DeclarationView) -> Seq<NameView> {
    seq![item.name] + names_of_fields(item.fields)
}

/// The names of the declarations, declaration by declaration.
pub open spec fn names_of_declarations(items: Seq<DeclarationView>) -> Seq<NameView>
    decreases items.len(),
{
    if items.len() == 0 {
        Seq::empty()
    } else {
        names_of_declarations(items.drop_last()) + names_of_declaration(items.last())
    }
}

/// The names of a relation: subject, predicate and object, then those of
/// its fields.
pub open spec fn names_of_relation(item: RelationView) -> Seq<NameView> {
    seq![item.subject, item.predicate, item.object] + names_of_fields(item.fields)
}

/// The names of the relations, relation by relation.
pub open spec fn names_of_relations(items: Seq<RelationView>) -> Seq<NameView>
    decreases items.len(),
{
    if items.len() == 0 {
        Seq::empty()
    } else {
        names_of_relations(items.drop_last()) + names_of_relation(items.last())
    }
}

/// Every name of the declarations, once for each place where it stands, in
/// the order in which resolution goes through them.
pub open spec fn names_of(tree: StructureView) -> Seq<NameView> {
    names_of_declarations(tree.attributes) + names_of_declarations(tree.kinds) + names_of_relations(
        tree.relations,
    )
}

/// The names of `names` that cannot be resolved, in order.
pub open spec fn missing_among(ctx: ContextView, names: Seq<NameView>) -> Seq<NameView> {
    names.filter(|name: NameView| is_missing(ctx, name))
}

proof fn missing_among_concat(ctx: ContextView, a: Seq<NameView>, b: Seq<NameView>)
    ensures
        missing_among(ctx, a + b) == missing_among(ctx, a) + missing_among(ctx, b),
{
    Seq::filter_distributes_over_add(a, b, |name: NameView| is_missing(ctx, name));
}

proof fn missing_among_one(ctx: ContextView, name: NameView)
    ensures
        missing_among(ctx, seq![name]) == missing_in_name(ctx, name),
{
    reveal(Seq::filter);
    let pred = |name: NameView| is_missing(ctx, name);
    assert(seq![name].drop_last() =~= Seq::<NameView>::empty());
    assert(Seq::<NameView>::empty().filter(pred) =~= Seq::<NameView>::empty());
}

proof fn missing_in_field_is_filter(ctx: ContextView, field: FieldView)
    ensures
        missing_in_field(ctx, field) == missing_among(ctx, names_of_field(field)),
{
    missing_among_one(ctx, field.name);
    match field.value {
        LiteralView::Name(name) => {
            missing_among_one(ctx, name);
            missing_among_concat(ctx, seq![field.name], seq![name]);
            assert(seq![field.name] + seq![name] =~= seq![field.name, name]);
        },
        _ => {},
    }
}

proof fn missing_in_fields_is_filter(ctx: ContextView, fields: Seq<FieldView>)
    ensures
        missing_in_fields(ctx, fields) == missing_among(ctx, names_of_fields(fields)),
    decreases fields.len(),
{
    if !(fields.len() == 0) {
        missing_in_fields_is_filter(ctx, fields.drop_last());
        missing_in_field_is_filter(ctx, fields.last());
        missing_among_concat(
            ctx,
            names_of_fields(fields.drop_last()),
            names_of_field(fields.last()),
        );
    }
}

proof fn missing_in_declaration_is_filter(ctx: ContextView, item: DeclarationView)
    ensures
        missing_in_declaration(ctx, item) == missing_among(ctx, names_of_declaration(item)),
{
    missing_in_fields_is_filter(ctx, item.fields);
    missing_among_one(ctx, item.name);
    missing_among_concat(ctx, seq![item.name], names_of_fields(item.fields));
}

proof fn missing_in_declarations_is_filter(ctx: ContextView, items: Seq<DeclarationView>)
    ensures
        missing_in_declarations(ctx, items) == missing_among(ctx, names_of_declarations(items)),
    decreases items.len(),
{
    if !(items.len() == 0) {
        missing_in_declarations_is_filter(ctx, items.drop_last());
        missing_in_declaration_is_filter(ctx, items.last());
        missing_among_concat(
            ctx,
            names_of_declarations(items.drop_last()),
            names_of_declaration(items.last()),
        );
    }
}

proof fn missing_among_three(ctx: ContextView, a: NameView, b: NameView, c: NameView)
    ensures
        missing_among(ctx, seq![a, b, c]) == missing_in_name(ctx, a) + missing_in_name(ctx, b)
            + missing_in_name(ctx, c),
{
    missing_among_one(ctx, a);
    missing_among_one(ctx, b);
    missing_among_one(ctx, c);
    missing_among_concat(ctx, seq![a], seq![b]);
    missing_among_concat(ctx, seq![a] + seq![b], seq![c]);
    assert(seq![a] + seq![b] + seq![c] =~= seq![a, b, c]);
}

proof fn missing_in_relation_is_filter(ctx: ContextView, item: RelationView)
    ensures
        missing_in_relation(ctx, item) == missing_among(ctx, names_of_relation(item)),
{
    missing_in_fields_is_filter(ctx, item.fields);
    missing_among_three(ctx, item.subject, item.predicate, item.object);
    missing_among_concat(
        ctx,
        seq![item.subject, item.predicate, item.object],
        names_of_fields(item.fields),
    );
}

proof fn missing_in_relations_is_filter(ctx: ContextView, items: Seq<RelationView>)
    ensures
        missing_in_relations(ctx, items) == missing_among(ctx, names_of_relations(items)),
    decreases items.len(),
{
    if !(items.len() == 0) {
        missing_in_relations_is_filter(ctx, items.drop_last());
        missing_in_relation_is_filter(ctx, items.last());
        missing_among_concat(
            ctx,
            names_of_relations(items.drop_last()),
            names_of_relation(items.last()),
        );
    }
}

/// The names that resolution reports are the names of the declarations
/// that cannot be resolved, in order: none is left out, none is reported
/// that can be resolved, and none is reported more or less often than it
/// stands in the declarations.
pub proof fn missing_is_every_unresolved_name(ctx: ContextView, tree: StructureView)
    ensures
        missing(ctx, tree) == missing_among(ctx, names_of(tree)),
{
    missing_in_declarations_is_filter(ctx, tree.attributes);
    missing_in_declarations_is_filter(ctx, tree.kinds);
    missing_in_relations_is_filter(ctx, tree.relations);
    missing_among_concat(
        ctx,
        names_of_declarations(tree.attributes),
        names_of_declarations(tree.kinds),
    );
    missing_among_concat(
        ctx,
        names_of_declarations(tree.attributes) + names_of_declarations(tree.kinds),
        names_of_relations(tree.relations),
    );
}

/// How often `name` stands in `names`.
pub open spec fn occurrences(names: Seq<NameView>, name: NameView) -> nat
    decreases names.len(),
{
    if names.len() == 0 {
        0
    } else if names.last() == name {
        occurrences(names.drop_last(), name) + 1
    } else {
        occurrences(names.drop_last(), name)
    }
}

proof fn occurrences_among_missing(ctx: ContextView, names: Seq<NameView>, name: NameView)
    requires
        is_missing(ctx, name),
    ensures
        occurrences(missing_among(ctx, names), name) == occurrences(names, name),
    decreases names.len(),
{
    reveal(Seq::filter);
    if !(names.len() == 0) {
        let front = names.drop_last();
        let last = names.last();
        occurrences_among_missing(ctx, front, name);
        if is_missing(ctx, last) {
            let kept = missing_among(ctx, front).push(last);
            assert(kept.drop_last() =~= missing_among(ctx, front));
        }
    }
}

/// A name that cannot be resolved stands among the reported names as often
/// as it stands in the declarations.
pub proof fn missing_name_counted(ctx: ContextView, tree: StructureView, name: NameView)
    requires
        is_missing(ctx, name),
    ensures
        occurrences(missing(ctx, tree), name) == occurrences(names_of(tree), name),
        occurrences(names_of(tree), name) > 0 ==> missing(ctx, tree).len() > 0,
{
    missing_is_every_unresolved_name(ctx, tree);
    occurrences_among_missing(ctx, names_of(tree), name);
}


} // verus!
