use vstd::prelude::*;
use vstd::string::StringExecFns;
use crate::ast::{DeclarationView, Field, FieldView, RelationView};
use crate::codegen::emitter_error::EmitterError;
use crate::codegen::ocaml::ocaml_ast::{
    flattened, source_of, CamlBinding, CamlBindingView, CamlField, CamlFieldView, CamlFun,
    CamlFunView, CamlModule, CamlModuleName, CamlModuleView, CamlRecordView, CamlType,
    CamlTypeView, CamlValue, CamlValueDescView, CamlValueView,
};
use crate::codegen::source_set::{Source, SourceSet, SourceView};
use crate::store::{relations_of_subject, GroupView, Store};
use crate::text::{capitalized, lowercase, uncapitalized};
use crate::uri::URI;

verus! {

/// The URI of the fields that hold the English comment of a declaration.
pub open spec fn doc_field_uri() -> Seq<char> {
    "lore:v1/doc/en"@
}

/// The name of the module of the declaration named `uri`.
pub open spec fn module_name_of(uri: Seq<char>) -> Seq<char> {
    capitalized(lowercase(flattened(uri)))
}

/// The reference to the type `t` of the module of the declaration named
/// `uri`.
pub open spec fn type_of(uri: Seq<char>) -> CamlTypeView {
    CamlTypeView::Reference { module: module_name_of(uri), name: "t"@ }
}

/// The field that a relation gives to the record of its subject: it is
/// named after the predicate, and its type is the type of the object.
pub open spec fn field_of(relation: RelationView) -> CamlFieldView {
    CamlFieldView {
        name: uncapitalized(flattened(relation.predicate.uri)),
        doc: None,
        type_: type_of(relation.object.uri),
    }
}

/// The main type of an attribute with the relations `relations`: an
/// abstract type where it has none, else a record with one field for each.
pub open spec fn attribute_type(relations: Seq<RelationView>) -> CamlTypeView {
    if relations.len() == 0 {
        CamlTypeView::Abstract("t"@)
    } else {
        CamlTypeView::Record {
            name: "t"@,
            record: CamlRecordView {
                fields: relations.map_values(|relation: RelationView| field_of(relation)),
            },
        }
    }
}

/// The module `name` with the items `structure`.
pub open spec fn module_with(name: Seq<char>, structure: Seq<CamlValueView>) -> CamlModuleView {
    CamlModuleView { name, filename: lowercase(name) + ".mli"@, structure }
}

/// The module of an attribute: it declares the main type of the
/// attribute.
pub open spec fn attribute_module(groups: Seq<GroupView>, attribute: DeclarationView)
    -> CamlModuleView {
    module_with(
        module_name_of(attribute.name.uri),
        seq![
            CamlValueView {
                value: CamlValueDescView::Type(
                    attribute_type(relations_of_subject(groups, attribute.name.uri)),
                ),
                doc: None,
            },
        ],
    )
}

/// The text of the last of `fields` that is named `lore:v1/doc/en`.
pub open spec fn last_doc(fields: Seq<FieldView>) -> Option<Seq<char>>
    decreases fields.len(),
{
    if fields.len() == 0 {
        None
    } else if fields.last().name.uri == doc_field_uri() {
        Some(fields.last().value.text())
    } else {
        last_doc(fields.drop_last())
    }
}

/// The text of the first of `fields` that is named `lore:v1/doc/en`.
pub open spec fn first_doc(fields: Seq<FieldView>) -> Option<Seq<char>>
    decreases fields.len(),
{
    if fields.len() == 0 {
        None
    } else if fields[0].name.uri == doc_field_uri() {
        Some(fields[0].value.text())
    } else {
        first_doc(fields.drop_first())
    }
}

/// The accessor that a relation gives to the module of its subject: a
/// function from the type of the subject to the type of the object, named
/// after the predicate, with the comment of the relation.
pub open spec fn accessor_of(relation: RelationView) -> CamlValueView {
    CamlValueView {
        value: CamlValueDescView::Binding(
            CamlBindingView {
                name: uncapitalized(flattened(relation.predicate.uri)),
                val: CamlFunView {
                    args: seq![CamlTypeView::Reference { module: Seq::empty(), name: "t"@ }],
                    return_: type_of(relation.object.uri),
                },
            },
        ),
        doc: first_doc(relation.fields),
    }
}

/// The module of a kind: it declares the abstract type `t`, with the
/// comment of the kind, and one accessor for each relation of the kind.
pub open spec fn kind_module(groups: Seq<GroupView>, kind: DeclarationView) -> CamlModuleView {
    module_with(
        module_name_of(kind.name.uri),
        seq![
            CamlValueView {
                value: CamlValueDescView::Type(CamlTypeView::Abstract("t"@)),
                doc: last_doc(kind.fields),
            },
        ] + relations_of_subject(groups, kind.name.uri).map_values(
            |relation: RelationView| accessor_of(relation),
        ),
    )
}

/// The interface files of a store: those of its attributes, then those of
/// its kinds.
pub open spec fn sources_of(
    groups: Seq<GroupView>,
    attributes: Seq<DeclarationView>,
    kinds: Seq<DeclarationView>,
) -> Seq<SourceView> {
    attributes.map_values(
        |attribute: DeclarationView| source_of(attribute_module(groups, attribute)),
    ) + kinds.map_values(|kind: DeclarationView| source_of(kind_module(groups, kind)))
}

fn is_doc_field(field: &Field) -> (r: bool)
    ensures
        r == (field@.name.uri == doc_field_uri()),
{
    field.name.uri.same_as(&URI::from_string(String::from_str("lore:v1/doc/en")))
}

fn find_last_doc(fields: &Vec<Field>) -> (r: Option<String>)
    ensures
        crate::text::optional_text(r) == last_doc(fields.deep_view()),
{
    let mut doc_string: Option<String> = None;
    let mut i: usize = 0;
    while i < fields.len()
        invariant
            i <= fields.len(),
            crate::text::optional_text(doc_string) == last_doc(fields.deep_view().take(i as int)),
        decreases fields.len() - i,
    {
        proof {
            let part = fields.deep_view().take(i + 1);
            assert(part.drop_last() =~= fields.deep_view().take(i as int));
        }
        if is_doc_field(&fields[i]) {
            doc_string = Some(fields[i].value.to_string());
        }
        i += 1;
    }
    proof {
        assert(fields.deep_view().take(i as int) =~= fields.deep_view());
    }
    doc_string
}

fn find_first_doc(fields: &Vec<Field>) -> (r: Option<String>)
    ensures
        crate::text::optional_text(r) == first_doc(fields.deep_view()),
{
    let ghost views = fields.deep_view();
    let mut i: usize = 0;
    proof {
        assert(views.skip(0) =~= views);
    }
    while i < fields.len()
        invariant
            i <= fields.len(),
            views == fields.deep_view(),
            first_doc(views) == first_doc(views.skip(i as int)),
        decreases fields.len() - i,
    {
        proof {
            assert(views.skip(i as int).drop_first() =~= views.skip(i + 1));
        }
        if is_doc_field(&fields[i]) {
            return Some(fields[i].value.to_string());
        }
        i += 1;
    }
    None
}

/// The emitter of OCaml interface files, one for each attribute and one
/// for each kind.
#[derive(Default)]
pub struct OCamlEmitter {}

impl OCamlEmitter {
    pub fn new() -> (r: OCamlEmitter) {
        OCamlEmitter {  }
    }

    /// The interface files of the attributes of the store, then those of
    /// its kinds.
    pub fn translate(&self, store: &Store) -> (r: Result<SourceSet, EmitterError>)
        ensures
            r matches Ok(sources) && sources@ == sources_of(
                store@.groups,
                store@.attributes,
                store@.kinds,
            ),
    {
        let mut sources: Vec<Source> = Vec::new();
        let ghost groups = store@.groups;

        let attributes = store.attributes();
        let mut i: usize = 0;
        while i < attributes.len()
            invariant
                i <= attributes.len(),
                groups == store@.groups,
                sources.len() == i,
                forall|k: int|
                    0 <= k < i ==> sources@[k]@ == source_of(
                        attribute_module(groups, attributes@[k]@),
                    ),
            decreases attributes.len() - i,
        {
            let attribute = attributes[i];
            let mut fields: Vec<CamlField> = Vec::new();
            let subject = attribute.name.to_uri();
            let ghost relations = relations_of_subject(groups, subject@);
            if let Some(rels) = store.relations_of(&subject) {
                let mut j: usize = 0;
                while j < rels.len()
                    invariant
                        j <= rels.len(),
                        fields.len() == j,
                        forall|k: int| 0 <= k < j ==> fields@[k]@ == field_of(rels@[k]@),
                    decreases rels.len() - j,
                {
                    let rel = &rels[j];
                    let module_name = CamlModuleName::from_name(&rel.object);
                    let type_ref = CamlType::reference(module_name, String::from_str("t"));
                    let field = CamlField::from_name(&rel.predicate, type_ref);
                    fields.push(field);
                    j += 1;
                }
                proof {
                    assert(fields.deep_view() =~= relations.map_values(
                        |relation: RelationView| field_of(relation),
                    ));
                }
            }

            let main_type = if fields.len() == 0 {
                CamlType::abstract_type(String::from_str("t"))
            } else {
                CamlType::record(String::from_str("t"), fields)
            };

            let mut structure: Vec<CamlValue> = Vec::new();
            let item = CamlValue::new_type(main_type);
            structure.push(item);
            let module = CamlModule::new(CamlModuleName::from_name(&attribute.name)).with_structure(
                structure,
            );
            sources.push(module.into_source());
            i += 1;
        }

        let ghost first = sources.deep_view();
        let kinds = store.kinds();
        let mut i: usize = 0;
        while i < kinds.len()
            invariant
                i <= kinds.len(),
                groups == store@.groups,
                sources.len() == first.len() + i,
                first.len() == attributes.len(),
                attributes.deep_view() == store@.attributes,
                kinds.deep_view() == store@.kinds,
                forall|k: int|
                    0 <= k < first.len() ==> #[trigger] first[k] == source_of(
                        attribute_module(groups, attributes@[k]@),
                    ),
                forall|k: int| 0 <= k < first.len() ==> sources@[k]@ == first[k],
                forall|k: int|
                    0 <= k < i ==> sources@[first.len() + k]@ == source_of(
                        kind_module(groups, kinds@[k]@),
                    ),
            decreases kinds.len() - i,
        {
            let kind = kinds[i];
            let doc_string = find_last_doc(&kind.fields);
            let mut structure: Vec<CamlValue> = Vec::new();
            let main_type = CamlType::abstract_type(String::from_str("t"));
            let head = CamlValue::new_type(main_type).with_doc(doc_string);
            structure.push(head);

            let subject = kind.name.to_uri();
            let ghost relations = relations_of_subject(groups, subject@);
            if let Some(rels) = store.relations_of(&subject) {
                let mut j: usize = 0;
                while j < rels.len()
                    invariant
                        j <= rels.len(),
                        structure.len() == j + 1,
                        structure@[0]@ == head@,
                        forall|k: int| 0 <= k < j ==> structure@[k + 1]@ == accessor_of(rels@[k]@),
                    decreases rels.len() - j,
                {
                    let rel = &rels[j];
                    let module_name = CamlModuleName::from_name(&rel.object);
                    let type_ref = CamlType::reference(module_name, String::from_str("t"));
                    let doc = find_first_doc(&rel.fields);
                    let mut args: Vec<CamlType> = Vec::new();
                    let local = CamlType::reference(
                        CamlModuleName::local_module(),
                        String::from_str("t"),
                    );
                    args.push(local);
                    proof {
                        assert(args.deep_view() =~= seq![local@]);
                    }
                    let accessor = CamlValue::binding(
                        CamlBinding::bind(rel.predicate.clone(), CamlFun::new(args, type_ref)),
                    ).with_doc(doc);
                    structure.push(accessor);
                    j += 1;
                }
                proof {
                    assert(structure.deep_view() =~= seq![head@] + relations.map_values(
                        |relation: RelationView| accessor_of(relation),
                    ));
                }
            } else {
                proof {
                    assert(structure.deep_view() =~= seq![head@] + relations.map_values(
                        |relation: RelationView| accessor_of(relation),
                    ));
                }
            }

            let module = CamlModule::new(CamlModuleName::from_name(&kind.name)).with_structure(
                structure,
            );
            sources.push(module.into_source());
            i += 1;
        }
        proof {
            let wanted = sources_of(groups, store@.attributes, store@.kinds);
            let got = sources.deep_view();
            assert forall|k: int| 0 <= k < got.len() implies got[k] == wanted[k] by {
                if k < first.len() {
                    assert(got[k] == first[k]);
                }
            }
        }
        Ok(SourceSet::from_sources(sources))
    }
}

} // verus!
