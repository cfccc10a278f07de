use lore::ast::Name;
use lore::codegen::ocaml::ocaml_ast::{
    CamlBinding, CamlField, CamlFun, CamlModule, CamlModuleName, CamlRecord, CamlType, CamlValue,
    CamlVariant,
};
use lore::codegen::ocaml::sorting::{compare_fields, compare_types, sort_order, Rank};
use lore::codegen::source_set::Source;
use lore::uri::URI;
use std::cmp::Ordering;

fn name(text: &str) -> Name {
    Name::of_uri(&URI::from_string(text.to_string()))
}

fn t() -> String {
    "t".to_string()
}

fn rank(order: Ordering) -> Rank {
    match order {
        Ordering::Less => Rank::Before,
        Ordering::Equal => Rank::Same,
        Ordering::Greater => Rank::After,
    }
}

#[test]
fn caml_module_name() {
    assert!(CamlModuleName::local_module().is_empty());
    let module = CamlModuleName::from_name(&name("Dota:Ontology:2022/Hero"));
    assert!(!module.is_empty());
    assert_eq!(module.to_string(), "Dota_ontology_2022_hero");
    assert_eq!(CamlModuleName::from_lowercase("hero").to_string(), "Hero");
}

#[test]
fn caml_module_new() {
    let module = CamlModule::new(CamlModuleName::from_lowercase("hero"));
    assert_eq!(module.filename, "hero.mli");
    assert!(module.structure.is_empty());
    let module =
        module.with_structure(vec![CamlValue::new_type(CamlType::abstract_type(t()))]);
    assert_eq!(module.to_string(), "type t\n");
    assert_eq!(
        module.into_source(),
        Source::new("hero.mli".to_string(), "type t\n".to_string())
    );
}

#[test]
fn caml_field_from_name() {
    let reference = CamlType::reference(CamlModuleName::from_lowercase("name"), t());
    let field = CamlField::from_name(&name("Lore:rel/hasOne"), reference);
    assert_eq!(field.name, "lore_rel_hasOne");
    assert_eq!(field.doc, None);
    assert_eq!(field.to_string(), "lore_rel_hasOne: Name.t");
    let field = field.with_doc(Some("  the name \n".to_string()));
    assert_eq!(field.to_string(), "(* the name *)lore_rel_hasOne: Name.t");
}

#[test]
fn caml_type_to_string() {
    let local = || CamlType::reference(CamlModuleName::local_module(), t());
    let other = || CamlType::reference(CamlModuleName::from_lowercase("hero"), t());
    assert_eq!(local().to_string(), "t");
    assert_eq!(other().to_string(), "Hero.t");
    assert_eq!(CamlType::abstract_type(t()).to_string(), "type t");
    let record = CamlType::record(
        t(),
        vec![
            CamlField::from_name(&name("b"), other()),
            CamlField::from_name(&name("a"), local()),
            CamlField::from_name(&name("c"), local()),
        ],
    );
    assert_eq!(
        record.to_string(),
        "type t = { a: t\n; b: Hero.t\n; c: t } \n"
    );
    let variant = CamlType::Variant {
        name: t(),
        variants: vec![
            CamlVariant::Constructor(vec![]),
            CamlVariant::Constructor(vec![local(), other()]),
            CamlVariant::InlineRecord(CamlRecord {
                fields: vec![CamlField::from_name(&name("a"), local())],
            }),
        ],
    };
    assert_eq!(
        variant.to_string(),
        "type t = \n| |  of t* Hero.t|  of { a: t }"
    );
}

#[test]
fn caml_fields_are_sorted_as_the_derived_order_sorts_them() {
    let reference = |module: &str| CamlType::reference(CamlModuleName::from_lowercase(module), t());
    let mut fields = vec![
        CamlField::from_name(&name("b"), reference("x")),
        CamlField::from_name(&name("a"), CamlType::abstract_type(t())),
        CamlField::from_name(&name("a"), reference("y")).with_doc(Some("d".to_string())),
        CamlField::from_name(&name("a"), reference("y")),
        CamlField::from_name(&name("a"), reference("x")),
        CamlField::from_name(&name("ab"), reference("x")),
        CamlField::from_name(&name("B"), reference("x")),
        CamlField::from_name(
            &name("a"),
            CamlType::record(t(), vec![CamlField::from_name(&name("z"), reference("x"))]),
        ),
        CamlField::from_name(
            &name("a"),
            CamlType::Variant {
                name: t(),
                variants: vec![
                    CamlVariant::InlineRecord(CamlRecord { fields: vec![] }),
                    CamlVariant::Constructor(vec![reference("x")]),
                ],
            },
        ),
        CamlField::from_name(
            &name("a"),
            CamlType::Variant {
                name: t(),
                variants: vec![CamlVariant::Constructor(vec![])],
            },
        ),
    ];
    let order = sort_order(&fields);
    let mut indices: Vec<usize> = (0..fields.len()).collect();
    indices.sort_by(|i, j| fields[*i].cmp(&fields[*j]));
    assert_eq!(order, indices);
    for i in 0..fields.len() {
        for j in 0..fields.len() {
            assert_eq!(
                compare_fields(&fields[i], &fields[j]),
                rank(fields[i].cmp(&fields[j]))
            );
            assert_eq!(
                compare_types(&fields[i].type_, &fields[j].type_),
                rank(fields[i].type_.cmp(&fields[j].type_))
            );
        }
    }
    fields.sort();
    assert_eq!(fields[0].name, "a");
}

#[test]
fn caml_binding_and_value() {
    let local = CamlType::reference(CamlModuleName::local_module(), t());
    let other = CamlType::reference(CamlModuleName::from_lowercase("name"), t());
    let fun = CamlFun::new(vec![local], other);
    assert_eq!(fun.to_string(), "t -> Name.t");
    let binding = CamlBinding::bind(name("Lore:rel/hasOne"), fun);
    assert_eq!(binding.name, "lore_rel_hasOne");
    assert_eq!(binding.to_string(), "val lore_rel_hasOne : t -> Name.t");
    let value = CamlValue::binding(binding);
    assert_eq!(value.doc, None);
    assert_eq!(value.to_string(), "val lore_rel_hasOne : t -> Name.t");
    let value = value.with_doc(Some("\n  The name.  ".to_string()));
    assert_eq!(
        value.to_string(),
        "(*\n  The name.\n*)\nval lore_rel_hasOne : t -> Name.t"
    );
}

