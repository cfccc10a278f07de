use vstd::prelude::*;
use vstd::string::StringExecFns;
use crate::ast::Name;
use crate::codegen::ocaml::sorting::{places, sort_order, sorted_order};
use crate::codegen::source_set::{Source, SourceView};
use crate::text::{
    capitalize, capitalized, chars_of, join_chars, joined, lowercase, optional_text,
    replace_char, replaced, split_chars, split_on, string_of, to_lowercase, trim, trimmed,
    uncapitalize, uncapitalized,
};

verus! {

/// The URI `uri` with `_` in the place of each `/` and each `:`.
pub open spec fn flattened(uri: Seq<char>) -> Seq<char> {
    joined(split_on(replaced(uri, '/', seq![':']), ':'), seq!['_'])
}

/// The URI of `name` with `_` in the place of each `/` and each `:`.
pub fn flatten(name: &Name) -> (r: Vec<char>)
    ensures
        r@ == flattened(name@.uri),
{
    let uri = chars_of(name.to_string().as_str());
    let colon = [':'];
    let underscore = ['_'];
    let cut = replace_char(uri.as_slice(), '/', colon.as_slice());
    let parts = split_chars(cut.as_slice(), ':');
    proof {
        assert(colon@ =~= seq![':']);
        assert(underscore@ =~= seq!['_']);
    }
    join_chars(&parts, underscore.as_slice())
}

/// The name of an OCaml module. The empty name stands for the module in
/// which it is written.
#[derive(Debug, PartialEq, Eq, PartialOrd, Ord)]
pub struct CamlModuleName(pub String);

impl View for CamlModuleName {
    type V = Seq<char>;

    open spec fn view(&self) -> Seq<char> {
        self.0@
    }
}

impl Clone for CamlModuleName {
    fn clone(&self) -> (r: Self)
        ensures
            r@ == self@,
    {
        CamlModuleName(self.0.clone())
    }
}

impl CamlModuleName {
    pub fn is_empty(&self) -> (r: bool)
        ensures
            r == (self@.len() == 0),
    {
        self.0.as_str().unicode_len() == 0
    }

    /// The name of the module in which it is written.
    pub fn local_module() -> (r: CamlModuleName)
        ensures
            r@ == Seq::<char>::empty(),
    {
        CamlModuleName(String::new())
    }

    /// The name of the module of the declaration `name`: its URI with `_`
    /// in the place of each `/` and each `:`, in lower case, with a capital
    /// letter at the start.
    pub fn from_name(name: &Name) -> (r: CamlModuleName)
        ensures
            r@ == capitalized(lowercase(flattened(name@.uri))),
    {
        let flat = string_of(flatten(name).as_slice());
        let lower = to_lowercase(flat.as_str());
        CamlModuleName::from_lowercase(lower.as_str())
    }

    /// The name that is `lower` with a capital letter at the start.
    pub fn from_lowercase(lower: &str) -> (r: CamlModuleName)
        ensures
            r@ == capitalized(lower@),
    {
        let mut name = chars_of(lower);
        capitalize(&mut name);
        CamlModuleName(string_of(name.as_slice()))
    }

    /// The name as OCaml source text.
    pub fn to_string(&self) -> (r: String)
        ensures
            r@ == self@,
    {
        self.0.clone()
    }
}

/// What a `CamlField` holds.
pub struct CamlFieldView {
    pub name: Seq<char>,
    pub doc: Option<Seq<char>>,
    pub type_: CamlTypeView,
}

/// What a `CamlRecord` holds.
pub struct CamlRecordView {
    pub fields: Seq<CamlFieldView>,
}

/// What a `CamlVariant` holds.
pub enum CamlVariantView {
    Constructor(Seq<CamlTypeView>),
    InlineRecord(CamlRecordView),
}

/// What a `CamlType` holds.
pub enum CamlTypeView {
    Reference { module: Seq<char>, name: Seq<char> },
    Abstract(Seq<char>),
    Variant { name: Seq<char>, variants: Seq<CamlVariantView> },
    Record { name: Seq<char>, record: CamlRecordView },
}

/// A field of an OCaml record.
#[derive(Debug, PartialEq, Eq, PartialOrd, Ord)]
pub struct CamlField {
    pub name: String,
    pub doc: Option<String>,
    pub type_: CamlType,
}

/// An OCaml record.
#[derive(Debug, PartialEq, Eq, PartialOrd, Ord)]
pub struct CamlRecord {
    pub fields: Vec<CamlField>,
}

/// What a constructor of an OCaml variant type carries.
#[derive(Debug, PartialEq, Eq, PartialOrd, Ord)]
pub enum CamlVariant {
    Constructor(Vec<CamlType>),
    InlineRecord(CamlRecord),
}

/// An OCaml type: a reference to a type of some module, or the declaration
/// of an abstract type, of a variant type or of a record type.
#[derive(Debug, PartialEq, Eq, PartialOrd, Ord)]
pub enum CamlType {
    Reference { module: CamlModuleName, name: String },
    Abstract(String),
    Variant { name: String, variants: Vec<CamlVariant> },
    Record { name: String, record: CamlRecord },
}

/// What the field `field` holds.
pub open spec fn field_view(field: CamlField) -> CamlFieldView
    decreases field,
{
    CamlFieldView {
        name: field.name@,
        doc: optional_text(field.doc),
        type_: type_view(field.type_),
    }
}

/// What the record `record` holds.
pub open spec fn record_view(record: CamlRecord) -> CamlRecordView
    decreases record,
{
    CamlRecordView {
        fields: Seq::new(
            record.fields.len() as nat,
            |i: int|
                if 0 <= i < record.fields.len() {
                    field_view(record.fields[i])
                } else {
                    arbitrary()
                },
        ),
    }
}

/// What the variant `variant` holds.
pub open spec fn variant_view(variant: CamlVariant) -> CamlVariantView
    decreases variant,
{
    match variant {
        CamlVariant::Constructor(types) => CamlVariantView::Constructor(
            Seq::new(
                types.len() as nat,
                |i: int|
                    if 0 <= i < types.len() {
                        type_view(types[i])
                    } else {
                        arbitrary()
                    },
            ),
        ),
        CamlVariant::InlineRecord(record) => CamlVariantView::InlineRecord(record_view(record)),
    }
}

/// What the type `t` holds.
pub open spec fn type_view(t: CamlType) -> CamlTypeView
    decreases t,
{
    match t {
        CamlType::Reference { module, name } => CamlTypeView::Reference {
            module: module@,
            name: name@,
        },
        CamlType::Abstract(name) => CamlTypeView::Abstract(name@),
        CamlType::Variant { name, variants } => CamlTypeView::Variant {
            name: name@,
            variants: Seq::new(
                variants.len() as nat,
                |i: int|
                    if 0 <= i < variants.len() {
                        variant_view(variants[i])
                    } else {
                        arbitrary()
                    },
            ),
        },
        CamlType::Record { name, record } => CamlTypeView::Record {
            name: name@,
            record: record_view(record),
        },
    }
}

impl View for CamlField {
    type V = CamlFieldView;

    open spec fn view(&self) -> CamlFieldView {
        field_view(*self)
    }
}

impl DeepView for CamlField {
    type V = CamlFieldView;

    open spec fn deep_view(&self) -> CamlFieldView {
        field_view(*self)
    }
}

impl View for CamlRecord {
    type V = CamlRecordView;

    open spec fn view(&self) -> CamlRecordView {
        record_view(*self)
    }
}

impl View for CamlVariant {
    type V = CamlVariantView;

    open spec fn view(&self) -> CamlVariantView {
        variant_view(*self)
    }
}

impl DeepView for CamlVariant {
    type V = CamlVariantView;

    open spec fn deep_view(&self) -> CamlVariantView {
        variant_view(*self)
    }
}

impl View for CamlType {
    type V = CamlTypeView;

    open spec fn view(&self) -> CamlTypeView {
        type_view(*self)
    }
}

impl DeepView for CamlType {
    type V = CamlTypeView;

    open spec fn deep_view(&self) -> CamlTypeView {
        type_view(*self)
    }
}

/// The views of a list of fields are those of the record that holds it.
pub proof fn fields_of_record(record: CamlRecord)
    ensures
        record@.fields == record.fields.deep_view(),
{
}

impl CamlType {
    /// A reference to the type `name` of the module `module`.
    pub fn reference(module: CamlModuleName, name: String) -> (r: CamlType)
        ensures
            r@ == (CamlTypeView::Reference { module: module@, name: name@ }),
    {
        CamlType::Reference { module, name }
    }

    /// The declaration of the abstract type `name`.
    pub fn abstract_type(name: String) -> (r: CamlType)
        ensures
            r@ == CamlTypeView::Abstract(name@),
    {
        CamlType::Abstract(name)
    }

    /// The declaration of the record type `name` with the fields `fields`.
    pub fn record(name: String, fields: Vec<CamlField>) -> (r: CamlType)
        ensures
            r@ == (CamlTypeView::Record {
                name: name@,
                record: CamlRecordView { fields: fields.deep_view() },
            }),
    {
        let record = CamlRecord { fields };
        proof {
            fields_of_record(record);
        }
        CamlType::Record { name, record }
    }
}

impl CamlField {
    /// The field of the type `type_` that is named after `name`: the URI
    /// of `name` with `_` in the place of each `/` and each `:`, and a
    /// small letter at the start. It has no comment.
    pub fn from_name(name: &Name, type_: CamlType) -> (r: CamlField)
        ensures
            r@ == (CamlFieldView {
                name: uncapitalized(flattened(name@.uri)),
                doc: None,
                type_: type_@,
            }),
    {
        let mut text = flatten(name);
        uncapitalize(&mut text);
        CamlField { name: string_of(text.as_slice()), type_, doc: None }
    }

    /// The field with the comment `doc`.
    pub fn with_doc(self, doc: Option<String>) -> (r: CamlField)
        ensures
            r@ == (CamlFieldView { doc: optional_text(doc), ..self@ }),
    {
        CamlField { doc, name: self.name, type_: self.type_ }
    }
}

/// The comment in front of a field whose comment, trimmed, is `doc`.
pub open spec fn field_comment(doc: Option<Seq<char>>) -> Seq<char> {
    match doc {
        Some(text) => "(* "@ + trimmed(text) + " *)"@,
        None => Seq::empty(),
    }
}

/// The text of a field: its comment, its name, a colon and its type.
pub open spec fn field_text(field: CamlFieldView) -> Seq<char>
    decreases field, 0nat,
{
    field_comment(field.doc) + field.name + ": "@ + type_text(field.type_)
}

/// The text of the field at place `i` of `fields`.
pub open spec fn field_text_at(fields: Seq<CamlFieldView>, i: int) -> Seq<char>
    decreases fields, 0nat,
{
    if 0 <= i < fields.len() {
        field_text(fields[i])
    } else {
        Seq::empty()
    }
}

/// The texts of the fields at the places `order`, with a line feed and a
/// semicolon between two of them.
pub open spec fn ordered_fields_text(fields: Seq<CamlFieldView>, order: Seq<int>) -> Seq<char>
    decreases fields, order.len(),
{
    if order.len() == 0 {
        Seq::empty()
    } else if order.len() == 1 {
        field_text_at(fields, order[0])
    } else {
        ordered_fields_text(fields, order.drop_last()) + "\n; "@ + field_text_at(
            fields,
            order.last(),
        )
    }
}

/// The text of a record: its fields between braces, in the order in which
/// they stand to each other.
pub open spec fn record_text(record: CamlRecordView) -> Seq<char>
    decreases record, 0nat,
{
    "{ "@ + ordered_fields_text(
        record.fields,
        sorted_order(record.fields, record.fields.len()),
    ) + " }"@
}

/// The texts of the types `types`, with a star between two of them.
pub open spec fn starred_types_text(types: Seq<CamlTypeView>) -> Seq<char>
    decreases types, 0nat,
{
    if types.len() == 0 {
        Seq::empty()
    } else if types.len() == 1 {
        type_text(types[0])
    } else {
        starred_types_text(types.drop_last()) + "* "@ + type_text(types.last())
    }
}

/// The text of what a constructor carries: nothing for a constructor
/// without types, else ` of ` and the types or the record.
pub open spec fn variant_text(variant: CamlVariantView) -> Seq<char>
    decreases variant, 0nat,
{
    match variant {
        CamlVariantView::InlineRecord(record) => " of "@ + record_text(record),
        CamlVariantView::Constructor(types) => if types.len() == 0 {
            Seq::empty()
        } else {
            " of "@ + starred_types_text(types)
        },
    }
}

/// The texts of the variants `variants`, each behind a bar.
pub open spec fn variants_text(variants: Seq<CamlVariantView>) -> Seq<char>
    decreases variants, 0nat,
{
    if variants.len() == 0 {
        Seq::empty()
    } else {
        variants_text(variants.drop_last()) + "| "@ + variant_text(variants.last())
    }
}

/// The text of a type. A reference is the name of the type, behind the
/// name of its module and a dot where the module is not the local one.
pub open spec fn type_text(t: CamlTypeView) -> Seq<char>
    decreases t, 0nat,
{
    match t {
        CamlTypeView::Reference { module, name } => if module.len() == 0 {
            name
        } else {
            module + "."@ + name
        },
        CamlTypeView::Abstract(name) => "type "@ + name,
        CamlTypeView::Record { name, record } => "type "@ + name + " = "@ + record_text(record)
            + " \n"@,
        CamlTypeView::Variant { name, variants } => "type "@ + name + " = \n"@ + variants_text(
            variants,
        ),
    }
}

impl CamlField {
    /// The comment in front of a field, where `text` is the comment of the
    /// field without the white space around it.
    pub fn comment(text: &str) -> (r: String)
        ensures
            r@ == "(* "@ + text@ + " *)"@,
    {
        String::from_str("(* ").concat(text).concat(" *)")
    }

    /// The field as OCaml source text.
    pub fn to_string(&self) -> (r: String)
        ensures
            r@ == field_text(self@),
        decreases self,
    {
        let mut out = String::new();
        if let Some(doc) = &self.doc {
            out.append(CamlField::comment(trim(doc.as_str()).as_str()).as_str());
        }
        out.append(self.name.as_str());
        out.append(": ");
        out.append(self.type_.to_string().as_str());
        out
    }
}

impl CamlRecord {
    /// The record as OCaml source text.
    pub fn to_string(&self) -> (r: String)
        ensures
            r@ == record_text(self@),
        decreases self,
    {
        let order = sort_order(&self.fields);
        let ghost fields = self@.fields;
        let ghost wanted = sorted_order(fields, fields.len());
        proof {
            fields_of_record(*self);
        }
        let mut out = String::from_str("{ ");
        let ghost head = out@;
        let mut k: usize = 0;
        while k < order.len()
            invariant
                k <= order.len(),
                order.len() == self.fields.len(),
                fields == self.fields.deep_view(),
                wanted == places(order@),
                forall|j: int| 0 <= j < order.len() ==> #[trigger] order@[j] < self.fields.len(),
                out@ == head + ordered_fields_text(fields, wanted.take(k as int)),
            decreases order.len() - k,
        {
            let ghost so_far = ordered_fields_text(fields, wanted.take(k as int));
            let place = order[k];
            proof {
                let part = wanted.take(k + 1);
                assert(part.drop_last() =~= wanted.take(k as int));
            }
            if k > 0 {
                out.append("\n; ");
            }
            out.append(self.fields[place].to_string().as_str());
            proof {
                if !(k == 0) {
                    assert(out@ =~= head + (so_far + "\n; "@ + field_text_at(
                        fields,
                        place as int,
                    )));
                }
            }
            k += 1;
        }
        proof {
            assert(wanted.take(k as int) =~= wanted);
        }
        out.append(" }");
        out
    }
}

impl CamlVariant {
    /// What the constructor carries, as OCaml source text.
    pub fn to_string(&self) -> (r: String)
        ensures
            r@ == variant_text(self@),
        decreases self,
    {
        match self {
            CamlVariant::InlineRecord(record) => String::from_str(" of ").concat(
                record.to_string().as_str(),
            ),
            CamlVariant::Constructor(types) => {
                let ghost views = types.deep_view();
                proof {
                    assert(self@->Constructor_0 =~= views);
                }
                let mut out = String::new();
                if types.len() > 0 {
                    out.append(" of ");
                    let ghost head = out@;
                    out.append(types[0].to_string().as_str());
                    let mut i: usize = 1;
                    while i < types.len()
                        invariant
                            1 <= i <= types.len(),
                            views == types.deep_view(),
                            forall|k: int|
                                0 <= k < types.len() ==> decreases_to!(self => #[trigger] types[k]),
                            out@ == head + starred_types_text(views.take(i as int)),
                        decreases types.len() - i,
                    {
                        proof {
                            let part = views.take(i + 1);
                            assert(part.drop_last() =~= views.take(i as int));
                        }
                        out.append("* ");
                        out.append(types[i].to_string().as_str());
                        i += 1;
                    }
                    proof {
                        assert(views.take(i as int) =~= views);
                    }
                }
                out
            },
        }
    }
}

impl CamlType {
    /// The type as OCaml source text.
    pub fn to_string(&self) -> (r: String)
        ensures
            r@ == type_text(self@),
        decreases self,
    {
        match self {
            CamlType::Reference { module, name } => {
                if module.is_empty() {
                    name.clone()
                } else {
                    module.to_string().concat(".").concat(name.as_str())
                }
            },
            CamlType::Abstract(name) => String::from_str("type ").concat(name.as_str()),
            CamlType::Record { name, record } => String::from_str("type ").concat(
                name.as_str(),
            ).concat(" = ").concat(record.to_string().as_str()).concat(" \n"),
            CamlType::Variant { name, variants } => {
                let ghost views = variants.deep_view();
                proof {
                    assert(self@->Variant_variants =~= views);
                }
                let mut out = String::from_str("type ").concat(name.as_str()).concat(" = \n");
                let ghost head = out@;
                let mut i: usize = 0;
                while i < variants.len()
                    invariant
                        i <= variants.len(),
                        views == variants.deep_view(),
                        forall|k: int|
                            0 <= k < variants.len() ==> decreases_to!(self => #[trigger] variants[k]),
                        out@ == head + variants_text(views.take(i as int)),
                    decreases variants.len() - i,
                {
                    let ghost so_far = variants_text(views.take(i as int));
                    proof {
                        let part = views.take(i + 1);
                        assert(part.drop_last() =~= views.take(i as int));
                    }
                    out.append("| ");
                    out.append(variants[i].to_string().as_str());
                    proof {
                        assert(out@ =~= head + (so_far + "| "@ + variant_text(
                            variants@[i as int]@,
                        )));
                    }
                    i += 1;
                }
                proof {
                    assert(views.take(i as int) =~= views);
                }
                out
            },
        }
    }
}

/// What a `CamlFun` holds.
pub struct CamlFunView {
    pub args: Seq<CamlTypeView>,
    pub return_: CamlTypeView,
}

/// The type of an OCaml function.
#[derive(Debug, PartialEq, Eq)]
pub struct CamlFun {
    pub args: Vec<CamlType>,
    pub return_: CamlType,
}

impl View for CamlFun {
    type V = CamlFunView;

    open spec fn view(&self) -> CamlFunView {
        CamlFunView { args: self.args.deep_view(), return_: self.return_@ }
    }
}

/// The texts of the types `args`, each followed by an arrow.
pub open spec fn args_text(args: Seq<CamlTypeView>) -> Seq<char>
    decreases args.len(),
{
    if args.len() == 0 {
        Seq::empty()
    } else {
        args_text(args.drop_last()) + type_text(args.last()) + " -> "@
    }
}

/// The text of the type of a function.
pub open spec fn fun_text(fun: CamlFunView) -> Seq<char> {
    args_text(fun.args) + type_text(fun.return_)
}

impl CamlFun {
    pub fn new(args: Vec<CamlType>, return_: CamlType) -> (r: CamlFun)
        ensures
            r@ == (CamlFunView { args: args.deep_view(), return_: return_@ }),
    {
        CamlFun { args, return_ }
    }

    /// The type of the function as OCaml source text.
    pub fn to_string(&self) -> (r: String)
        ensures
            r@ == fun_text(self@),
    {
        let ghost views = self.args.deep_view();
        let mut out = String::new();
        let mut i: usize = 0;
        while i < self.args.len()
            invariant
                i <= self.args.len(),
                views == self.args.deep_view(),
                out@ == args_text(views.take(i as int)),
            decreases self.args.len() - i,
        {
            proof {
                let part = views.take(i + 1);
                assert(part.drop_last() =~= views.take(i as int));
            }
            out.append(self.args[i].to_string().as_str());
            out.append(" -> ");
            i += 1;
        }
        proof {
            assert(views.take(i as int) =~= views);
        }
        out.append(self.return_.to_string().as_str());
        out
    }
}

/// What a `CamlBinding` holds.
pub struct CamlBindingView {
    pub name: Seq<char>,
    pub val: CamlFunView,
}

/// The declaration of an OCaml value: its name and its type.
#[derive(Debug, PartialEq, Eq)]
pub struct CamlBinding {
    pub name: String,
    pub val: CamlFun,
}

impl View for CamlBinding {
    type V = CamlBindingView;

    open spec fn view(&self) -> CamlBindingView {
        CamlBindingView { name: self.name@, val: self.val@ }
    }
}

/// The text of the declaration of a value.
pub open spec fn binding_text(binding: CamlBindingView) -> Seq<char> {
    "val "@ + binding.name + " : "@ + fun_text(binding.val)
}

impl CamlBinding {
    /// The declaration of the value of the type `val` that is named after
    /// `name`: the URI of `name` with `_` in the place of each `/` and
    /// each `:`, and a small letter at the start.
    pub fn bind(name: Name, val: CamlFun) -> (r: CamlBinding)
        ensures
            r@ == (CamlBindingView { name: uncapitalized(flattened(name@.uri)), val: val@ }),
    {
        let mut text = flatten(&name);
        uncapitalize(&mut text);
        CamlBinding { name: string_of(text.as_slice()), val }
    }

    /// The declaration as OCaml source text.
    pub fn to_string(&self) -> (r: String)
        ensures
            r@ == binding_text(self@),
    {
        String::from_str("val ").concat(self.name.as_str()).concat(" : ").concat(
            self.val.to_string().as_str(),
        )
    }
}

/// What a `CamlModule` holds.
pub struct CamlModuleView {
    pub name: Seq<char>,
    pub filename: Seq<char>,
    pub structure: Seq<CamlValueView>,
}

/// What a `CamlValueDesc` holds.
pub enum CamlValueDescView {
    Module(CamlModuleView),
    Type(CamlTypeView),
    Binding(CamlBindingView),
}

/// What a `CamlValue` holds.
pub struct CamlValueView {
    pub value: CamlValueDescView,
    pub doc: Option<Seq<char>>,
}

/// An OCaml module: its name, the name of its interface file, and its
/// items.
#[derive(Debug, PartialEq, Eq)]
pub struct CamlModule {
    pub name: CamlModuleName,
    pub filename: String,
    pub structure: Vec<CamlValue>,
}

/// What an item of a module is.
#[derive(Debug, PartialEq, Eq)]
pub enum CamlValueDesc {
    Module(CamlModule),
    Type(CamlType),
    Binding(CamlBinding),
}

/// An item of a module, with its comment.
#[derive(Debug, PartialEq, Eq)]
pub struct CamlValue {
    pub value: CamlValueDesc,
    pub doc: Option<String>,
}

/// What the module `module` holds.
pub open spec fn module_view(module: CamlModule) -> CamlModuleView
    decreases module,
{
    CamlModuleView {
        name: module.name@,
        filename: module.filename@,
        structure: Seq::new(
            module.structure.len() as nat,
            |i: int|
                if 0 <= i < module.structure.len() {
                    value_view(module.structure[i])
                } else {
                    arbitrary()
                },
        ),
    }
}

/// What `desc` holds.
pub open spec fn desc_view(desc: CamlValueDesc) -> CamlValueDescView
    decreases desc,
{
    match desc {
        CamlValueDesc::Module(module) => CamlValueDescView::Module(module_view(module)),
        CamlValueDesc::Type(t) => CamlValueDescView::Type(t@),
        CamlValueDesc::Binding(binding) => CamlValueDescView::Binding(binding@),
    }
}

/// What the item `value` holds.
pub open spec fn value_view(value: CamlValue) -> CamlValueView
    decreases value,
{
    CamlValueView { value: desc_view(value.value), doc: optional_text(value.doc) }
}

impl View for CamlModule {
    type V = CamlModuleView;

    open spec fn view(&self) -> CamlModuleView {
        module_view(*self)
    }
}

impl View for CamlValueDesc {
    type V = CamlValueDescView;

    open spec fn view(&self) -> CamlValueDescView {
        desc_view(*self)
    }
}

impl View for CamlValue {
    type V = CamlValueView;

    open spec fn view(&self) -> CamlValueView {
        value_view(*self)
    }
}

impl DeepView for CamlValue {
    type V = CamlValueView;

    open spec fn deep_view(&self) -> CamlValueView {
        value_view(*self)
    }
}

/// The comment in front of an item whose comment is `doc`: the trimmed
/// text on a line of its own, between an opening and a closing line.
pub open spec fn value_comment(doc: Option<Seq<char>>) -> Seq<char> {
    match doc {
        Some(text) => "(*\n"@ + "  "@ + trimmed(text) + "\n"@ + "*)\n"@,
        None => Seq::empty(),
    }
}

/// The text of a module: its items, one to a line.
pub open spec fn module_text(module: CamlModuleView) -> Seq<char>
    decreases module, 0nat,
{
    value_lines(module.structure)
}

/// The texts of the items `items`, one to a line.
pub open spec fn value_lines(items: Seq<CamlValueView>) -> Seq<char>
    decreases items, 0nat,
{
    if items.len() == 0 {
        Seq::empty()
    } else {
        value_lines(items.drop_last()) + value_text(items.last()) + "\n"@
    }
}

/// The text of what an item is.
pub open spec fn desc_text(desc: CamlValueDescView) -> Seq<char>
    decreases desc, 0nat,
{
    match desc {
        CamlValueDescView::Module(module) => module_text(module),
        CamlValueDescView::Type(t) => type_text(t),
        CamlValueDescView::Binding(binding) => binding_text(binding),
    }
}

/// The text of an item: its comment, then what it is.
pub open spec fn value_text(value: CamlValueView) -> Seq<char>
    decreases value, 0nat,
{
    value_comment(value.doc) + desc_text(value.value)
}

/// The interface file of a module.
pub open spec fn source_of(module: CamlModuleView) -> SourceView {
    SourceView { name: module.filename, contents: module_text(module) }
}

impl CamlModule {
    /// The module `name` without items. Its interface file is named as
    /// the module, in lower case, with `.mli` behind the name.
    pub fn new(name: CamlModuleName) -> (r: CamlModule)
        ensures
            r@ == (CamlModuleView {
                name: name@,
                filename: lowercase(name@) + ".mli"@,
                structure: Seq::empty(),
            }),
    {
        let lower = to_lowercase(name.to_string().as_str());
        CamlModule::with_lowercase(name, lower.as_str())
    }

    /// The module `name` without items, where `lower` is the name in lower
    /// case.
    pub fn with_lowercase(name: CamlModuleName, lower: &str) -> (r: CamlModule)
        ensures
            r@ == (CamlModuleView {
                name: name@,
                filename: lower@ + ".mli"@,
                structure: Seq::empty(),
            }),
    {
        let filename = String::from_str(lower).concat(".mli");
        let r = CamlModule { name, filename, structure: Vec::new() };
        proof {
            assert(r@.structure =~= Seq::empty());
        }
        r
    }

    /// The module with the items `structure` in the place of its own.
    pub fn with_structure(self, structure: Vec<CamlValue>) -> (r: CamlModule)
        ensures
            r@ == (CamlModuleView { structure: structure.deep_view(), ..self@ }),
    {
        let r = CamlModule { structure, name: self.name, filename: self.filename };
        proof {
            assert(r@.structure =~= structure.deep_view());
        }
        r
    }

    /// The module as OCaml source text.
    pub fn to_string(&self) -> (r: String)
        ensures
            r@ == module_text(self@),
        decreases self,
    {
        let mut out = String::new();
        let ghost items = self@.structure;
        let mut i: usize = 0;
        while i < self.structure.len()
            invariant
                i <= self.structure.len(),
                items == self@.structure,
                out@ == value_lines(items.take(i as int)),
            decreases self.structure.len() - i,
        {
            proof {
                let part = items.take(i + 1);
                assert(part.drop_last() =~= items.take(i as int));
            }
            out.append(self.structure[i].to_string().as_str());
            out.append("\n");
            i += 1;
        }
        proof {
            assert(items.take(i as int) =~= items);
        }
        out
    }

    /// The interface file of the module.
    pub fn into_source(self) -> (r: Source)
        ensures
            r@ == source_of(self@),
    {
        let contents = self.to_string();
        Source::new(self.filename, contents)
    }
}

impl CamlValueDesc {
    /// What the item is, as OCaml source text.
    pub fn to_string(&self) -> (r: String)
        ensures
            r@ == desc_text(self@),
        decreases self,
    {
        match self {
            CamlValueDesc::Module(m) => m.to_string(),
            CamlValueDesc::Type(t) => t.to_string(),
            CamlValueDesc::Binding(b) => b.to_string(),
        }
    }
}

impl CamlValue {
    /// The item that declares the value `b`, without a comment.
    pub fn binding(b: CamlBinding) -> (r: CamlValue)
        ensures
            r@ == (CamlValueView { value: CamlValueDescView::Binding(b@), doc: None }),
    {
        CamlValue { value: CamlValueDesc::Binding(b), doc: None }
    }

    /// The item that declares the type `t`, without a comment.
    pub fn new_type(t: CamlType) -> (r: CamlValue)
        ensures
            r@ == (CamlValueView { value: CamlValueDescView::Type(t@), doc: None }),
    {
        CamlValue { value: CamlValueDesc::Type(t), doc: None }
    }

    /// The item with the comment `doc`.
    pub fn with_doc(self, doc: Option<String>) -> (r: CamlValue)
        ensures
            r@ == (CamlValueView { doc: optional_text(doc), ..self@ }),
    {
        CamlValue { doc, value: self.value }
    }

    /// The comment in front of an item, where `text` is the comment of the
    /// item without the white space around it.
    pub fn comment(text: &str) -> (r: String)
        ensures
            r@ == "(*\n"@ + "  "@ + text@ + "\n"@ + "*)\n"@,
    {
        String::from_str("(*\n").concat("  ").concat(text).concat("\n").concat("*)\n")
    }

    /// The item as OCaml source text.
    pub fn to_string(&self) -> (r: String)
        ensures
            r@ == value_text(self@),
        decreases self,
    {
        let mut out = String::new();
        if let Some(doc) = &self.doc {
            out.append(CamlValue::comment(trim(doc.as_str()).as_str()).as_str());
        }
        out.append(self.value.to_string().as_str());
        out
    }
}

} // verus!
