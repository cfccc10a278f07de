pub mod ocaml_ast;
pub mod ocaml_emitter;
pub mod sorting;

use vstd::prelude::*;
use vstd::string::StringExecFns;
use crate::ast::{DeclarationView, Name};
use crate::codegen::emitter_error::EmitterError;
use crate::codegen::source_set::{Source, SourceSet, SourceView};
use crate::store::Store;
use crate::text::{
    capitalize, capitalized, chars_of, join_chars, joined, lowercase, replace_char, replaced,
    split_chars, split_on, split_on_has_parts, string_of, texts_of, to_lowercase,
};

verus! {

/// The parts of the name of the module of a kind whose URI in lower case
/// is `lower`: the URI is cut at each `/` and each `:`, and the first part
/// starts with a capital letter.
pub open spec fn name_parts(lower: Seq<char>) -> Seq<Seq<char>> {
    let parts = split_on(replaced(lower, '/', seq![':']), ':');
    parts.update(0, capitalized(parts[0]))
}

/// The name of an OCaml module, in parts.
#[derive(Debug, PartialEq, Eq)]
pub struct CamlName {
    parts: Vec<String>,
}

impl View for CamlName {
    type V = Seq<Seq<char>>;

    closed spec fn view(&self) -> Seq<Seq<char>> {
        self.parts.deep_view()
    }
}

impl Clone for CamlName {
    fn clone(&self) -> (r: Self)
        ensures
            r@ == self@,
    {
        let mut parts: Vec<String> = Vec::new();
        let mut i: usize = 0;
        while i < self.parts.len()
            invariant
                i <= self.parts.len(),
                parts.len() == i,
                forall|k: int| 0 <= k < i ==> parts@[k]@ == self.parts@[k]@,
            decreases self.parts.len() - i,
        {
            parts.push(self.parts[i].clone());
            i += 1;
        }
        CamlName { parts }
    }
}

impl CamlName {
    /// The name of the module of the kind `name`.
    pub fn from_kind_name(name: &Name) -> (r: CamlName)
        ensures
            r@ == name_parts(lowercase(name@.uri)),
    {
        let lower = to_lowercase(name.to_string().as_str());
        CamlName::from_lowercase(lower.as_str())
    }

    /// The name of the module of a kind whose URI in lower case is `lower`.
    pub fn from_lowercase(lower: &str) -> (r: CamlName)
        ensures
            r@ == name_parts(lower@),
            r@.len() >= 1,
    {
        let text = chars_of(lower);
        let colon = [':'];
        let cut = replace_char(text.as_slice(), '/', colon.as_slice());
        proof {
            assert(colon@ =~= seq![':']);
            split_on_has_parts(cut@, ':');
        }
        let pieces = split_chars(cut.as_slice(), ':');
        let mut parts: Vec<String> = Vec::new();
        let mut i: usize = 0;
        while i < pieces.len()
            invariant
                i <= pieces.len(),
                pieces.len() >= 1,
                parts.len() == i,
                forall|k: int|
                    0 <= k < i ==> parts@[k]@ == name_parts(lower@)[k],
                texts_of(pieces@) == split_on(replaced(lower@, '/', seq![':']), ':'),
            decreases pieces.len() - i,
        {
            if i == 0 {
                let mut first = pieces[0].clone();
                capitalize(&mut first);
                parts.push(string_of(first.as_slice()));
            } else {
                parts.push(string_of(pieces[i].as_slice()));
            }
            i += 1;
        }
        CamlName { parts }
    }

    /// The parts with `_` between them.
    pub fn to_filename(&self) -> (r: String)
        ensures
            r@ == joined(self@, seq!['_']),
    {
        let mut pieces: Vec<Vec<char>> = Vec::new();
        let mut i: usize = 0;
        while i < self.parts.len()
            invariant
                i <= self.parts.len(),
                pieces.len() == i,
                forall|k: int| 0 <= k < i ==> pieces@[k]@ == self.parts@[k]@,
            decreases self.parts.len() - i,
        {
            pieces.push(chars_of(self.parts[i].as_str()));
            i += 1;
        }
        let underscore = ['_'];
        proof {
            assert(underscore@ =~= seq!['_']);
            assert(texts_of(pieces@) =~= self.parts.deep_view());
        }
        string_of(join_chars(&pieces, underscore.as_slice()).as_slice())
    }

    /// The name as OCaml source text: the parts with `_` between them.
    pub fn to_string(&self) -> (r: String)
        ensures
            r@ == joined(self@, seq!['_']),
    {
        self.to_filename()
    }
}

/// What a `CamlModule` holds.
pub struct CamlModuleView {
    pub name: Seq<Seq<char>>,
    pub structure: Seq<CamlValueView>,
}

/// What a `CamlValue` holds.
pub enum CamlValueView {
    Module(CamlModuleView),
    Type { name: Seq<char> },
}

/// An OCaml module: its name and its items.
#[derive(Debug, PartialEq, Eq)]
pub struct CamlModule {
    pub name: CamlName,
    pub structure: Vec<CamlValue>,
}

/// An item of an OCaml module.
#[derive(Debug, PartialEq, Eq)]
pub enum CamlValue {
    Module(CamlModule),
    Type { name: String },
}

/// What the module `module` holds.
pub open spec fn module_view(module: CamlModule) -> CamlModuleView
    decreases module,
{
    CamlModuleView {
        name: module.name@,
        structure: Seq::new(
            module.structure.len() as nat,
            |i: int|
                if 0 <= i < module.structure.len() {
                    value_view(module.structure[i])
                } else {
                    CamlValueView::Type { name: Seq::empty() }
                },
        ),
    }
}

/// What the item `value` holds.
pub open spec fn value_view(value: CamlValue) -> CamlValueView
    decreases value,
{
    match value {
        CamlValue::Module(module) => CamlValueView::Module(module_view(module)),
        CamlValue::Type { name } => CamlValueView::Type { name: name@ },
    }
}

impl View for CamlModule {
    type V = CamlModuleView;

    open spec fn view(&self) -> CamlModuleView {
        module_view(*self)
    }
}

impl View for CamlValue {
    type V = CamlValueView;

    open spec fn view(&self) -> CamlValueView {
        value_view(*self)
    }
}

/// The text of a module: its items, one to a line.
pub open spec fn module_text(module: CamlModuleView) -> Seq<char>
    decreases module, 1nat,
{
    item_lines(module.structure)
}

/// The items `items`, one to a line.
pub open spec fn item_lines(items: Seq<CamlValueView>) -> Seq<char>
    decreases items, 0nat,
{
    if items.len() == 0 {
        Seq::empty()
    } else {
        item_lines(items.drop_last()) + value_text(items.last()) + "\n"@
    }
}

/// The text of an item: a module as its own text, a type as `type` and
/// its name.
pub open spec fn value_text(value: CamlValueView) -> Seq<char>
    decreases value, 0nat,
{
    match value {
        CamlValueView::Module(module) => module_text(module),
        CamlValueView::Type { name } => "type "@ + name,
    }
}

impl CamlModule {
    /// The module as OCaml source text.
    pub fn to_string(&self) -> (r: String)
        ensures
            r@ == module_text(self@),
        decreases self,
    {
        let mut out = String::new();
        let ghost items = self@.structure;
        let mut i: usize = 0;
        while i < self.structure.len()
            invariant
                i <= self.structure.len(),
                items == self@.structure,
                out@ == item_lines(items.take(i as int)),
            decreases self.structure.len() - i,
        {
            proof {
                let part = items.take(i + 1);
                assert(part.drop_last() =~= items.take(i as int));
            }
            out.append(self.structure[i].to_string().as_str());
            out.append("\n");
            i += 1;
        }
        proof {
            assert(items.take(i as int) =~= items);
        }
        out
    }

    /// The interface file of the module: it is named as the module, with
    /// `.mli` behind the name, and holds the text of the module.
    pub fn into_source(self) -> (r: Source)
        ensures
            r@ == source_of(self@),
    {
        let filename = self.name.to_filename().concat(".mli");
        let contents = self.to_string();
        Source::new(filename, contents)
    }
}

/// The interface file of a module.
pub open spec fn source_of(module: CamlModuleView) -> SourceView {
    SourceView { name: joined(module.name, seq!['_']) + ".mli"@, contents: module_text(module) }
}

impl CamlValue {
    /// The item as OCaml source text.
    pub fn to_string(&self) -> (r: String)
        ensures
            r@ == value_text(self@),
        decreases self,
    {
        match self {
            CamlValue::Module(m) => m.to_string(),
            CamlValue::Type { name } => String::from_str("type ").concat(name.as_str()),
        }
    }
}

/// The module of a kind whose URI in lower case is `lower`: it declares
/// the type `t`.
pub open spec fn module_of(lower: Seq<char>) -> CamlModuleView {
    CamlModuleView {
        name: name_parts(lower),
        structure: seq![CamlValueView::Type { name: "t"@ }],
    }
}

/// The interface files of the kinds, in order.
pub open spec fn sources_of(kinds: Seq<DeclarationView>) -> Seq<SourceView> {
    kinds.map_values(|kind: DeclarationView| source_of(module_of(lowercase(kind.name.uri))))
}

/// The emitter of OCaml interface files, one for each kind.
#[derive(Default)]
pub struct OCamlEmitter {}

impl OCamlEmitter {
    pub fn new() -> (r: OCamlEmitter) {
        OCamlEmitter {  }
    }

    /// One interface file for each kind of the store.
    pub fn translate(&self, store: &Store) -> (r: Result<SourceSet, EmitterError>)
        ensures
            r matches Ok(sources) && sources@ == sources_of(store@.kinds),
    {
        let mut sources: Vec<Source> = Vec::new();
        let kinds = store.kinds();
        let mut i: usize = 0;
        while i < kinds.len()
            invariant
                i <= kinds.len(),
                sources.len() == i,
                forall|k: int|
                    0 <= k < i ==> sources@[k]@ == source_of(
                        module_of(lowercase(kinds@[k]@.name.uri)),
                    ),
            decreases kinds.len() - i,
        {
            let kind = kinds[i];
            let mut structure: Vec<CamlValue> = Vec::new();
            structure.push(CamlValue::Type { name: String::from_str("t") });
            let module = CamlModule { name: CamlName::from_kind_name(&kind.name), structure };
            sources.push(module.into_source());
            i += 1;
        }
        Ok(SourceSet::from_sources(sources))
    }
}

} // verus!
